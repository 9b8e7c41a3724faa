//! The listing of a struct.

use crate::display::function::{format_type, item_indent, item_indent_text, shown_type};
use crate::syntax::{
    field_node_views, FieldNodeView, FieldsNode, FieldsNodeView, StructNode, StructNodeView,
};
use crate::text::{decimal, decimal_text};
use vstd::prelude::*;
use vstd::string::*;

verus! {

/// The lines of the field of number `k`, counted from zero, of a struct
/// with named fields: nothing for a field without a name.
pub open spec fn named_field_text(indent: Seq<char>, k: nat, f: FieldNodeView) -> Seq<char> {
    match f.ident {
        Some(name) => indent + "  Field "@ + decimal(k + 1) + ": "@ + name + "\n"@ + indent
            + "    Type: "@ + shown_type(f.ty) + "\n"@,
        None => Seq::empty(),
    }
}

/// The lines of the field of number `k`, counted from zero, of a tuple
/// struct.
pub open spec fn unnamed_field_text(indent: Seq<char>, k: nat, f: FieldNodeView) -> Seq<char> {
    indent + "  Field "@ + decimal(k + 1) + ": (unnamed)\n"@ + indent + "    Type: "@ + shown_type(
        f.ty,
    ) + "\n"@
}

/// The lines of the first `n` fields of a struct with named fields.
pub open spec fn named_fields_text(indent: Seq<char>, fields: Seq<FieldNodeView>, n: int) -> Seq<
    char,
>
    decreases n,
{
    if n <= 0 {
        Seq::empty()
    } else {
        named_fields_text(indent, fields, n - 1) + named_field_text(
            indent,
            (n - 1) as nat,
            fields[n - 1],
        )
    }
}

/// The lines of the first `n` fields of a tuple struct.
pub open spec fn unnamed_fields_text(indent: Seq<char>, fields: Seq<FieldNodeView>, n: int) -> Seq<
    char,
>
    decreases n,
{
    if n <= 0 {
        Seq::empty()
    } else {
        unnamed_fields_text(indent, fields, n - 1) + unnamed_field_text(
            indent,
            (n - 1) as nat,
            fields[n - 1],
        )
    }
}

/// The lines of the fields of a struct.
pub open spec fn fields_text(indent: Seq<char>, fields: FieldsNodeView) -> Seq<char> {
    match fields {
        FieldsNodeView::Named(all) => named_fields_text(indent, all, all.len() as int),
        FieldsNodeView::Unnamed(all) => unnamed_fields_text(indent, all, all.len() as int),
        FieldsNodeView::Unit => Seq::empty(),
    }
}

/// The listing of a struct: its name, the number of its fields, and the
/// fields.
pub open spec fn struct_text(s: StructNodeView, parent_index: nat, item_index: nat) -> Seq<char> {
    let indent = item_indent(parent_index, item_index);
    indent + "Struct name: "@ + s.name + "\n"@ + indent + "Fields: "@ + decimal(
        s.fields.all().len(),
    ) + "\n"@ + fields_text(indent, s.fields)
}

/// The number of the fields of a struct.
pub fn count_fields(structure: &StructNode) -> (r: usize)
    ensures
        r == structure@.fields.all().len(),
{
    match &structure.fields {
        FieldsNode::Named(fields) => fields.len(),
        FieldsNode::Unnamed(fields) => fields.len(),
        FieldsNode::Unit => 0,
    }
}

/// The listing of a struct.
pub fn format_struct(structure: &StructNode, parent_index: usize, item_index: usize) -> (r: String)
    ensures
        r@ == struct_text(structure@, parent_index as nat, item_index as nat),
{
    let indent = item_indent_text(parent_index, item_index);
    let mut output = String::new();
    output.append(indent);
    output.append("Struct name: ");
    output.append(structure.name.as_str());
    output.append("\n");
    output.append(indent);
    output.append("Fields: ");
    output.append(decimal_text(count_fields(structure)).as_str());
    output.append("\n");
    let ghost head = output@;
    match &structure.fields {
        FieldsNode::Named(fields) => {
            let ghost views = field_node_views(fields@);
            let mut i: usize = 0;
            assert(output@ =~= head + named_fields_text(indent@, views, 0));
            while i < fields.len()
                invariant
                    i <= fields.len(),
                    views == field_node_views(fields@),
                    output@ == head + named_fields_text(indent@, views, i as int),
                decreases fields.len() - i,
            {
                let field = &fields[i];
                let ghost before = output@;
                assert(views[i as int] == field@);
                match &field.ident {
                    Some(ident) => {
                        output.append(indent);
                        output.append("  Field ");
                        output.append(decimal_text(i + 1).as_str());
                        output.append(": ");
                        output.append(ident.as_str());
                        output.append("\n");
                        output.append(indent);
                        output.append("    Type: ");
                        format_type(&mut output, &field.ty);
                        output.append("\n");
                    },
                    None => {},
                }
                assert(output@ =~= before + named_field_text(indent@, i as nat, views[i as int]));
                assert(output@ =~= head + named_fields_text(indent@, views, i + 1));
                i += 1;
            }
        },
        FieldsNode::Unnamed(fields) => {
            let ghost views = field_node_views(fields@);
            let mut i: usize = 0;
            assert(output@ =~= head + unnamed_fields_text(indent@, views, 0));
            while i < fields.len()
                invariant
                    i <= fields.len(),
                    views == field_node_views(fields@),
                    output@ == head + unnamed_fields_text(indent@, views, i as int),
                decreases fields.len() - i,
            {
                let field = &fields[i];
                let ghost before = output@;
                assert(views[i as int] == field@);
                output.append(indent);
                output.append("  Field ");
                output.append(decimal_text(i + 1).as_str());
                output.append(": (unnamed)\n");
                output.append(indent);
                output.append("    Type: ");
                format_type(&mut output, &field.ty);
                output.append("\n");
                assert(output@ =~= before + unnamed_field_text(
                    indent@,
                    i as nat,
                    views[i as int],
                ));
                assert(output@ =~= head + unnamed_fields_text(indent@, views, i + 1));
                i += 1;
            }
        },
        FieldsNode::Unit => {
            assert(output@ =~= head + Seq::empty());
        },
    }
    assert(output@ =~= struct_text(structure@, parent_index as nat, item_index as nat));
    output
}

} // verus!
