//! The listing of a module.

use crate::display::function::{format_function, function_text};
use crate::display::strings::{
    attributes_count_text, format_attributes_count, format_item_reference, format_items_count,
    format_module_name, item_reference_text, items_count_text, module_name_text,
};
use crate::display::structure::{format_struct, struct_text};
use crate::display::utils::{kind_name, module_item_type_name};
use crate::syntax::{
    attribute_views, module_item_views, AttributeNodeView, ModuleItemNode, ModuleItemNodeView,
    ModuleNode, ModuleNodeView,
};
use vstd::prelude::*;
use vstd::string::*;

verus! {

/// The line of an attribute: nothing for one that is no identifier.
pub open spec fn attribute_text(a: AttributeNodeView) -> Seq<char> {
    match a.ident {
        Some(ident) => "    - "@ + ident + "\n"@,
        None => Seq::empty(),
    }
}

/// The lines of the first `n` attributes.
pub open spec fn attributes_text(attributes: Seq<AttributeNodeView>, n: int) -> Seq<char>
    decreases n,
{
    if n <= 0 {
        Seq::empty()
    } else {
        attributes_text(attributes, n - 1) + attribute_text(attributes[n - 1])
    }
}

/// The line of a module inside a module.
pub open spec fn nested_module_text(name: Seq<char>) -> Seq<char> {
    "      Nested module: "@ + name + "\n"@
}

/// The lines of the item of number `j`, counted from zero, of the module of
/// number `index`: its reference, and its listing where it is a function, a
/// struct or a module.
pub open spec fn module_item_text(index: nat, j: nat, item: ModuleItemNodeView) -> Seq<char> {
    "    "@ + item_reference_text(index, j + 1, kind_name(item.kind())) + "\n"@ + match item {
        ModuleItemNodeView::Function(f) => function_text(f, index, j + 1),
        ModuleItemNodeView::Struct(s) => struct_text(s, index, j + 1),
        ModuleItemNodeView::Module(name) => nested_module_text(name),
        ModuleItemNodeView::Other(_) => Seq::empty(),
    }
}

/// The lines of the first `n` items of the module of number `index`.
pub open spec fn module_items_text(index: nat, items: Seq<ModuleItemNodeView>, n: int) -> Seq<char>
    decreases n,
{
    if n <= 0 {
        Seq::empty()
    } else {
        module_items_text(index, items, n - 1) + module_item_text(
            index,
            (n - 1) as nat,
            items[n - 1],
        )
    }
}

/// The lines of the content of a module: the number of its items, and the
/// items; nothing for a module whose body stands elsewhere.
pub open spec fn content_text(index: nat, content: Option<Seq<ModuleItemNodeView>>) -> Seq<char> {
    match content {
        Some(items) => "  "@ + items_count_text(items.len()) + "\n"@ + module_items_text(
            index,
            items,
            items.len() as int,
        ),
        None => Seq::empty(),
    }
}

/// The listing of the module of number `index`: its name, its attributes,
/// and its content.
pub open spec fn module_text(m: ModuleNodeView, index: nat) -> Seq<char> {
    module_name_text(m.name) + "\n"@ + "  "@ + attributes_count_text(m.attributes.len()) + "\n"@
        + attributes_text(m.attributes, m.attributes.len() as int) + content_text(index, m.content)
}

/// The line of a module inside a module.
pub fn format_nested_module(name: &str) -> (r: String)
    ensures
        r@ == nested_module_text(name@),
{
    let mut output = "      Nested module: ".to_owned();
    output.append(name);
    output.append("\n");
    output
}

/// The listing of the module of number `index`.
pub fn format_module(module: &ModuleNode, index: usize) -> (r: String)
    ensures
        r@ == module_text(module@, index as nat),
{
    let mut output = String::new();
    output.append(format_module_name(module.name.as_str()).as_str());
    output.append("\n");
    output.append("  ");
    output.append(format_attributes_count(module.attributes.len()).as_str());
    output.append("\n");
    let ghost head = output@;
    let ghost attributes = attribute_views(module.attributes@);
    let mut i: usize = 0;
    assert(output@ =~= head + attributes_text(attributes, 0));
    while i < module.attributes.len()
        invariant
            i <= module.attributes.len(),
            attributes == attribute_views(module.attributes@),
            output@ == head + attributes_text(attributes, i as int),
        decreases module.attributes.len() - i,
    {
        let ghost before = output@;
        assert(attributes[i as int] == module.attributes[i as int]@);
        match &module.attributes[i].ident {
            Some(ident) => {
                output.append("    - ");
                output.append(ident.as_str());
                output.append("\n");
            },
            None => {},
        }
        assert(output@ =~= before + attribute_text(attributes[i as int]));
        assert(output@ =~= head + attributes_text(attributes, i + 1));
        i += 1;
    }
    let ghost top = output@;
    match &module.content {
        Some(items) => {
            let ghost views = module_item_views(items@);
            output.append("  ");
            output.append(format_items_count(items.len()).as_str());
            output.append("\n");
            let ghost start = output@;
            let mut j: usize = 0;
            assert(output@ =~= start + module_items_text(index as nat, views, 0));
            while j < items.len()
                invariant
                    j <= items.len(),
                    views == module_item_views(items@),
                    output@ == start + module_items_text(index as nat, views, j as int),
                decreases items.len() - j,
            {
                let item = &items[j];
                let ghost before = output@;
                assert(views[j as int] == item@);
                output.append("    ");
                output.append(
                    format_item_reference(index, j + 1, module_item_type_name(item)).as_str(),
                );
                output.append("\n");
                match item {
                    ModuleItemNode::Function(func) => {
                        output.append(format_function(func, index, j + 1).as_str());
                    },
                    ModuleItemNode::Struct(structure) => {
                        output.append(format_struct(structure, index, j + 1).as_str());
                    },
                    ModuleItemNode::Module(name) => {
                        output.append(format_nested_module(name.as_str()).as_str());
                    },
                    ModuleItemNode::Other(_) => {},
                }
                assert(output@ =~= before + module_item_text(
                    index as nat,
                    j as nat,
                    views[j as int],
                ));
                assert(output@ =~= start + module_items_text(index as nat, views, j + 1));
                j += 1;
            }
            assert(output@ =~= top + content_text(index as nat, module@.content));
        },
        None => {
            assert(output@ =~= top + content_text(index as nat, module@.content));
        },
    }
    assert(output@ =~= module_text(module@, index as nat));
    output
}

} // verus!
