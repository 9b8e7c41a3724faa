//! The listing of a function.

use crate::syntax::{
    segment_views, FnArgNode, FnArgNodeView, FunctionNode, FunctionNodeView, TypeBase,
    TypeBaseView, TypeNode, TypeNodeView,
};
use crate::text::{decimal, decimal_text};
use vstd::prelude::*;
use vstd::string::*;

verus! {

/// The indentation of an item: that of a nested item where both indices are
/// above zero, that of an item at the top level else.
pub open spec fn item_indent(parent_index: nat, item_index: nat) -> Seq<char> {
    if parent_index > 0 && item_index > 0 {
        "      "@
    } else {
        "  "@
    }
}

/// The indentation of an item.
pub fn item_indent_text(parent_index: usize, item_index: usize) -> (r: &'static str)
    ensures
        r@ == item_indent(parent_index as nat, item_index as nat),
{
    if parent_index > 0 && item_index > 0 {
        "      "
    } else {
        "  "
    }
}

/// How one reference marker is shown.
pub open spec fn reference_text(mutable: bool) -> Seq<char> {
    if mutable {
        "&mut "@
    } else {
        "&"@
    }
}

/// How the first `n` reference markers of a type are shown.
pub open spec fn references_text(references: Seq<bool>, n: int) -> Seq<char>
    decreases n,
{
    if n <= 0 {
        Seq::empty()
    } else {
        references_text(references, n - 1) + reference_text(references[n - 1])
    }
}

/// How a type is shown behind its reference markers: the last segment of a
/// path, with `<...>` where it has arguments; `complex_type` for any other
/// type.
pub open spec fn base_text(base: TypeBaseView) -> Seq<char> {
    match base {
        TypeBaseView::Path(segments) => if segments.len() > 0 {
            segments.last().ident + if segments.last().arguments.len() > 0 {
                "<...>"@
            } else {
                Seq::empty()
            }
        } else {
            "unknown"@
        },
        TypeBaseView::Other => "complex_type"@,
    }
}

/// How a type is shown.
pub open spec fn shown_type(t: TypeNodeView) -> Seq<char> {
    references_text(t.references, t.references.len() as int) + base_text(t.base)
}

/// Appends to `output` how `ty` is shown.
pub fn format_type(output: &mut String, ty: &TypeNode)
    ensures
        final(output)@ == old(output)@ + shown_type(ty@),
{
    let mut i: usize = 0;
    assert(output@ =~= old(output)@ + references_text(ty@.references, 0));
    while i < ty.references.len()
        invariant
            i <= ty.references.len(),
            output@ == old(output)@ + references_text(ty@.references, i as int),
        decreases ty.references.len() - i,
    {
        if ty.references[i] {
            output.append("&mut ");
        } else {
            output.append("&");
        }
        assert(output@ =~= old(output)@ + references_text(ty@.references, i + 1));
        i += 1;
    }
    let ghost shown = output@;
    match &ty.base {
        TypeBase::Path(segments) => {
            let n = segments.len();
            if n > 0 {
                let last = &segments[n - 1];
                assert(segment_views(segments@).last() == last@);
                output.append(last.ident.as_str());
                if last.arguments.len() > 0 {
                    output.append("<...>");
                }
            } else {
                output.append("unknown");
            }
        },
        TypeBase::Other => {
            output.append("complex_type");
        },
    }
    assert(output@ =~= shown + base_text(ty@.base));
    assert(output@ =~= old(output)@ + shown_type(ty@));
}

/// The lines of the parameter of number `k`, counted from zero: its name
/// and its type for a named parameter, `self` for a receiver, nothing for a
/// parameter whose pattern is no identifier.
pub open spec fn parameter_text(indent: Seq<char>, k: nat, arg: FnArgNodeView) -> Seq<char> {
    match arg {
        FnArgNodeView::Typed { name, ty } => match name {
            Some(n) => indent + "  Param "@ + decimal(k + 1) + ": "@ + n + "\n"@ + indent
                + "    Type: "@ + shown_type(ty) + "\n"@,
            None => Seq::empty(),
        },
        FnArgNodeView::Receiver => indent + "  Param "@ + decimal(k + 1) + ": self\n"@,
    }
}

/// The lines of the first `n` parameters.
pub open spec fn parameters_text(indent: Seq<char>, inputs: Seq<FnArgNodeView>, n: int) -> Seq<
    char,
>
    decreases n,
{
    if n <= 0 {
        Seq::empty()
    } else {
        parameters_text(indent, inputs, n - 1) + parameter_text(
            indent,
            (n - 1) as nat,
            inputs[n - 1],
        )
    }
}

/// The line of the return type.
pub open spec fn return_text(indent: Seq<char>, output: Option<TypeNodeView>) -> Seq<char> {
    match output {
        Some(ty) => indent + "  Return type: "@ + shown_type(ty) + "\n"@,
        None => Seq::empty(),
    }
}

/// The listing of a function: its name, the number of its parameters, the
/// parameters, and the return type.
pub open spec fn function_text(f: FunctionNodeView, parent_index: nat, item_index: nat) -> Seq<
    char,
> {
    let indent = item_indent(parent_index, item_index);
    indent + "Function name: "@ + f.name + "\n"@ + indent + "Parameters: "@ + decimal(
        f.inputs.len(),
    ) + "\n"@ + parameters_text(indent, f.inputs, f.inputs.len() as int) + return_text(
        indent,
        f.output,
    )
}

/// The listing of a function.
pub fn format_function(func: &FunctionNode, parent_index: usize, item_index: usize) -> (r: String)
    ensures
        r@ == function_text(func@, parent_index as nat, item_index as nat),
{
    let indent = item_indent_text(parent_index, item_index);
    let mut output = String::new();
    output.append(indent);
    output.append("Function name: ");
    output.append(func.name.as_str());
    output.append("\n");
    output.append(indent);
    output.append("Parameters: ");
    output.append(decimal_text(func.inputs.len()).as_str());
    output.append("\n");
    let ghost head = output@;
    let mut k: usize = 0;
    assert(output@ =~= head + parameters_text(indent@, func@.inputs, 0));
    while k < func.inputs.len()
        invariant
            k <= func.inputs.len(),
            output@ == head + parameters_text(indent@, func@.inputs, k as int),
        decreases func.inputs.len() - k,
    {
        let ghost before = output@;
        assert(func@.inputs[k as int] == func.inputs[k as int]@);
        match &func.inputs[k] {
            FnArgNode::Typed { name, ty } => {
                match name {
                    Some(n) => {
                        output.append(indent);
                        output.append("  Param ");
                        output.append(decimal_text(k + 1).as_str());
                        output.append(": ");
                        output.append(n.as_str());
                        output.append("\n");
                        output.append(indent);
                        output.append("    Type: ");
                        format_type(&mut output, ty);
                        output.append("\n");
                    },
                    None => {},
                }
            },
            FnArgNode::Receiver => {
                output.append(indent);
                output.append("  Param ");
                output.append(decimal_text(k + 1).as_str());
                output.append(": self\n");
            },
        }
        assert(output@ =~= before + parameter_text(indent@, k as nat, func@.inputs[k as int]));
        assert(output@ =~= head + parameters_text(indent@, func@.inputs, k + 1));
        k += 1;
    }
    let ghost body = output@;
    match &func.output {
        Some(return_type) => {
            output.append(indent);
            output.append("  Return type: ");
            format_type(&mut output, return_type);
            output.append("\n");
        },
        None => {},
    }
    assert(output@ =~= body + return_text(indent@, func@.output));
    assert(output@ =~= function_text(func@, parent_index as nat, item_index as nat));
    output
}

} // verus!
