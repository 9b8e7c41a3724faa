//! What the listing takes for a program and for an instruction.

use crate::parser::predicates::is_program_module;
use crate::syntax::{
    FnArgNode, FnArgNodeView, FunctionNode, FunctionNodeView, ModuleNode, PathSegmentNodeView,
    TypeBase, TypeBaseView, TypeNode, TypeNodeView,
};
use crate::text::same_text;
use vstd::prelude::*;
use vstd::string::*;

verus! {

/// Whether a type mentions a context: it is a path, without reference
/// markers, and one of its segments is `Context`.
pub open spec fn mentions_context(t: TypeNodeView) -> bool {
    t.references.len() == 0 && match t.base {
        TypeBaseView::Path(segments) => has_context_segment(segments),
        TypeBaseView::Other => false,
    }
}

/// Whether one of the segments of a path is `Context`.
pub open spec fn has_context_segment(segments: Seq<PathSegmentNodeView>) -> bool {
    exists|i: int| 0 <= i < segments.len() && (#[trigger] segments[i]).ident == "Context"@
}

/// Whether a parameter is a typed parameter whose type mentions a context.
pub open spec fn argument_mentions_context(a: FnArgNodeView) -> bool {
    a matches FnArgNodeView::Typed { ty, .. } && mentions_context(ty)
}

/// Whether a function takes a parameter whose type mentions a context.
pub open spec fn takes_context(f: FunctionNodeView) -> bool {
    exists|i: int| 0 <= i < f.inputs.len() && argument_mentions_context(#[trigger] f.inputs[i])
}

/// Whether `module` has the attribute `program`.
pub fn is_anchor_program(module: &ModuleNode) -> (r: bool)
    ensures
        r == is_program_module(module@),
{
    crate::parser::predicates::is_anchor_program(module)
}

/// Whether the type mentions a context.
fn type_mentions_context(ty: &TypeNode) -> (r: bool)
    ensures
        r == mentions_context(ty@),
{
    if ty.references.len() != 0 {
        return false;
    }
    match &ty.base {
        TypeBase::Path(segments) => {
            let ghost views = crate::syntax::segment_views(segments@);
            let mut i: usize = 0;
            while i < segments.len()
                invariant
                    i <= segments.len(),
                    views == crate::syntax::segment_views(segments@),
                    ty@.references.len() == 0,
                    ty@.base == TypeBaseView::Path(views),
                    forall|j: int| 0 <= j < i ==> (#[trigger] views[j]).ident != "Context"@,
                decreases segments.len() - i,
            {
                assert(views[i as int] == segments[i as int]@);
                if same_text(segments[i].ident.as_str(), "Context") {
                    assert(views[i as int].ident == "Context"@);
                    return true;
                }
                i += 1;
            }
            false
        },
        TypeBase::Other => false,
    }
}

/// Whether `func` takes a parameter whose type mentions a context.
pub fn is_anchor_instruction(func: &FunctionNode) -> (r: bool)
    ensures
        r == takes_context(func@),
{
    let mut i: usize = 0;
    while i < func.inputs.len()
        invariant
            i <= func.inputs.len(),
            forall|j: int| 0 <= j < i ==> !argument_mentions_context(#[trigger] func@.inputs[j]),
        decreases func.inputs.len() - i,
    {
        assert(func@.inputs[i as int] == func.inputs[i as int]@);
        let found = match &func.inputs[i] {
            FnArgNode::Typed { name: _, ty } => type_mentions_context(ty),
            FnArgNode::Receiver => false,
        };
        if found {
            return true;
        }
        i += 1;
    }
    false
}

} // verus!
