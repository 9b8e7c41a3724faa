//! The classification of syntax nodes: which module is a program, which
//! function an instruction, which struct an account struct or a raw account.

use crate::parser::constraints::{
    argument_bounds, attribute_arguments, segment_texts, segments, split_segments,
};
use crate::syntax::{
    AttributeNode, AttributeNodeView, FnArgNode, FnArgNodeView, FunctionNode, FunctionNodeView,
    ModuleNode, ModuleNodeView, StructNode, StructNodeView, TypeBase, TypeBaseView, TypeNode,
    TypeNodeView,
};
use crate::text::{chars_of, same_text};
use vstd::prelude::*;
use vstd::string::*;

verus! {

/// Whether one of `attributes` is the identifier `ident`, whatever its
/// arguments.
pub open spec fn has_attribute(attributes: Seq<AttributeNodeView>, ident: Seq<char>) -> bool {
    exists|i: int| 0 <= i < attributes.len() && (#[trigger] attributes[i]).ident == Some(ident)
}

/// Whether a module is a program: it has the attribute `program`.
pub open spec fn is_program_module(m: ModuleNodeView) -> bool {
    has_attribute(m.attributes, "program"@)
}

/// Whether a type is a context: behind its reference markers it is a path
/// whose last segment is `Context`.
pub open spec fn is_context_type(t: TypeNodeView) -> bool {
    t.base matches TypeBaseView::Path(segments) && segments.len() > 0 && segments.last().ident
        == "Context"@
}

/// Whether a parameter is a typed parameter whose type is a context.
pub open spec fn is_context_argument(a: FnArgNodeView) -> bool {
    a matches FnArgNodeView::Typed { ty, .. } && is_context_type(ty)
}

/// Whether a function is an instruction: one of its parameters is a
/// context.
pub open spec fn is_instruction(f: FunctionNodeView) -> bool {
    exists|i: int| 0 <= i < f.inputs.len() && is_context_argument(#[trigger] f.inputs[i])
}

/// What a `derive` attribute lists: the segments of its arguments.
pub open spec fn derive_list(tokens: Seq<char>) -> Seq<Seq<char>> {
    match attribute_arguments(tokens) {
        Some(arguments) => segments(arguments),
        None => Seq::empty(),
    }
}

/// Whether an attribute is a `derive` that lists `Accounts`.
pub open spec fn derives_accounts(a: AttributeNodeView) -> bool {
    a.ident == Some("derive"@) && exists|i: int|
        0 <= i < derive_list(a.tokens).len() && #[trigger] derive_list(a.tokens)[i] == "Accounts"@
}

/// Whether a struct is an account struct: one of its attributes is a
/// `derive` that lists `Accounts`.
pub open spec fn is_account_struct_node(s: StructNodeView) -> bool {
    exists|i: int| 0 <= i < s.attributes.len() && derives_accounts(#[trigger] s.attributes[i])
}

/// Whether a struct is a raw account: it has the attribute `account`.
pub open spec fn is_raw_account_node(s: StructNodeView) -> bool {
    has_attribute(s.attributes, "account"@)
}

/// Whether the attribute is the identifier `ident`.
pub fn attribute_is(attribute: &AttributeNode, ident: &str) -> (r: bool)
    ensures
        r == (attribute@.ident == Some(ident@)),
{
    match &attribute.ident {
        Some(name) => same_text(name.as_str(), ident),
        None => false,
    }
}

/// Whether one of `attributes` is the identifier `ident`.
fn any_attribute_is(attributes: &Vec<AttributeNode>, ident: &str) -> (r: bool)
    ensures
        r == has_attribute(crate::syntax::attribute_views(attributes@), ident@),
{
    let ghost views = crate::syntax::attribute_views(attributes@);
    let mut i: usize = 0;
    while i < attributes.len()
        invariant
            i <= attributes.len(),
            views == crate::syntax::attribute_views(attributes@),
            forall|j: int| 0 <= j < i ==> (#[trigger] views[j]).ident != Some(ident@),
        decreases attributes.len() - i,
    {
        assert(views[i as int] == attributes[i as int]@);
        if attribute_is(&attributes[i], ident) {
            return true;
        }
        i += 1;
    }
    false
}

/// Whether `module` is a program module.
pub fn is_anchor_program(module: &ModuleNode) -> (r: bool)
    ensures
        r == is_program_module(module@),
{
    any_attribute_is(&module.attributes, "program")
}

/// Whether the last segment of a path is `Context`.
fn is_context_path(segments: &Vec<crate::syntax::PathSegmentNode>) -> (r: bool)
    ensures
        r == (segments@.len() > 0 && segments@.last().ident@ == "Context"@),
{
    let n = segments.len();
    n > 0 && same_text(segments[n - 1].ident.as_str(), "Context")
}

/// Whether `ty` is a context, behind any reference markers.
pub fn has_context_type(ty: &TypeNode) -> (r: bool)
    ensures
        r == is_context_type(ty@),
{
    match &ty.base {
        TypeBase::Path(segments) => {
            proof {
                if segments@.len() > 0 {
                    assert(crate::syntax::segment_views(segments@).last() == segments@.last()@);
                }
            }
            is_context_path(segments)
        },
        TypeBase::Other => false,
    }
}

/// Whether `func` is an instruction.
pub fn is_anchor_instruction(func: &FunctionNode) -> (r: bool)
    ensures
        r == is_instruction(func@),
{
    let mut i: usize = 0;
    while i < func.inputs.len()
        invariant
            i <= func.inputs.len(),
            forall|j: int| 0 <= j < i ==> !is_context_argument(#[trigger] func@.inputs[j]),
        decreases func.inputs.len() - i,
    {
        assert(func@.inputs[i as int] == func.inputs[i as int]@);
        let found = match &func.inputs[i] {
            FnArgNode::Typed { name: _, ty } => has_context_type(ty),
            FnArgNode::Receiver => false,
        };
        if found {
            return true;
        }
        i += 1;
    }
    false
}

/// Whether `attribute` is a `derive` that lists `Accounts`.
fn attribute_derives_accounts(attribute: &AttributeNode) -> (r: bool)
    ensures
        r == derives_accounts(attribute@),
{
    if !attribute_is(attribute, "derive") {
        return false;
    }
    let chars = chars_of(attribute.tokens.as_str());
    let wanted = chars_of("Accounts");
    match argument_bounds(&chars) {
        Some((a, b)) => {
            let found = split_segments(&chars, a, b);
            let ghost list = derive_list(attribute@.tokens);
            assert(list == segment_texts(found@));
            let mut i: usize = 0;
            while i < found.len()
                invariant
                    i <= found.len(),
                    list == segment_texts(found@),
                    list == derive_list(attribute@.tokens),
                    attribute@.ident == Some("derive"@),
                    wanted@ == "Accounts"@,
                    forall|j: int| 0 <= j < i ==> #[trigger] list[j] != "Accounts"@,
                decreases found.len() - i,
            {
                assert(list[i as int] == found[i as int]@);
                if same_chars(&found[i], &wanted) {
                    return true;
                }
                i += 1;
            }
            false
        },
        None => false,
    }
}

/// Whether `a` and `b` hold the same characters.
fn same_chars(a: &Vec<char>, b: &Vec<char>) -> (r: bool)
    ensures
        r == (a@ == b@),
{
    if a.len() != b.len() {
        return false;
    }
    let mut i: usize = 0;
    while i < a.len()
        invariant
            i <= a.len(),
            a.len() == b.len(),
            forall|j: int| 0 <= j < i ==> a@[j] == b@[j],
        decreases a.len() - i,
    {
        if a[i] != b[i] {
            return false;
        }
        i += 1;
    }
    assert(a@ =~= b@);
    true
}

/// Whether `structure` is an account struct.
pub fn is_account_struct(structure: &StructNode) -> (r: bool)
    ensures
        r == is_account_struct_node(structure@),
{
    let mut i: usize = 0;
    while i < structure.attributes.len()
        invariant
            i <= structure.attributes.len(),
            forall|j: int| 0 <= j < i ==> !derives_accounts(#[trigger] structure@.attributes[j]),
        decreases structure.attributes.len() - i,
    {
        assert(structure@.attributes[i as int] == structure.attributes[i as int]@);
        if attribute_derives_accounts(&structure.attributes[i]) {
            return true;
        }
        i += 1;
    }
    false
}

/// Whether `structure` is a raw account.
pub fn is_raw_account(structure: &StructNode) -> (r: bool)
    ensures
        r == is_raw_account_node(structure@),
{
    any_attribute_is(&structure.attributes, "account")
}

} // verus!
