//! The names of the kinds of items, and indentation.

use crate::syntax::{ItemKind, ItemNode, ModuleItemNode};
use vstd::prelude::*;
use vstd::string::*;

verus! {

/// How many spaces stand in front of a line at the nesting level `level`:
/// two for each level, and ten from the fifth level on.
pub open spec fn indent_width(level: nat) -> nat {
    if level >= 5 {
        10
    } else {
        2 * level
    }
}

/// `n` spaces.
pub open spec fn spaces(n: nat) -> Seq<char> {
    Seq::new(n, |i: int| ' ')
}

/// The indentation of the nesting level `level`.
pub fn indent(level: usize) -> (r: &'static str)
    ensures
        r@ == spaces(indent_width(level as nat)),
{
    let r = if level == 0 {
        ""
    } else if level == 1 {
        "  "
    } else if level == 2 {
        "    "
    } else if level == 3 {
        "      "
    } else if level == 4 {
        "        "
    } else {
        "          "
    };
    proof {
        reveal_strlit("");
        reveal_strlit("  ");
        reveal_strlit("    ");
        reveal_strlit("      ");
        reveal_strlit("        ");
        reveal_strlit("          ");
        assert(r@ =~= spaces(indent_width(level as nat)));
    }
    r
}

/// The name of a kind of item, as the listing shows it.
pub open spec fn kind_name(kind: ItemKind) -> Seq<char> {
    match kind {
        ItemKind::Const => "Constant"@,
        ItemKind::Enum => "Enum"@,
        ItemKind::ExternCrate => "Extern Crate"@,
        ItemKind::Fn => "Function"@,
        ItemKind::ForeignMod => "Foreign Module"@,
        ItemKind::Impl => "Implementation"@,
        ItemKind::Macro => "Macro"@,
        ItemKind::Mod => "Module"@,
        ItemKind::Static => "Static"@,
        ItemKind::Struct => "Struct"@,
        ItemKind::Trait => "Trait"@,
        ItemKind::TraitAlias => "Trait Alias"@,
        ItemKind::Type => "Type"@,
        ItemKind::Union => "Union"@,
        ItemKind::Use => "Use"@,
        ItemKind::Verbatim => "Verbatim"@,
        ItemKind::Unknown => "Unknown"@,
    }
}

/// The name of a kind of item.
pub fn kind_type_name(kind: ItemKind) -> (r: &'static str)
    ensures
        r@ == kind_name(kind),
{
    match kind {
        ItemKind::Const => "Constant",
        ItemKind::Enum => "Enum",
        ItemKind::ExternCrate => "Extern Crate",
        ItemKind::Fn => "Function",
        ItemKind::ForeignMod => "Foreign Module",
        ItemKind::Impl => "Implementation",
        ItemKind::Macro => "Macro",
        ItemKind::Mod => "Module",
        ItemKind::Static => "Static",
        ItemKind::Struct => "Struct",
        ItemKind::Trait => "Trait",
        ItemKind::TraitAlias => "Trait Alias",
        ItemKind::Type => "Type",
        ItemKind::Union => "Union",
        ItemKind::Use => "Use",
        ItemKind::Verbatim => "Verbatim",
        ItemKind::Unknown => "Unknown",
    }
}

/// The name of the kind of `item`.
pub fn item_type_name(item: &ItemNode) -> (r: &'static str)
    ensures
        r@ == kind_name(item@.kind()),
{
    match item {
        ItemNode::Module(_) => "Module",
        ItemNode::Function(_) => "Function",
        ItemNode::Struct(_) => "Struct",
        ItemNode::Other(kind) => kind_type_name(*kind),
    }
}

/// The name of the kind of an item of a module.
pub fn module_item_type_name(item: &ModuleItemNode) -> (r: &'static str)
    ensures
        r@ == kind_name(item@.kind()),
{
    match item {
        ModuleItemNode::Module(_) => "Module",
        ModuleItemNode::Function(_) => "Function",
        ModuleItemNode::Struct(_) => "Struct",
        ModuleItemNode::Other(kind) => kind_type_name(*kind),
    }
}

} // verus!
