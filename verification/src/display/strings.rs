//! The labelled lines of the listing.

use crate::text::{concat, decimal, decimal_text};
use vstd::prelude::*;
use vstd::string::*;

verus! {

/// The line that names a module.
pub open spec fn module_name_text(name: Seq<char>) -> Seq<char> {
    "Module name: "@ + name
}

/// The line that names a function.
pub open spec fn function_name_text(name: Seq<char>) -> Seq<char> {
    "Function name: "@ + name
}

/// The line that names a struct.
pub open spec fn struct_name_text(name: Seq<char>) -> Seq<char> {
    "Struct name: "@ + name
}

/// The line that counts the items of a module.
pub open spec fn items_count_text(count: nat) -> Seq<char> {
    "Content items:"@ + decimal(count)
}

/// The line that refers to an item of a module: the number of the module, the
/// number of the item in it, and the kind of the item.
pub open spec fn item_reference_text(parent_index: nat, item_index: nat, item_type: Seq<char>) -> Seq<
    char,
> {
    "Item"@ + decimal(parent_index) + "."@ + decimal(item_index) + ": "@ + item_type
}

/// The label of a module inside a module.
pub open spec fn nested_module_name_text(name: Seq<char>) -> Seq<char> {
    "Nested module:"@ + name
}

/// The line that counts the attributes of a module.
pub open spec fn attributes_count_text(count: nat) -> Seq<char> {
    "Attributes:"@ + decimal(count)
}

/// `Module name: ` and the name.
pub fn format_module_name(name: &str) -> (r: String)
    ensures
        r@ == module_name_text(name@),
{
    concat("Module name: ", name)
}

/// `Function name: ` and the name.
pub fn format_function_name(name: &str) -> (r: String)
    ensures
        r@ == function_name_text(name@),
{
    concat("Function name: ", name)
}

/// `Struct name: ` and the name.
pub fn format_struct_name(name: &str) -> (r: String)
    ensures
        r@ == struct_name_text(name@),
{
    concat("Struct name: ", name)
}

/// `Content items:` and the count.
pub fn format_items_count(count: usize) -> (r: String)
    ensures
        r@ == items_count_text(count as nat),
{
    concat("Content items:", decimal_text(count).as_str())
}

/// `Item`, the two indices with a dot between them, and the kind of the
/// item.
pub fn format_item_reference(parent_index: usize, item_index: usize, item_type: &str) -> (r:
    String)
    ensures
        r@ == item_reference_text(parent_index as nat, item_index as nat, item_type@),
{
    let mut r = "Item".to_owned();
    r.append(decimal_text(parent_index).as_str());
    r.append(".");
    r.append(decimal_text(item_index).as_str());
    r.append(": ");
    r.append(item_type);
    r
}

/// `Nested module:` and the name.
pub fn format_nested_module_name(name: &str) -> (r: String)
    ensures
        r@ == nested_module_name_text(name@),
{
    concat("Nested module:", name)
}

/// `Attributes:` and the count.
pub fn format_attributes_count(count: usize) -> (r: String)
    ensures
        r@ == attributes_count_text(count as nat),
{
    concat("Attributes:", decimal_text(count).as_str())
}

} // verus!
