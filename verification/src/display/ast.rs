//! The listing of a file.

use crate::display::function::{format_function, function_text};
use crate::display::module::{format_module, module_text};
use crate::display::structure::{format_struct, struct_text};
use crate::display::utils::{item_type_name, kind_name};
use crate::error::{ParseError, ParseErrorView};
use crate::syntax::{ItemNode, ItemNodeView, SyntaxFile, SyntaxFileView};
use crate::text::{concat, decimal, decimal_text};
use vstd::prelude::*;
use vstd::string::*;

verus! {

/// The lines of the item of number `i`, counted from zero: its number and
/// kind, its listing where it is a module, a function or a struct, and an
/// empty line.
pub open spec fn item_text(i: nat, item: ItemNodeView) -> Seq<char> {
    "Item "@ + decimal(i + 1) + ": "@ + kind_name(item.kind()) + "\n"@ + match item {
        ItemNodeView::Module(m) => module_text(m, i + 1),
        ItemNodeView::Function(f) => function_text(f, i + 1, 1),
        ItemNodeView::Struct(s) => struct_text(s, i + 1, 1),
        ItemNodeView::Other(_) => Seq::empty(),
    } + "\n"@
}

/// The lines of the first `n` items.
pub open spec fn items_text(items: Seq<ItemNodeView>, n: int) -> Seq<char>
    decreases n,
{
    if n <= 0 {
        Seq::empty()
    } else {
        items_text(items, n - 1) + item_text((n - 1) as nat, items[n - 1])
    }
}

/// The listing of a file: a heading, and the items.
pub open spec fn ast_text(file: SyntaxFileView) -> Seq<char> {
    "Abstract Syntax Tree (AST):\n"@ + items_text(file.items, file.items.len() as int)
}

/// The listing of a file.
pub fn format_ast(file: &SyntaxFile) -> (r: String)
    ensures
        r@ == ast_text(file@),
{
    let mut output = "Abstract Syntax Tree (AST):\n".to_owned();
    let ghost head = output@;
    let mut i: usize = 0;
    assert(output@ =~= head + items_text(file@.items, 0));
    while i < file.items.len()
        invariant
            i <= file.items.len(),
            output@ == head + items_text(file@.items, i as int),
        decreases file.items.len() - i,
    {
        let item = &file.items[i];
        let ghost before = output@;
        assert(file@.items[i as int] == item@);
        output.append("Item ");
        output.append(decimal_text(i + 1).as_str());
        output.append(": ");
        output.append(item_type_name(item));
        output.append("\n");
        match item {
            ItemNode::Module(module) => {
                output.append(format_module(module, i + 1).as_str());
            },
            ItemNode::Function(func) => {
                output.append(format_function(func, i + 1, 1).as_str());
            },
            ItemNode::Struct(structure) => {
                output.append(format_struct(structure, i + 1, 1).as_str());
            },
            ItemNode::Other(_) => {},
        }
        output.append("\n");
        assert(output@ =~= before + item_text(i as nat, file@.items[i as int]));
        assert(output@ =~= head + items_text(file@.items, i + 1));
        i += 1;
    }
    output
}

/// What stands in front of the message of an error that `run` reports.
pub open spec fn run_error_text(e: ParseErrorView) -> Seq<char> {
    "Error parsing file: "@ + e.message()
}

/// What the listing tool yields for a file that was read, or for the error
/// that reading it gave: the listing to print, or the error in words.
pub fn run(parsed: Result<SyntaxFile, ParseError>) -> (r: Result<String, String>)
    ensures
        match parsed {
            Ok(file) => r matches Ok(listing) && listing@ == ast_text(file@),
            Err(e) => r matches Err(message) && message@ == run_error_text(e@),
        },
{
    match parsed {
        Ok(file) => Ok(format_ast(&file)),
        Err(err) => Err(concat("Error parsing file: ", err.message().as_str())),
    }
}

} // verus!
