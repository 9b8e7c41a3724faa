//! A listing of a syntax tree, for people to read.

pub mod ast;
pub mod function;
pub mod module;
pub mod predicates;
pub mod strings;
pub mod structure;
pub mod utils;

pub use ast::{format_ast, run};
pub use utils::{indent, item_type_name};
