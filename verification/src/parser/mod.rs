//! From the structural view of a syntax tree to the base model: the
//! classification of the nodes, the text of types and attributes, and the
//! model builder.

pub mod constraints;
pub mod convert;
pub mod predicates;
pub mod types;

pub use convert::convert_file;
pub use predicates::{is_anchor_instruction, is_anchor_program};
