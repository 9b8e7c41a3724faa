//! Normalization: from the base model to the normalized one.

pub mod account;
pub mod inference;
pub mod instruction;
pub mod laws;
pub mod program;
pub mod validation;

pub use program::normalize_program;
