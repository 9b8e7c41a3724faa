//! The normalized model of an Anchor program: the base model, enriched with
//! what linking and inference add, and with the issues that validation found.

pub mod account;
pub mod instruction;
pub mod program;
pub mod validation;

pub use account::{
    InferredFieldInfo, NormalizedAccountField, NormalizedAccountStruct, NormalizedConstraint,
    NormalizedRawAccount, NormalizedRawField,
};
pub use instruction::{BasicOperation, InstructionBody, NormalizedInstruction, NormalizedParameter};
pub use program::{NormalizedModule, NormalizedProgram, SourceInfo};
pub use validation::{IssueSeverity, ValidationIssue};
