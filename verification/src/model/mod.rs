//! The base model of an Anchor program: program modules with their
//! instructions, account-validation structs and raw accounts.

pub mod account;
pub mod instruction;
pub mod program;

pub use account::{Account, AccountField, Constraint, RawAccount, RawAccountField};
pub use instruction::{Instruction, Parameter};
pub use program::{Program, ProgramModule};
