//! Front end of a translator for Solana Anchor programs: the base model of a
//! program, its construction from a structural view of the syntax tree, and
//! its normalization (linking, inference, validation).
//!
//! - [`syntax`]: the structural view of a syntax tree that the caller fills.
//! - [`parser`]: the classification of the nodes and the model builder.
//! - [`model`]: the base model that the builder yields.
//! - [`normalization`]: from the base model to the normalized one, and what
//!   holds of it as a whole.
//! - [`normalized`]: the normalized model.
//! - [`display`]: a listing of a syntax tree.
//! - [`text`], [`seqs`], [`paths`]: text as sequences of characters.
//!
//! Every type has a view (`@`) made of sequences of characters, and every
//! function says over these views what it returns.

pub mod display;
pub mod error;
pub mod model;
pub mod normalization;
pub mod normalized;
pub mod parser;
pub mod paths;
pub mod seqs;
pub mod syntax;
pub mod text;

pub use error::{NormalizationError, ParseError};
pub use model::{
    Account, AccountField, Constraint, Instruction, Parameter, Program, ProgramModule, RawAccount,
    RawAccountField,
};
pub use normalized::{
    BasicOperation, InferredFieldInfo, InstructionBody, IssueSeverity, NormalizedAccountField,
    NormalizedAccountStruct, NormalizedConstraint, NormalizedInstruction, NormalizedModule,
    NormalizedParameter, NormalizedProgram, NormalizedRawAccount, NormalizedRawField, SourceInfo,
    ValidationIssue,
};

use error::NormalizationErrorView;
use normalization::program::{normalize_program, normalized_program, program_name};
use normalized::program::NormalizedProgramView;
use vstd::prelude::*;

verus! {

/// Normalizes a program: links its instructions to their account structs,
/// infers what its names and constraints imply, and validates the result.
/// It fails for a program without a name, and for no other.
pub fn normalize(program: &Program) -> (r: Result<NormalizedProgram, NormalizationError>)
    ensures
        r.is_ok() <==> program_name(program@).is_some(),
        match r {
            Ok(n) => normalized_program(program@) == Ok::<
                NormalizedProgramView,
                NormalizationErrorView,
            >(n@),
            Err(e) => normalized_program(program@) == Err::<
                NormalizedProgramView,
                NormalizationErrorView,
            >(e@),
        },
{
    normalize_program(program)
}

} // verus!
