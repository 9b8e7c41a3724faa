//! The normalized form of instructions.

use crate::error::NormalizationError;
use crate::model::instruction::{Instruction, InstructionView, Parameter, ParameterView};
use crate::normalized::instruction::{
    InstructionBody, InstructionBodyView, NormalizedInstruction, NormalizedInstructionView,
    NormalizedParameter, NormalizedParameterView,
};
use crate::text::{
    chars_of, ends_with, starts_with, text_ends_with, text_of, text_starts_with, trim_bounds,
    trimmed,
};
use vstd::prelude::*;
use vstd::string::*;

verus! {

/// The normalized form of a parameter.
pub open spec fn normalized_parameter(p: ParameterView) -> NormalizedParameterView {
    NormalizedParameterView { name: p.name, ty: p.ty, is_context: p.is_context }
}

/// The normalized form of an instruction: a copy whose account struct is the
/// one that the instruction's context names, and whose body is unknown.
pub open spec fn normalized_instruction(i: InstructionView) -> NormalizedInstructionView {
    NormalizedInstructionView {
        name: i.name,
        visibility: i.visibility,
        parameters: i.parameters.map_values(|p: ParameterView| normalized_parameter(p)),
        return_type: i.return_type,
        account_struct_name: i.context_type,
        body: Some(InstructionBodyView::Unknown),
        documentation: None,
    }
}

/// Copies an instruction into its normalized form.
pub fn normalize_instruction(instruction: &Instruction) -> (r: Result<
    NormalizedInstruction,
    NormalizationError,
>)
    ensures
        r.is_ok(),
        r.unwrap()@ == normalized_instruction(instruction@),
{
    let mut normalized = NormalizedInstruction::new(
        instruction.name.clone(),
        instruction.visibility.clone(),
    );
    match &instruction.return_type {
        Some(return_type) => {
            normalized = normalized.with_return_type(return_type);
        },
        None => {},
    }
    match &instruction.context_type {
        Some(context_type) => {
            normalized = normalized.with_account_struct(context_type);
        },
        None => {},
    }
    let mut i: usize = 0;
    assert(normalized@.parameters =~= instruction@.parameters.take(0).map_values(
        |p: ParameterView| normalized_parameter(p),
    ));
    while i < instruction.parameters.len()
        invariant
            i <= instruction.parameters.len(),
            normalized@ == (NormalizedInstructionView {
                parameters: instruction@.parameters.take(i as int).map_values(
                    |p: ParameterView| normalized_parameter(p),
                ),
                ..normalized_instruction(instruction@)
            }),
        decreases instruction.parameters.len() - i,
    {
        let parameter = normalize_parameter(&instruction.parameters[i])?;
        proof {
            assert(instruction@.parameters[i as int] == instruction.parameters[i as int]@);
            instruction@.parameters.lemma_map_take_succ(
                |p: ParameterView| normalized_parameter(p),
                i as int,
            );
        }
        normalized.add_parameter(parameter);
        i += 1;
    }
    assert(instruction@.parameters.take(i as int) =~= instruction@.parameters);
    normalized = normalized.with_body(InstructionBody::Unknown);
    Ok(normalized)
}

/// Copies a parameter into its normalized form.
pub fn normalize_parameter(param: &Parameter) -> (r: Result<
    NormalizedParameter,
    NormalizationError,
>)
    ensures
        r.is_ok(),
        r.unwrap()@ == normalized_parameter(param@),
{
    Ok(NormalizedParameter::new(param.name.clone(), param.ty.clone(), param.is_context))
}

/// What stands between `Context<` and `>` in a type text of that form, with
/// the white space at its two ends removed; nothing for a text of another
/// form.
pub open spec fn context_type_of(ty: Seq<char>) -> Option<Seq<char>> {
    if starts_with(ty, "Context<"@) && ends_with(ty, ">"@) {
        Some(trimmed(ty.subrange("Context<"@.len() as int, ty.len() - 1)))
    } else {
        None
    }
}

/// The name of the account struct in a type text of the form `Context<Name>`.
pub fn extract_context_type(ty: &str) -> (r: Option<String>)
    ensures
        crate::text::opt_text(r) == context_type_of(ty@),
{
    let chars = chars_of(ty);
    if text_starts_with(&chars, "Context<") && text_ends_with(&chars, ">") {
        proof {
            reveal_strlit("Context<");
            reveal_strlit(">");
            assert(chars@.subrange(0, 8)[7] == '<');
            assert(chars@.subrange(chars@.len() - 1, chars@.len() as int)[0] == '>');
        }
        let (a, b) = trim_bounds(&chars, 8, chars.len() - 1);
        Some(text_of(&chars, a, b))
    } else {
        None
    }
}

} // verus!
