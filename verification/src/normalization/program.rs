//! The normalization of a program: its name and identifier, the copy into
//! the normalized model, the linking of the instructions to their account
//! structs, inference and validation.

use crate::error::{NormalizationError, NormalizationErrorView};
use crate::model::account::{AccountView, RawAccountView};
use crate::model::instruction::InstructionView;
use crate::model::program::{Program, ProgramModule, ProgramModuleView, ProgramView};
use crate::normalization::account::{
    normalize_account_struct, normalize_raw_account, normalized_raw_account, normalized_struct,
};
use crate::normalization::inference::{infer_missing_semantics, with_inferred_semantics};
use crate::normalization::instruction::{normalize_instruction, normalized_instruction};
use crate::normalization::validation::{validate_program, validated};
use crate::normalized::instruction::{NormalizedInstruction, NormalizedInstructionView};
use crate::normalized::program::{
    schema_version, NormalizedModule, NormalizedModuleView, NormalizedProgram,
    NormalizedProgramView, SourceInfo, SourceInfoView,
};
use crate::paths::{extract_file_stem, file_stem};
use crate::seqs::{first_index, last_index, lemma_first_index};
use crate::text::{
    chars_of, concat, find_char, opt_text, rfind_char, signed_decimal, signed_decimal_text,
    text_of, trim_bounds, trimmed,
};
use vstd::prelude::*;
use vstd::string::*;

verus! {

/// The message of the one error of normalization.
pub open spec fn missing_name_message() -> Seq<char> {
    "Could not determine program name"@
}

/// The name of a program: that of its first module; where it has no module,
/// the stem of its source file; else none.
pub open spec fn program_name(p: ProgramView) -> Option<Seq<char>> {
    if p.program_modules.len() > 0 {
        Some(p.program_modules[0].name)
    } else {
        match p.source_path {
            Some(path) => file_stem(path),
            None => None,
        }
    }
}

/// The identifier of a program whose source path or first module is known:
/// `program:` and the source path or, where there is none, the name of the
/// first module.
pub open spec fn program_id(p: ProgramView) -> Seq<char>
    recommends
        p.source_path.is_some() || p.program_modules.len() > 0,
{
    "program:"@ + match p.source_path {
        Some(path) => path,
        None => p.program_modules[0].name,
    }
}

/// The identifier that a program without source path and modules gets at the
/// time `timestamp`, in seconds since the Unix epoch.
pub open spec fn clock_program_id(timestamp: int) -> Seq<char> {
    "program:"@ + signed_decimal(timestamp)
}

/// The normalized form of a program module.
pub open spec fn normalized_module(m: ProgramModuleView) -> NormalizedModuleView {
    NormalizedModuleView {
        name: m.name,
        visibility: m.visibility,
        instructions: m.instructions.map_values(|i: InstructionView| normalized_instruction(i)),
        documentation: None,
    }
}

/// The copy of a program into the normalized model, under the name `name`:
/// modules, instructions, account structs, raw accounts and their fields,
/// one for one and in the order of the source.
pub open spec fn copied_program(p: ProgramView, name: Seq<char>) -> NormalizedProgramView {
    NormalizedProgramView {
        id: program_id(p),
        name,
        modules: p.program_modules.map_values(|m: ProgramModuleView| normalized_module(m)),
        account_structs: p.account_structs.map_values(|a: AccountView| normalized_struct(a)),
        raw_accounts: p.raw_accounts.map_values(|a: RawAccountView| normalized_raw_account(a)),
        documentation: None,
        validation_issues: Seq::empty(),
        source_info: match p.source_path {
            Some(path) => Some(SourceInfoView { file_path: path, line_range: None }),
            None => None,
        },
        schema_version: schema_version(),
    }
}

/// What stands between the first `<` and the last `>` of a type text, with
/// the white space at its two ends removed; nothing where the type has no
/// `<`, no `>`, or nothing in between.
pub open spec fn generic_argument(ty: Seq<char>) -> Option<Seq<char>> {
    match (first_index(ty, '<'), last_index(ty, '>')) {
        (Some(a), Some(b)) => if a + 1 < b {
            Some(trimmed(ty.subrange(a + 1, b)))
        } else {
            None
        },
        _ => None,
    }
}

/// An instruction after linking. One that has an account struct keeps it.
/// Another gets the name that the type of its first context parameter
/// holds, where it has such a parameter and the type holds a name.
pub open spec fn linked_instruction(i: NormalizedInstructionView) -> NormalizedInstructionView {
    if i.account_struct_name.is_some() {
        i
    } else {
        match i.context_parameter_index() {
            Some(k) => match generic_argument(i.parameters[k].ty) {
                Some(name) => NormalizedInstructionView { account_struct_name: Some(name), ..i },
                None => i,
            },
            None => i,
        }
    }
}

/// A module after the linking of its instructions.
pub open spec fn linked_module(m: NormalizedModuleView) -> NormalizedModuleView {
    NormalizedModuleView {
        instructions: m.instructions.map_values(
            |i: NormalizedInstructionView| linked_instruction(i),
        ),
        ..m
    }
}

/// A program after the linking of its instructions to their account structs.
pub open spec fn linked(p: NormalizedProgramView) -> NormalizedProgramView {
    NormalizedProgramView {
        modules: p.modules.map_values(|m: NormalizedModuleView| linked_module(m)),
        ..p
    }
}

/// What normalization makes of a program: the copy under the program's
/// name, linked, with what inference adds and what validation finds; and the
/// error `MissingInfo` for a program that has no name.
pub open spec fn normalized_program(p: ProgramView) -> Result<
    NormalizedProgramView,
    NormalizationErrorView,
> {
    match program_name(p) {
        Some(name) => Ok(validated(with_inferred_semantics(linked(copied_program(p, name))))),
        None => Err(NormalizationErrorView::MissingInfo(missing_name_message())),
    }
}

/// `chrono::DateTime::<chrono::Utc>::from(std::time::SystemTime::now())` and
/// its `timestamp()`: the time of the call, in seconds since the Unix epoch;
/// a negative number for a clock that stands before the epoch. Nothing is
/// claimed of the number. The conversion holds the dates that chrono can
/// hold, some 262,000 years to either side of the epoch, and a clock set
/// beyond them is not provided for.
#[verifier::external_body]
fn unix_timestamp() -> i64 {
    chrono::DateTime::<chrono::Utc>::from(std::time::SystemTime::now()).timestamp()
}

/// Normalizes `program`. The one error is `MissingInfo`, for a program
/// without a name; every other irregularity becomes an issue of the result.
pub fn normalize_program(program: &Program) -> (r: Result<NormalizedProgram, NormalizationError>)
    ensures
        r.is_ok() <==> program_name(program@).is_some(),
        match r {
            Ok(n) => normalized_program(program@) == Ok::<
                NormalizedProgramView,
                NormalizationErrorView,
            >(n@),
            Err(e) => normalized_program(program@) == Err::<
                NormalizedProgramView,
                NormalizationErrorView,
            >(e@),
        },
{
    let name = extract_program_name(program)?;
    let id = generate_program_id(program);
    let mut normalized = NormalizedProgram::new(id, name);
    match &program.source_path {
        Some(source_path) => {
            normalized.source_info = Some(SourceInfo::new(source_path));
        },
        None => {},
    }
    let ghost target = copied_program(program@, name@);
    let mut i: usize = 0;
    assert(normalized@.modules =~= program@.program_modules.take(0).map_values(
        |m: ProgramModuleView| normalized_module(m),
    ));
    while i < program.program_modules.len()
        invariant
            i <= program.program_modules.len(),
            target == copied_program(program@, name@),
            normalized@ == (NormalizedProgramView {
                modules: program@.program_modules.take(i as int).map_values(
                    |m: ProgramModuleView| normalized_module(m),
                ),
                account_structs: Seq::empty(),
                raw_accounts: Seq::empty(),
                ..target
            }),
        decreases program.program_modules.len() - i,
    {
        let module = normalize_module(&program.program_modules[i])?;
        proof {
            assert(program@.program_modules[i as int] == program.program_modules[i as int]@);
            program@.program_modules.lemma_map_take_succ(
                |m: ProgramModuleView| normalized_module(m),
                i as int,
            );
        }
        normalized.add_module(module);
        i += 1;
    }
    assert(program@.program_modules.take(i as int) =~= program@.program_modules);
    let mut i: usize = 0;
    assert(normalized@.account_structs =~= program@.account_structs.take(0).map_values(
        |a: AccountView| normalized_struct(a),
    ));
    while i < program.account_structs.len()
        invariant
            i <= program.account_structs.len(),
            target == copied_program(program@, name@),
            normalized@ == (NormalizedProgramView {
                account_structs: program@.account_structs.take(i as int).map_values(
                    |a: AccountView| normalized_struct(a),
                ),
                raw_accounts: Seq::empty(),
                ..target
            }),
        decreases program.account_structs.len() - i,
    {
        let account = normalize_account_struct(&program.account_structs[i])?;
        proof {
            assert(program@.account_structs[i as int] == program.account_structs[i as int]@);
            program@.account_structs.lemma_map_take_succ(
                |a: AccountView| normalized_struct(a),
                i as int,
            );
        }
        normalized.add_account_struct(account);
        i += 1;
    }
    assert(program@.account_structs.take(i as int) =~= program@.account_structs);
    let mut i: usize = 0;
    assert(normalized@.raw_accounts =~= program@.raw_accounts.take(0).map_values(
        |a: RawAccountView| normalized_raw_account(a),
    ));
    while i < program.raw_accounts.len()
        invariant
            i <= program.raw_accounts.len(),
            target == copied_program(program@, name@),
            normalized@ == (NormalizedProgramView {
                raw_accounts: program@.raw_accounts.take(i as int).map_values(
                    |a: RawAccountView| normalized_raw_account(a),
                ),
                ..target
            }),
        decreases program.raw_accounts.len() - i,
    {
        let account = normalize_raw_account(&program.raw_accounts[i])?;
        proof {
            assert(program@.raw_accounts[i as int] == program.raw_accounts[i as int]@);
            program@.raw_accounts.lemma_map_take_succ(
                |a: RawAccountView| normalized_raw_account(a),
                i as int,
            );
        }
        normalized.add_raw_account(account);
        i += 1;
    }
    assert(program@.raw_accounts.take(i as int) =~= program@.raw_accounts);
    assert(normalized@ == target);
    link_instructions_to_accounts(&mut normalized)?;
    infer_missing_semantics(&mut normalized)?;
    validate_program(&mut normalized)?;
    Ok(normalized)
}

/// Copies a program module into its normalized form.
pub fn normalize_module(module: &ProgramModule) -> (r: Result<NormalizedModule, NormalizationError>)
    ensures
        r.is_ok(),
        r.unwrap()@ == normalized_module(module@),
{
    let mut normalized = NormalizedModule::new(module.name.clone(), module.visibility.clone());
    let mut i: usize = 0;
    assert(normalized@.instructions =~= module@.instructions.take(0).map_values(
        |i: InstructionView| normalized_instruction(i),
    ));
    while i < module.instructions.len()
        invariant
            i <= module.instructions.len(),
            normalized@ == (NormalizedModuleView {
                instructions: module@.instructions.take(i as int).map_values(
                    |i: InstructionView| normalized_instruction(i),
                ),
                ..normalized_module(module@)
            }),
        decreases module.instructions.len() - i,
    {
        let instruction = normalize_instruction(&module.instructions[i])?;
        proof {
            assert(module@.instructions[i as int] == module.instructions[i as int]@);
            module@.instructions.lemma_map_take_succ(
                |i: InstructionView| normalized_instruction(i),
                i as int,
            );
        }
        normalized.add_instruction(instruction);
        i += 1;
    }
    assert(module@.instructions.take(i as int) =~= module@.instructions);
    Ok(normalized)
}

/// The name of `program`, or the error `MissingInfo` where it has none.
pub fn extract_program_name(program: &Program) -> (r: Result<String, NormalizationError>)
    ensures
        match r {
            Ok(name) => program_name(program@) == Some(name@),
            Err(e) => program_name(program@).is_none() && e@
                == NormalizationErrorView::MissingInfo(missing_name_message()),
        },
{
    if program.program_modules.len() > 0 {
        assert(program@.program_modules[0] == program.program_modules[0]@);
        return Ok(program.program_modules[0].name.clone());
    }
    match &program.source_path {
        Some(source_path) => match extract_file_stem(source_path.as_str()) {
            Some(stem) => {
                return Ok(stem);
            },
            None => {},
        },
        None => {},
    }
    Err(NormalizationError::MissingInfo("Could not determine program name".to_owned()))
}

/// The identifier that a program without source path and modules gets at the
/// time `timestamp`.
pub fn clock_program_id_text(timestamp: i64) -> (r: String)
    ensures
        r@ == clock_program_id(timestamp as int),
{
    let digits = signed_decimal_text(timestamp);
    concat("program:", digits.as_str())
}

/// The identifier of `program`. Where neither the source path nor a module
/// is known, the time of the call decides it.
pub fn generate_program_id(program: &Program) -> (r: String)
    ensures
        program@.source_path.is_some() || program@.program_modules.len() > 0 ==> r@ == program_id(
            program@,
        ),
        program@.source_path.is_none() && program@.program_modules.len() == 0 ==> exists|t: i64|
            r@ == clock_program_id(t as int),
{
    match &program.source_path {
        Some(source_path) => {
            return concat("program:", source_path.as_str());
        },
        None => {},
    }
    if program.program_modules.len() > 0 {
        assert(program@.program_modules[0] == program.program_modules[0]@);
        return concat("program:", program.program_modules[0].name.as_str());
    }
    clock_program_id_text(unix_timestamp())
}

/// Links one instruction to its account struct.
fn link_instruction(instruction: &mut NormalizedInstruction)
    ensures
        final(instruction)@ == linked_instruction(old(instruction)@),
{
    if instruction.account_struct_name.is_some() {
        return ;
    }
    let found = match instruction.get_context_parameter() {
        Some(param) => {
            proof {
                let flags = instruction@.parameters.map_values(
                    |p: crate::normalized::instruction::NormalizedParameterView| p.is_context,
                );
                lemma_first_index(flags, true);
                let k = instruction@.context_parameter_index().unwrap();
                assert(instruction@.parameters[k] == instruction.parameters[k]@);
            }
            extract_context_type(param.ty.as_str())
        },
        None => None,
    };
    match found {
        Some(name) => {
            instruction.account_struct_name = Some(name);
        },
        None => {},
    }
}

/// Links the instructions of one module to their account structs.
fn link_module(module: &mut NormalizedModule)
    ensures
        final(module)@ == linked_module(old(module)@),
{
    let n = module.instructions.len();
    let mut i: usize = 0;
    while i < n
        invariant
            i <= n,
            n == module.instructions.len(),
            n == old(module).instructions.len(),
            module.name == old(module).name,
            module.visibility == old(module).visibility,
            module.documentation == old(module).documentation,
            forall|j: int|
                0 <= j < i ==> (#[trigger] module.instructions[j])@ == linked_instruction(
                    old(module).instructions[j]@,
                ),
            forall|j: int| i <= j < n ==> (#[trigger] module.instructions[j]) == old(
                module,
            ).instructions[j],
        decreases n - i,
    {
        link_instruction(&mut module.instructions[i]);
        i += 1;
    }
    assert(module@.instructions =~= linked_module(old(module)@).instructions);
}

/// Links every instruction that has no account struct yet to the struct
/// that the type of its first context parameter names.
pub fn link_instructions_to_accounts(program: &mut NormalizedProgram) -> (r: Result<
    (),
    NormalizationError,
>)
    ensures
        r.is_ok(),
        final(program)@ == linked(old(program)@),
{
    let n = program.modules.len();
    let mut m: usize = 0;
    while m < n
        invariant
            m <= n,
            n == program.modules.len(),
            n == old(program).modules.len(),
            program.id == old(program).id,
            program.name == old(program).name,
            program.account_structs == old(program).account_structs,
            program.raw_accounts == old(program).raw_accounts,
            program.documentation == old(program).documentation,
            program.validation_issues == old(program).validation_issues,
            program.source_info == old(program).source_info,
            program.schema_version == old(program).schema_version,
            forall|j: int|
                0 <= j < m ==> (#[trigger] program.modules[j])@ == linked_module(
                    old(program).modules[j]@,
                ),
            forall|j: int| m <= j < n ==> (#[trigger] program.modules[j]) == old(
                program,
            ).modules[j],
        decreases n - m,
    {
        link_module(&mut program.modules[m]);
        m += 1;
    }
    assert(program@.modules =~= linked(old(program)@).modules);
    Ok(())
}

/// The name that a type text holds between its first `<` and its last `>`.
pub fn extract_context_type(ty: &str) -> (r: Option<String>)
    ensures
        opt_text(r) == generic_argument(ty@),
{
    let chars = chars_of(ty);
    let start = match find_char(&chars, '<') {
        Some(a) => a + 1,
        None => {
            return None;
        },
    };
    let end = match rfind_char(&chars, '>') {
        Some(b) => b,
        None => {
            return None;
        },
    };
    if start < end {
        let (a, b) = trim_bounds(&chars, start, end);
        Some(text_of(&chars, a, b))
    } else {
        None
    }
}

} // verus!
