//! Inference: what the names and the constraints of a program imply without
//! saying it. Three passes in a fixed order: the operations of the
//! instructions, the constraints of the fields, and the relations between
//! the fields of a struct.

use crate::error::NormalizationError;
use crate::normalized::account::{
    struct_index, struct_views, NormalizedAccountField, NormalizedAccountFieldView,
    NormalizedAccountStruct, NormalizedAccountStructView, NormalizedConstraint,
    NormalizedConstraintView,
};
use crate::normalized::instruction::{
    operation_views, BasicOperation, BasicOperationView, InstructionBody, InstructionBodyView,
    NormalizedInstruction, NormalizedInstructionView,
};
use crate::normalized::program::{
    find_struct, NormalizedModule, NormalizedModuleView, NormalizedProgram, NormalizedProgramView,
};
use crate::seqs::{first_index, last_index, lemma_first_index, lemma_last_index};
use crate::text::{contains_text, same_text, text_contains};
use vstd::prelude::*;
use vstd::string::*;

verus! {

/// The operation that a field with an `init` constraint stands for: the
/// field is initialized, paid for by what its `payer` constraint names, or by
/// `payer` where it names nothing. Any other field stands for none.
pub open spec fn initialize_operation(f: NormalizedAccountFieldView) -> Seq<BasicOperationView> {
    if f.has_constraint("init"@) {
        seq![
            BasicOperationView::Initialize {
                target: f.name,
                payer: match f.constraint_value("payer"@) {
                    Some(v) => v,
                    None => "payer"@,
                },
            },
        ]
    } else {
        Seq::empty()
    }
}

/// The initializations that `fields` stand for, in the order of the fields.
pub open spec fn initialize_operations(fields: Seq<NormalizedAccountFieldView>) -> Seq<
    BasicOperationView,
> {
    fields.flat_map(|f: NormalizedAccountFieldView| initialize_operation(f))
}

/// The transfer from `from` to `to`, where `account` has fields of both
/// names.
pub open spec fn transfer_operation(account: NormalizedAccountStructView) -> Seq<
    BasicOperationView,
> {
    if account.field_index("from"@).is_some() && account.field_index("to"@).is_some() {
        seq![BasicOperationView::Transfer { from: "from"@, to: "to"@ }]
    } else {
        Seq::empty()
    }
}

/// For each field of `account`, whether it has a `close` constraint.
pub open spec fn close_flags(account: NormalizedAccountStructView) -> Seq<bool> {
    account.fields.map_values(|f: NormalizedAccountFieldView| f.has_constraint("close"@))
}

/// The closing of the first field of `account` with a `close` constraint:
/// what the constraint names is refunded, or `authority` where it names
/// nothing.
pub open spec fn close_operation(account: NormalizedAccountStructView) -> Seq<BasicOperationView> {
    match first_index(close_flags(account), true) {
        Some(i) => seq![
            BasicOperationView::Close {
                target: account.fields[i].name,
                refund_to: match account.fields[i].constraint_value("close"@) {
                    Some(v) => v,
                    None => "authority"@,
                },
            },
        ],
        None => Seq::empty(),
    }
}

/// The operations that the name of an instruction adds: a transfer for
/// `transfer` and `send`, a closing for `close`, none for any other name.
pub open spec fn named_operations(name: Seq<char>, account: NormalizedAccountStructView) -> Seq<
    BasicOperationView,
> {
    if name == "transfer"@ || name == "send"@ {
        transfer_operation(account)
    } else if name == "close"@ {
        close_operation(account)
    } else {
        Seq::empty()
    }
}

/// The operations of an instruction named `name` whose accounts are
/// `account`: the initializations, then what the name adds.
pub open spec fn inferred_operations(name: Seq<char>, account: NormalizedAccountStructView) -> Seq<
    BasicOperationView,
> {
    initialize_operations(account.fields) + named_operations(name, account)
}

/// The value of the first constraint of `field` named `constraint_type`, or
/// `default` where there is no such constraint or it has no value.
fn constraint_value_or(field: &NormalizedAccountField, constraint_type: &str, default: &str) -> (r:
    String)
    ensures
        r@ == match field@.constraint_value(constraint_type@) {
            Some(v) => v,
            None => default@,
        },
{
    match field.find_constraint(constraint_type) {
        Some(constraint) => {
            let ghost i = field@.constraint_index(constraint_type@).unwrap();
            proof {
                lemma_first_index(field@.constraint_types(), constraint_type@);
                assert(field@.constraints[i] == field.constraints[i]@);
            }
            match &constraint.value {
                Some(v) => v.clone(),
                None => default.to_owned(),
            }
        },
        None => default.to_owned(),
    }
}

/// Whether `field` has a constraint named `constraint_type`.
fn has_constraint(field: &NormalizedAccountField, constraint_type: &str) -> (r: bool)
    ensures
        r == field@.has_constraint(constraint_type@),
{
    field.find_constraint(constraint_type).is_some()
}

/// The first field of `account` with a `close` constraint.
fn find_closed_field(account: &NormalizedAccountStruct) -> (r: Option<&NormalizedAccountField>)
    ensures
        r == match first_index(close_flags(account@), true) {
            Some(i) => Some(&account.fields[i]),
            None => None,
        },
{
    let ghost flags = close_flags(account@);
    let mut i: usize = 0;
    while i < account.fields.len()
        invariant
            i <= account.fields.len(),
            flags == close_flags(account@),
            forall|j: int| 0 <= j < i ==> #[trigger] flags[j] != true,
        decreases account.fields.len() - i,
    {
        if has_constraint(&account.fields[i], "close") {
            proof {
                assert(flags[i as int] == true);
                lemma_first_index(flags, true);
            }
            return Some(&account.fields[i]);
        }
        assert(flags[i as int] != true);
        i += 1;
    }
    proof {
        lemma_first_index(flags, true);
    }
    None
}

/// The operations of `instruction`, as its name and the fields of `account`
/// show them.
pub fn infer_operations_from_account(
    instruction: &NormalizedInstruction,
    account: &NormalizedAccountStruct,
) -> (operations: Vec<BasicOperation>)
    ensures
        operation_views(operations@) == inferred_operations(instruction@.name, account@),
{
    let mut operations: Vec<BasicOperation> = Vec::new();
    let mut i: usize = 0;
    assert(operation_views(operations@) =~= initialize_operations(account@.fields.take(0)));
    while i < account.fields.len()
        invariant
            i <= account.fields.len(),
            operation_views(operations@) == initialize_operations(account@.fields.take(i as int)),
        decreases account.fields.len() - i,
    {
        let field = &account.fields[i];
        let ghost before = operation_views(operations@);
        if has_constraint(field, "init") {
            let payer = constraint_value_or(field, "payer", "payer");
            operations.push(BasicOperation::Initialize { target: field.name.clone(), payer });
        }
        proof {
            assert(account@.fields[i as int] == field@);
            account@.fields.lemma_flat_map_take_append(
                |f: NormalizedAccountFieldView| initialize_operation(f),
                i as int,
            );
            assert(operation_views(operations@) =~= before + initialize_operation(field@));
        }
        i += 1;
    }
    assert(account@.fields.take(i as int) =~= account@.fields);
    let ghost initialized = operation_views(operations@);
    let name = instruction.name.as_str();
    if same_text(name, "transfer") || same_text(name, "send") {
        match (account.find_field("from"), account.find_field("to")) {
            (Some(from), Some(to)) => {
                proof {
                    lemma_first_index(account@.field_names(), "from"@);
                    lemma_first_index(account@.field_names(), "to"@);
                    let a = account@.field_index("from"@).unwrap();
                    let b = account@.field_index("to"@).unwrap();
                    assert(account@.field_names()[a] == account.fields[a]@.name);
                    assert(account@.field_names()[b] == account.fields[b]@.name);
                }
                operations.push(
                    BasicOperation::Transfer { from: from.name.clone(), to: to.name.clone() },
                );
                assert(operation_views(operations@) =~= initialized + transfer_operation(
                    account@,
                ));
            },
            _ => {
                assert(operation_views(operations@) =~= initialized + transfer_operation(
                    account@,
                ));
            },
        }
    } else if same_text(name, "close") {
        match find_closed_field(account) {
            Some(field) => {
                proof {
                    lemma_first_index(close_flags(account@), true);
                    let a = first_index(close_flags(account@), true).unwrap();
                    assert(account@.fields[a] == account.fields[a]@);
                }
                let refund_to = constraint_value_or(field, "close", "authority");
                operations.push(BasicOperation::Close { target: field.name.clone(), refund_to });
                assert(operation_views(operations@) =~= initialized + close_operation(account@));
            },
            None => {
                assert(operation_views(operations@) =~= initialized + close_operation(account@));
            },
        }
    } else {
        assert(operation_views(operations@) =~= initialized + Seq::empty());
    }
    operations
}

/// An instruction after the inference of its operations. One whose body
/// already lists operations keeps it. Another gets the operations that its
/// name and its account struct show, where the struct is declared and they
/// are not none; else it stays as it is.
pub open spec fn instruction_with_operations(
    i: NormalizedInstructionView,
    structs: Seq<NormalizedAccountStructView>,
) -> NormalizedInstructionView {
    if i.body matches Some(InstructionBodyView::Basic(_)) {
        i
    } else {
        match i.account_struct_name {
            Some(name) => match struct_index(structs, name) {
                Some(a) => {
                    let operations = inferred_operations(i.name, structs[a]);
                    if operations.len() > 0 {
                        NormalizedInstructionView {
                            body: Some(InstructionBodyView::Basic(operations)),
                            ..i
                        }
                    } else {
                        i
                    }
                },
                None => i,
            },
            None => i,
        }
    }
}

/// A module after the inference of the operations of its instructions.
pub open spec fn module_with_operations(
    m: NormalizedModuleView,
    structs: Seq<NormalizedAccountStructView>,
) -> NormalizedModuleView {
    NormalizedModuleView {
        instructions: m.instructions.map_values(
            |i: NormalizedInstructionView| instruction_with_operations(i, structs),
        ),
        ..m
    }
}

/// A program after the first pass: the inference of operations.
pub open spec fn with_inferred_operations(p: NormalizedProgramView) -> NormalizedProgramView {
    NormalizedProgramView {
        modules: p.modules.map_values(
            |m: NormalizedModuleView| module_with_operations(m, p.account_structs),
        ),
        ..p
    }
}

/// Infers the operations of one instruction.
fn infer_operations(instruction: &mut NormalizedInstruction, structs: &Vec<NormalizedAccountStruct>)
    ensures
        final(instruction)@ == instruction_with_operations(
            old(instruction)@,
            struct_views(structs@),
        ),
{
    match &instruction.body {
        Some(InstructionBody::Basic(_)) => {
            return ;
        },
        _ => {},
    }
    let operations = match &instruction.account_struct_name {
        Some(name) => match find_struct(structs, name.as_str()) {
            Some(account) => {
                proof {
                    lemma_first_index(
                        crate::normalized::account::struct_names(struct_views(structs@)),
                        name@,
                    );
                }
                infer_operations_from_account(instruction, account)
            },
            None => Vec::new(),
        },
        None => Vec::new(),
    };
    if operations.len() > 0 {
        instruction.body = Some(InstructionBody::Basic(operations));
    }
}

/// Infers the operations of the instructions of one module.
fn infer_module_operations(module: &mut NormalizedModule, structs: &Vec<NormalizedAccountStruct>)
    ensures
        final(module)@ == module_with_operations(old(module)@, struct_views(structs@)),
{
    let n = module.instructions.len();
    let mut i: usize = 0;
    while i < n
        invariant
            i <= n,
            n == module.instructions.len(),
            n == old(module).instructions.len(),
            module.name == old(module).name,
            module.visibility == old(module).visibility,
            module.documentation == old(module).documentation,
            forall|j: int|
                0 <= j < i ==> (#[trigger] module.instructions[j])@ == instruction_with_operations(
                    old(module).instructions[j]@,
                    struct_views(structs@),
                ),
            forall|j: int| i <= j < n ==> (#[trigger] module.instructions[j]) == old(
                module,
            ).instructions[j],
        decreases n - i,
    {
        infer_operations(&mut module.instructions[i], structs);
        i += 1;
    }
    assert(module@.instructions =~= module_with_operations(
        old(module)@,
        struct_views(structs@),
    ).instructions);
}

/// The first pass: infers the operations of every instruction.
pub fn infer_instruction_operations(program: &mut NormalizedProgram) -> (r: Result<
    (),
    NormalizationError,
>)
    ensures
        r.is_ok(),
        final(program)@ == with_inferred_operations(old(program)@),
{
    let n = program.modules.len();
    let mut m: usize = 0;
    while m < n
        invariant
            m <= n,
            n == program.modules.len(),
            n == old(program).modules.len(),
            program.id == old(program).id,
            program.name == old(program).name,
            program.account_structs == old(program).account_structs,
            program.raw_accounts == old(program).raw_accounts,
            program.documentation == old(program).documentation,
            program.validation_issues == old(program).validation_issues,
            program.source_info == old(program).source_info,
            program.schema_version == old(program).schema_version,
            forall|j: int|
                0 <= j < m ==> (#[trigger] program.modules[j])@ == module_with_operations(
                    old(program).modules[j]@,
                    old(program)@.account_structs,
                ),
            forall|j: int| m <= j < n ==> (#[trigger] program.modules[j]) == old(
                program,
            ).modules[j],
        decreases n - m,
    {
        infer_module_operations(&mut program.modules[m], &program.account_structs);
        m += 1;
    }
    assert(program@.modules =~= with_inferred_operations(old(program)@).modules);
    Ok(())
}

/// Whether a field of this name speaks for the program: `authority`,
/// `owner` or `admin`.
pub open spec fn is_authority_name(name: Seq<char>) -> bool {
    name == "authority"@ || name == "owner"@ || name == "admin"@
}

/// Whether `f` is to get an inferred `signer` constraint: its name speaks
/// for the program, its type holds `Signer`, and it has no `signer`
/// constraint.
pub open spec fn needs_signer(f: NormalizedAccountFieldView) -> bool {
    is_authority_name(f.name) && !f.has_constraint("signer"@) && contains_text(f.ty, "Signer"@)
}

/// Whether `f` is to get an inferred `mut` constraint: it has an `init`
/// constraint and no `mut` constraint.
pub open spec fn needs_mut(f: NormalizedAccountFieldView) -> bool {
    f.has_constraint("init"@) && !f.has_constraint("mut"@)
}

/// A field after the inference of its constraints: the inferred `signer`
/// constraint, then the inferred `mut` constraint, each where it is needed,
/// appended to the constraints that the field had.
pub open spec fn field_with_inferred_constraints(
    f: NormalizedAccountFieldView,
) -> NormalizedAccountFieldView {
    let g = if needs_signer(f) {
        f.with_constraint(NormalizedConstraintView::inferred("signer"@))
    } else {
        f
    };
    if needs_mut(f) {
        g.with_constraint(NormalizedConstraintView::inferred("mut"@))
    } else {
        g
    }
}

/// An account struct after the inference of the constraints of its fields.
pub open spec fn struct_with_inferred_constraints(
    a: NormalizedAccountStructView,
) -> NormalizedAccountStructView {
    NormalizedAccountStructView {
        fields: a.fields.map_values(
            |f: NormalizedAccountFieldView| field_with_inferred_constraints(f),
        ),
        ..a
    }
}

/// A program after the second pass: the inference of constraints.
pub open spec fn with_inferred_constraints(p: NormalizedProgramView) -> NormalizedProgramView {
    NormalizedProgramView {
        account_structs: p.account_structs.map_values(
            |a: NormalizedAccountStructView| struct_with_inferred_constraints(a),
        ),
        ..p
    }
}

/// Infers the constraints of one field.
fn infer_constraints_of_field(field: &mut NormalizedAccountField)
    ensures
        final(field)@ == field_with_inferred_constraints(old(field)@),
{
    let name = field.name.as_str();
    let signer = (same_text(name, "authority") || same_text(name, "owner") || same_text(
        name,
        "admin",
    )) && !has_constraint(field, "signer") && text_contains(field.ty.as_str(), "Signer");
    let mutable = has_constraint(field, "init") && !has_constraint(field, "mut");
    if signer {
        field.add_constraint(NormalizedConstraint::without_value("signer", true));
    }
    if mutable {
        field.add_constraint(NormalizedConstraint::without_value("mut", true));
    }
}

/// Infers the constraints of the fields of one account struct.
fn infer_constraints_of_struct(account: &mut NormalizedAccountStruct)
    ensures
        final(account)@ == struct_with_inferred_constraints(old(account)@),
{
    let n = account.fields.len();
    let mut i: usize = 0;
    while i < n
        invariant
            i <= n,
            n == account.fields.len(),
            n == old(account).fields.len(),
            account.name == old(account).name,
            account.visibility == old(account).visibility,
            account.documentation == old(account).documentation,
            forall|j: int|
                0 <= j < i ==> (#[trigger] account.fields[j])@ == field_with_inferred_constraints(
                    old(account).fields[j]@,
                ),
            forall|j: int| i <= j < n ==> (#[trigger] account.fields[j]) == old(account).fields[j],
        decreases n - i,
    {
        infer_constraints_of_field(&mut account.fields[i]);
        i += 1;
    }
    assert(account@.fields =~= struct_with_inferred_constraints(old(account)@).fields);
}

/// The second pass: infers the constraints that the fields imply.
pub fn infer_field_constraints(program: &mut NormalizedProgram) -> (r: Result<
    (),
    NormalizationError,
>)
    ensures
        r.is_ok(),
        final(program)@ == with_inferred_constraints(old(program)@),
{
    let n = program.account_structs.len();
    let mut a: usize = 0;
    while a < n
        invariant
            a <= n,
            n == program.account_structs.len(),
            n == old(program).account_structs.len(),
            program.id == old(program).id,
            program.name == old(program).name,
            program.modules == old(program).modules,
            program.raw_accounts == old(program).raw_accounts,
            program.documentation == old(program).documentation,
            program.validation_issues == old(program).validation_issues,
            program.source_info == old(program).source_info,
            program.schema_version == old(program).schema_version,
            forall|j: int|
                0 <= j < a ==> (#[trigger] program.account_structs[j])@
                    == struct_with_inferred_constraints(old(program).account_structs[j]@),
            forall|j: int| a <= j < n ==> (#[trigger] program.account_structs[j]) == old(
                program,
            ).account_structs[j],
        decreases n - a,
    {
        infer_constraints_of_struct(&mut program.account_structs[a]);
        a += 1;
    }
    assert(program@.account_structs =~= with_inferred_constraints(old(program)@).account_structs);
    Ok(())
}

/// Whether a constraint of this name relates its field to another:
/// `has_one` or `belongs_to`.
pub open spec fn is_relation(constraint_type: Seq<char>) -> bool {
    constraint_type == "has_one"@ || constraint_type == "belongs_to"@
}

/// Whether the constraint `c` relates its field to the field named `name`.
pub open spec fn names_field(c: NormalizedConstraintView, name: Seq<char>) -> bool {
    is_relation(c.constraint_type) && c.value == Some(name)
}

/// Whether a constraint of `f` relates it to the field named `name`.
pub open spec fn refers_to(f: NormalizedAccountFieldView, name: Seq<char>) -> bool {
    exists|k: int| 0 <= k < f.constraints.len() && names_field(#[trigger] f.constraints[k], name)
}

/// For each field of `fields`, whether it is another field than the one at
/// `j` and that one is related to it.
pub open spec fn relation_flags(fields: Seq<NormalizedAccountFieldView>, j: int) -> Seq<bool> {
    Seq::new(fields.len(), |i: int| i != j && refers_to(fields[j], fields[i].name))
}

/// The index of the last field that the field at `j` is related to.
pub open spec fn related_field(fields: Seq<NormalizedAccountFieldView>, j: int) -> Option<int> {
    last_index(relation_flags(fields, j), true)
}

/// The field at `j` after the inference of relations: its related account
/// is the last other field of the struct that one of its `has_one` or
/// `belongs_to` constraints names; where there is none, it stays as it is.
pub open spec fn field_with_relationship(
    fields: Seq<NormalizedAccountFieldView>,
    j: int,
) -> NormalizedAccountFieldView {
    match related_field(fields, j) {
        Some(i) => NormalizedAccountFieldView {
            inferred_info: crate::normalized::account::InferredFieldInfoView {
                related_account: Some(fields[i].name),
                ..fields[j].inferred_info
            },
            ..fields[j]
        },
        None => fields[j],
    }
}

/// An account struct after the inference of the relations of its fields.
pub open spec fn struct_with_relationships(
    a: NormalizedAccountStructView,
) -> NormalizedAccountStructView {
    NormalizedAccountStructView {
        fields: Seq::new(a.fields.len(), |j: int| field_with_relationship(a.fields, j)),
        ..a
    }
}

/// A program after the third pass: the inference of relations.
pub open spec fn with_relationships(p: NormalizedProgramView) -> NormalizedProgramView {
    NormalizedProgramView {
        account_structs: p.account_structs.map_values(
            |a: NormalizedAccountStructView| struct_with_relationships(a),
        ),
        ..p
    }
}

/// Whether a constraint of `field` relates it to the field named `name`.
fn field_refers_to(field: &NormalizedAccountField, name: &str) -> (r: bool)
    ensures
        r == refers_to(field@, name@),
{
    let mut k: usize = 0;
    while k < field.constraints.len()
        invariant
            k <= field.constraints.len(),
            forall|q: int| 0 <= q < k ==> !names_field(#[trigger] field@.constraints[q], name@),
        decreases field.constraints.len() - k,
    {
        let constraint = &field.constraints[k];
        assert(field@.constraints[k as int] == constraint@);
        let kind = constraint.constraint_type.as_str();
        if same_text(kind, "has_one") || same_text(kind, "belongs_to") {
            match &constraint.value {
                Some(value) => {
                    if same_text(value.as_str(), name) {
                        assert(names_field(field@.constraints[k as int], name@));
                        return true;
                    }
                },
                None => {},
            }
        }
        k += 1;
    }
    false
}

/// Infers the relations of the fields of one account struct.
fn infer_relationships_of_struct(account: &mut NormalizedAccountStruct)
    ensures
        final(account)@ == struct_with_relationships(old(account)@),
{
    let n = account.fields.len();
    let ghost fields = old(account)@.fields;
    let mut j: usize = 0;
    while j < n
        invariant
            j <= n,
            n == account.fields.len(),
            n == old(account).fields.len(),
            fields == old(account)@.fields,
            account.name == old(account).name,
            account.visibility == old(account).visibility,
            account.documentation == old(account).documentation,
            forall|k: int| 0 <= k < n ==> (#[trigger] account.fields[k])@.name == fields[k].name,
            forall|k: int|
                0 <= k < j ==> (#[trigger] account.fields[k])@ == field_with_relationship(fields, k),
            forall|k: int| j <= k < n ==> (#[trigger] account.fields[k]) == old(account).fields[k],
        decreases n - j,
    {
        let ghost flags = relation_flags(fields, j as int);
        let mut related: Option<String> = None;
        let mut i: usize = 0;
        assert(fields[j as int] == account.fields[j as int]@);
        while i < n
            invariant
                i <= n,
                j < n,
                n == account.fields.len(),
                n == fields.len(),
                flags == relation_flags(fields, j as int),
                fields[j as int] == account.fields[j as int]@,
                forall|k: int| 0 <= k < n ==> (#[trigger] account.fields[k])@.name == fields[k].name,
                crate::text::opt_text(related) == match last_index(flags.take(i as int), true) {
                    Some(q) => Some(fields[q].name),
                    None => None,
                },
            decreases n - i,
        {
            proof {
                assert(flags.take(i + 1).drop_last() =~= flags.take(i as int));
                assert(flags.take(i + 1).last() == flags[i as int]);
                lemma_last_index(flags.take(i as int), true);
            }
            if i != j && field_refers_to(&account.fields[j], account.fields[i].name.as_str()) {
                related = Some(account.fields[i].name.clone());
            }
            i += 1;
        }
        assert(flags.take(n as int) =~= flags);
        match related {
            Some(name) => {
                account.fields[j].inferred_info.related_account = Some(name);
            },
            None => {},
        }
        j += 1;
    }
    assert(account@.fields =~= struct_with_relationships(old(account)@).fields);
}

/// The third pass: infers the relations between the fields of each struct.
pub fn infer_account_relationships(program: &mut NormalizedProgram) -> (r: Result<
    (),
    NormalizationError,
>)
    ensures
        r.is_ok(),
        final(program)@ == with_relationships(old(program)@),
{
    let n = program.account_structs.len();
    let mut a: usize = 0;
    while a < n
        invariant
            a <= n,
            n == program.account_structs.len(),
            n == old(program).account_structs.len(),
            program.id == old(program).id,
            program.name == old(program).name,
            program.modules == old(program).modules,
            program.raw_accounts == old(program).raw_accounts,
            program.documentation == old(program).documentation,
            program.validation_issues == old(program).validation_issues,
            program.source_info == old(program).source_info,
            program.schema_version == old(program).schema_version,
            forall|j: int|
                0 <= j < a ==> (#[trigger] program.account_structs[j])@
                    == struct_with_relationships(old(program).account_structs[j]@),
            forall|j: int| a <= j < n ==> (#[trigger] program.account_structs[j]) == old(
                program,
            ).account_structs[j],
        decreases n - a,
    {
        infer_relationships_of_struct(&mut program.account_structs[a]);
        a += 1;
    }
    assert(program@.account_structs =~= with_relationships(old(program)@).account_structs);
    Ok(())
}

/// A program after inference: the three passes, in their order.
pub open spec fn with_inferred_semantics(p: NormalizedProgramView) -> NormalizedProgramView {
    with_relationships(with_inferred_constraints(with_inferred_operations(p)))
}

/// Adds to `program` what its names and constraints imply: the operations of
/// its instructions, the constraints of its fields, and the relations
/// between the fields of each struct.
pub fn infer_missing_semantics(program: &mut NormalizedProgram) -> (r: Result<
    (),
    NormalizationError,
>)
    ensures
        r.is_ok(),
        final(program)@ == with_inferred_semantics(old(program)@),
{
    infer_instruction_operations(program)?;
    infer_field_constraints(program)?;
    infer_account_relationships(program)?;
    Ok(())
}

} // verus!
