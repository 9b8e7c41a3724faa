//! Validation: four scans of a normalized program. Each records issues and
//! changes nothing else; none of them stops normalization.

use crate::error::NormalizationError;
use crate::normalized::account::{
    struct_index, struct_names, NormalizedAccountFieldView, NormalizedAccountStruct,
    NormalizedAccountStructView, NormalizedRawAccountView, NormalizedRawFieldView,
};
use crate::normalized::instruction::{NormalizedInstruction, NormalizedInstructionView};
use crate::normalized::program::{
    find_struct, NormalizedModuleView, NormalizedProgram, NormalizedProgramView,
};
use crate::normalized::validation::{IssueSeverity, ValidationIssue, ValidationIssueView};
use crate::seqs::{first_index, lemma_first_index};
use crate::text::same_text;
use vstd::prelude::*;
use vstd::string::*;

verus! {

/// The views of issues.
pub open spec fn issue_views(issues: Seq<ValidationIssue>) -> Seq<ValidationIssueView> {
    issues.map_values(|i: ValidationIssue| i@)
}

/// The views of strings.
pub open spec fn text_views(texts: Seq<String>) -> Seq<Seq<char>> {
    texts.map_values(|s: String| s@)
}

/// The issue of severity `severity` on `element`.
pub open spec fn issue(severity: IssueSeverity, message: Seq<char>, element: Seq<char>) -> Seq<
    ValidationIssueView,
> {
    seq![ValidationIssueView { severity, message, element }]
}

/// The message on an account struct whose name stood before.
pub open spec fn duplicate_struct_message(name: Seq<char>) -> Seq<char> {
    "Duplicate account struct name: "@ + name
}

/// The message on a raw account whose name stood before.
pub open spec fn duplicate_account_message(name: Seq<char>) -> Seq<char> {
    "Duplicate account name: "@ + name
}

/// The message on an instruction whose account struct is not declared.
pub open spec fn undefined_struct_message(instruction: Seq<char>, account: Seq<char>) -> Seq<char> {
    "Instruction "@ + instruction + " references undefined account struct "@ + account
}

/// The message on an instruction that takes a context and has no account
/// struct.
pub open spec fn unlinked_context_message(instruction: Seq<char>) -> Seq<char> {
    "Instruction "@ + instruction + " has Context parameter but no associated account struct"@
}

/// The message on a field of an account struct without a type.
pub open spec fn untyped_field_message(field: Seq<char>, account: Seq<char>) -> Seq<char> {
    "Field "@ + field + " in account "@ + account + " has no type information"@
}

/// The message on a field of a raw account without a type.
pub open spec fn untyped_raw_field_message(field: Seq<char>, account: Seq<char>) -> Seq<char> {
    "Field "@ + field + " in raw account "@ + account + " has no type information"@
}

/// The message on an instruction that is not public.
pub open spec fn visibility_message(instruction: Seq<char>, visibility: Seq<char>) -> Seq<char> {
    "Instruction "@ + instruction + " has non-public visibility: "@ + visibility
}

/// How a field is named in an issue: `Struct.field`.
pub open spec fn field_element(account: Seq<char>, field: Seq<char>) -> Seq<char> {
    account + "."@ + field
}

/// The error on the account struct at `k`, where its name is that of a
/// struct before it.
pub open spec fn duplicate_struct_issue(structs: Seq<Seq<char>>, k: int) -> Seq<
    ValidationIssueView,
> {
    if first_index(structs.take(k), structs[k]).is_some() {
        issue(IssueSeverity::Error, duplicate_struct_message(structs[k]), structs[k])
    } else {
        Seq::empty()
    }
}

/// The error on the raw account at `k`, where its name is that of an account
/// struct or of a raw account before it.
pub open spec fn duplicate_account_issue(
    structs: Seq<Seq<char>>,
    accounts: Seq<Seq<char>>,
    k: int,
) -> Seq<ValidationIssueView> {
    if first_index(structs + accounts.take(k), accounts[k]).is_some() {
        issue(IssueSeverity::Error, duplicate_account_message(accounts[k]), accounts[k])
    } else {
        Seq::empty()
    }
}

/// The errors on the account structs among the first `n` whose name stood
/// before, in order.
pub open spec fn duplicate_struct_issues(structs: Seq<Seq<char>>, n: int) -> Seq<
    ValidationIssueView,
> {
    Seq::new(n as nat, |k: int| duplicate_struct_issue(structs, k)).flatten()
}

/// The errors on the raw accounts among the first `n` whose name stood
/// before, in order.
pub open spec fn duplicate_account_issues(
    structs: Seq<Seq<char>>,
    accounts: Seq<Seq<char>>,
    n: int,
) -> Seq<ValidationIssueView> {
    Seq::new(n as nat, |k: int| duplicate_account_issue(structs, accounts, k)).flatten()
}

/// The issues of the first scan: account structs and raw accounts share
/// their names, and each name that stood before is an error; the structs
/// are taken first, then the raw accounts.
pub open spec fn uniqueness_issues(p: NormalizedProgramView) -> Seq<ValidationIssueView> {
    let structs = struct_names(p.account_structs);
    let accounts = p.raw_account_names();
    duplicate_struct_issues(structs, structs.len() as int) + duplicate_account_issues(
        structs,
        accounts,
        accounts.len() as int,
    )
}

/// The warning on an instruction whose account struct is not declared, or
/// that takes a context and has no account struct.
pub open spec fn reference_issue(
    i: NormalizedInstructionView,
    structs: Seq<NormalizedAccountStructView>,
) -> Seq<ValidationIssueView> {
    match i.account_struct_name {
        Some(name) => if struct_index(structs, name).is_none() {
            issue(IssueSeverity::Warning, undefined_struct_message(i.name, name), i.name)
        } else {
            Seq::empty()
        },
        None => if i.has_context_parameter() {
            issue(IssueSeverity::Warning, unlinked_context_message(i.name), i.name)
        } else {
            Seq::empty()
        },
    }
}

/// The warnings on the references of the instructions of a module, in order.
pub open spec fn module_reference_issues(
    m: NormalizedModuleView,
    structs: Seq<NormalizedAccountStructView>,
) -> Seq<ValidationIssueView> {
    m.instructions.flat_map(|i: NormalizedInstructionView| reference_issue(i, structs))
}

/// The issues of the second scan: the references of the instructions to
/// their account structs.
pub open spec fn reference_issues(p: NormalizedProgramView) -> Seq<ValidationIssueView> {
    p.modules.flat_map(|m: NormalizedModuleView| module_reference_issues(m, p.account_structs))
}

/// The warning on a field of an account struct whose type is empty.
pub open spec fn field_type_issue(account: Seq<char>, f: NormalizedAccountFieldView) -> Seq<
    ValidationIssueView,
> {
    if f.ty.len() == 0 {
        issue(
            IssueSeverity::Warning,
            untyped_field_message(f.name, account),
            field_element(account, f.name),
        )
    } else {
        Seq::empty()
    }
}

/// The warning on a field of a raw account whose type is empty.
pub open spec fn raw_field_type_issue(account: Seq<char>, f: NormalizedRawFieldView) -> Seq<
    ValidationIssueView,
> {
    if f.ty.len() == 0 {
        issue(
            IssueSeverity::Warning,
            untyped_raw_field_message(f.name, account),
            field_element(account, f.name),
        )
    } else {
        Seq::empty()
    }
}

/// The warnings on the fields of an account struct without a type, in order.
pub open spec fn struct_type_issues(a: NormalizedAccountStructView) -> Seq<ValidationIssueView> {
    a.fields.flat_map(|f: NormalizedAccountFieldView| field_type_issue(a.name, f))
}

/// The warnings on the fields of a raw account without a type, in order.
pub open spec fn raw_account_type_issues(a: NormalizedRawAccountView) -> Seq<
    ValidationIssueView,
> {
    a.fields.flat_map(|f: NormalizedRawFieldView| raw_field_type_issue(a.name, f))
}

/// The warnings on the fields of account structs without a type, in order.
pub open spec fn all_struct_type_issues(structs: Seq<NormalizedAccountStructView>) -> Seq<
    ValidationIssueView,
> {
    structs.flat_map(|a: NormalizedAccountStructView| struct_type_issues(a))
}

/// The warnings on the fields of raw accounts without a type, in order.
pub open spec fn all_raw_account_type_issues(accounts: Seq<NormalizedRawAccountView>) -> Seq<
    ValidationIssueView,
> {
    accounts.flat_map(|a: NormalizedRawAccountView| raw_account_type_issues(a))
}

/// The issues of the third scan: the fields without a type, those of the
/// account structs first, then those of the raw accounts.
pub open spec fn field_type_issues(p: NormalizedProgramView) -> Seq<ValidationIssueView> {
    all_struct_type_issues(p.account_structs) + all_raw_account_type_issues(p.raw_accounts)
}

/// The note on an instruction whose visibility is not `pub`.
pub open spec fn visibility_issue(i: NormalizedInstructionView) -> Seq<ValidationIssueView> {
    if i.visibility != "pub"@ {
        issue(IssueSeverity::Info, visibility_message(i.name, i.visibility), i.name)
    } else {
        Seq::empty()
    }
}

/// The notes on the instructions of a module that are not public, in order.
pub open spec fn module_visibility_issues(m: NormalizedModuleView) -> Seq<ValidationIssueView> {
    m.instructions.flat_map(|i: NormalizedInstructionView| visibility_issue(i))
}

/// The issues of the fourth scan: the instructions that are not public.
pub open spec fn visibility_issues(p: NormalizedProgramView) -> Seq<ValidationIssueView> {
    p.modules.flat_map(|m: NormalizedModuleView| module_visibility_issues(m))
}

/// The issues of a program: those of the four scans, in their order.
pub open spec fn validation_issues(p: NormalizedProgramView) -> Seq<ValidationIssueView> {
    uniqueness_issues(p) + reference_issues(p) + field_type_issues(p) + visibility_issues(p)
}

/// A program after validation: its issues are appended to those that it
/// had, and nothing else changes.
pub open spec fn validated(p: NormalizedProgramView) -> NormalizedProgramView {
    NormalizedProgramView { validation_issues: p.validation_issues + validation_issues(p), ..p }
}

/// `a` + `b` + `c` + `d` + `e`.
fn join(a: &str, b: &str, c: &str, d: &str, e: &str) -> (r: String)
    ensures
        r@ == a@ + b@ + c@ + d@ + e@,
{
    let mut r = a.to_owned();
    r.append(b);
    r.append(c);
    r.append(d);
    r.append(e);
    r
}

/// Appends to `issues` the issue of the given severity.
fn record(issues: &mut Vec<ValidationIssue>, severity: IssueSeverity, message: String, element: String)
    ensures
        issue_views(final(issues)@) == issue_views(old(issues)@) + issue(
            severity,
            message@,
            element@,
        ),
{
    issues.push(ValidationIssue { severity, message, element });
    assert(issue_views(issues@) =~= issue_views(old(issues)@) + issue(
        severity,
        message@,
        element@,
    ));
}

/// Whether `name` is among `names`.
fn name_is_in(names: &Vec<String>, name: &str) -> (r: bool)
    ensures
        r == first_index(text_views(names@), name@).is_some(),
{
    let mut i: usize = 0;
    while i < names.len()
        invariant
            i <= names.len(),
            forall|j: int| 0 <= j < i ==> #[trigger] text_views(names@)[j] != name@,
        decreases names.len() - i,
    {
        if same_text(names[i].as_str(), name) {
            proof {
                assert(text_views(names@)[i as int] == name@);
                lemma_first_index(text_views(names@), name@);
            }
            return true;
        }
        assert(text_views(names@)[i as int] != name@);
        i += 1;
    }
    proof {
        lemma_first_index(text_views(names@), name@);
    }
    false
}

/// The first scan: the names of account structs and raw accounts that stood
/// before.
pub fn validate_unique_account_names(program: &NormalizedProgram, issues: &mut Vec<ValidationIssue>)
    ensures
        issue_views(final(issues)@) == issue_views(old(issues)@) + uniqueness_issues(program@),
{
    let ghost structs = struct_names(program@.account_structs);
    let ghost accounts = program@.raw_account_names();
    let mut names: Vec<String> = Vec::new();
    let mut k: usize = 0;
    assert(text_views(names@) =~= structs.take(0));
    assert(issue_views(issues@) =~= issue_views(old(issues)@) + duplicate_struct_issues(structs, 0));
    while k < program.account_structs.len()
        invariant
            k <= program.account_structs.len(),
            structs == struct_names(program@.account_structs),
            text_views(names@) == structs.take(k as int),
            issue_views(issues@) == issue_views(old(issues)@) + duplicate_struct_issues(
                structs,
                k as int,
            ),
        decreases program.account_structs.len() - k,
    {
        let account = &program.account_structs[k];
        let ghost before = issue_views(issues@);
        assert(structs[k as int] == account@.name);
        if name_is_in(&names, account.name.as_str()) {
            record(
                issues,
                IssueSeverity::Error,
                crate::text::concat("Duplicate account struct name: ", account.name.as_str()),
                account.name.clone(),
            );
        }
        names.push(account.name.clone());
        proof {
            assert(text_views(names@) =~= structs.take(k + 1));
            let parts = Seq::new(k as nat, |q: int| duplicate_struct_issue(structs, q));
            assert(Seq::new((k + 1) as nat, |q: int| duplicate_struct_issue(structs, q))
                =~= parts.push(duplicate_struct_issue(structs, k as int)));
            parts.lemma_flatten_push(duplicate_struct_issue(structs, k as int));
            assert(issue_views(issues@) =~= before + duplicate_struct_issue(structs, k as int));
        }
        k += 1;
    }
    let ghost middle = issue_views(issues@);
    let mut k: usize = 0;
    assert(structs.take(structs.len() as int) =~= structs);
    assert(text_views(names@) =~= structs + accounts.take(0));
    assert(issue_views(issues@) =~= middle + duplicate_account_issues(structs, accounts, 0));
    while k < program.raw_accounts.len()
        invariant
            k <= program.raw_accounts.len(),
            structs == struct_names(program@.account_structs),
            accounts == program@.raw_account_names(),
            text_views(names@) == structs + accounts.take(k as int),
            issue_views(issues@) == middle + duplicate_account_issues(structs, accounts, k as int),
        decreases program.raw_accounts.len() - k,
    {
        let account = &program.raw_accounts[k];
        let ghost before = issue_views(issues@);
        assert(accounts[k as int] == account@.name);
        if name_is_in(&names, account.name.as_str()) {
            record(
                issues,
                IssueSeverity::Error,
                crate::text::concat("Duplicate account name: ", account.name.as_str()),
                account.name.clone(),
            );
        }
        let ghost seen = text_views(names@);
        names.push(account.name.clone());
        proof {
            assert(text_views(names@) =~= seen.push(accounts[k as int]));
            assert(accounts.take(k + 1) =~= accounts.take(k as int).push(accounts[k as int]));
            assert(text_views(names@) =~= structs + accounts.take(k + 1));
            let parts = Seq::new(k as nat, |q: int| duplicate_account_issue(structs, accounts, q));
            assert(Seq::new((k + 1) as nat, |q: int| duplicate_account_issue(structs, accounts, q))
                =~= parts.push(duplicate_account_issue(structs, accounts, k as int)));
            parts.lemma_flatten_push(duplicate_account_issue(structs, accounts, k as int));
            assert(issue_views(issues@) =~= before + duplicate_account_issue(
                structs,
                accounts,
                k as int,
            ));
        }
        k += 1;
    }
    assert(issue_views(issues@) =~= issue_views(old(issues)@) + uniqueness_issues(program@));
}

/// Records the issue on the reference of one instruction.
fn validate_instruction_reference(
    instruction: &NormalizedInstruction,
    structs: &Vec<NormalizedAccountStruct>,
    issues: &mut Vec<ValidationIssue>,
)
    ensures
        issue_views(final(issues)@) == issue_views(old(issues)@) + reference_issue(
            instruction@,
            crate::normalized::account::struct_views(structs@),
        ),
{
    match &instruction.account_struct_name {
        Some(account_name) => {
            if find_struct(structs, account_name.as_str()).is_none() {
                record(
                    issues,
                    IssueSeverity::Warning,
                    join(
                        "Instruction ",
                        instruction.name.as_str(),
                        " references undefined account struct ",
                        account_name.as_str(),
                        "",
                    ),
                    instruction.name.clone(),
                );
                proof {
                    reveal_strlit("");
                    assert(undefined_struct_message(instruction@.name, account_name@)
                        =~= undefined_struct_message(instruction@.name, account_name@) + ""@);
                }
            } else {
                assert(issue_views(issues@) =~= issue_views(old(issues)@) + Seq::empty());
            }
        },
        None => {
            if instruction.has_context_parameter() {
                record(
                    issues,
                    IssueSeverity::Warning,
                    join(
                        "Instruction ",
                        instruction.name.as_str(),
                        " has Context parameter but no associated account struct",
                        "",
                        "",
                    ),
                    instruction.name.clone(),
                );
                proof {
                    reveal_strlit("");
                    assert(unlinked_context_message(instruction@.name) =~= unlinked_context_message(
                        instruction@.name,
                    ) + ""@ + ""@);
                }
            } else {
                assert(issue_views(issues@) =~= issue_views(old(issues)@) + Seq::empty());
            }
        },
    }
}

/// The second scan: the references of the instructions to their account
/// structs.
pub fn validate_instruction_references(
    program: &NormalizedProgram,
    issues: &mut Vec<ValidationIssue>,
)
    ensures
        issue_views(final(issues)@) == issue_views(old(issues)@) + reference_issues(program@),
{
    let ghost structs = program@.account_structs;
    let mut m: usize = 0;
    assert(issue_views(issues@) =~= issue_views(old(issues)@) + reference_issues(
        (NormalizedProgramView { modules: program@.modules.take(0), ..program@ }),
    ));
    while m < program.modules.len()
        invariant
            m <= program.modules.len(),
            structs == program@.account_structs,
            issue_views(issues@) == issue_views(old(issues)@) + program@.modules.take(
                m as int,
            ).flat_map(|m: NormalizedModuleView| module_reference_issues(m, structs)),
        decreases program.modules.len() - m,
    {
        let module = &program.modules[m];
        let ghost before = issue_views(issues@);
        let mut i: usize = 0;
        assert(module@ == program@.modules[m as int]);
        assert(issue_views(issues@) =~= before + module_reference_issues(
            (NormalizedModuleView { instructions: module@.instructions.take(0), ..module@ }),
            structs,
        ));
        while i < module.instructions.len()
            invariant
                i <= module.instructions.len(),
                structs == program@.account_structs,
                issue_views(issues@) == before + module@.instructions.take(i as int).flat_map(
                    |i: NormalizedInstructionView| reference_issue(i, structs),
                ),
            decreases module.instructions.len() - i,
        {
            let ghost inner = issue_views(issues@);
            validate_instruction_reference(
                &module.instructions[i],
                &program.account_structs,
                issues,
            );
            proof {
                assert(module@.instructions[i as int] == module.instructions[i as int]@);
                module@.instructions.lemma_flat_map_take_append(
                    |i: NormalizedInstructionView| reference_issue(i, structs),
                    i as int,
                );
                assert(issue_views(issues@) =~= before + module@.instructions.take(
                    i + 1,
                ).flat_map(|i: NormalizedInstructionView| reference_issue(i, structs)));
            }
            i += 1;
        }
        proof {
            assert(module@.instructions.take(i as int) =~= module@.instructions);
            program@.modules.lemma_flat_map_take_append(
                |m: NormalizedModuleView| module_reference_issues(m, structs),
                m as int,
            );
            assert(issue_views(issues@) =~= issue_views(old(issues)@) + program@.modules.take(
                m + 1,
            ).flat_map(|m: NormalizedModuleView| module_reference_issues(m, structs)));
        }
        m += 1;
    }
    assert(program@.modules.take(m as int) =~= program@.modules);
}

/// The third scan: the fields without a type.
pub fn validate_field_types(program: &NormalizedProgram, issues: &mut Vec<ValidationIssue>)
    ensures
        issue_views(final(issues)@) == issue_views(old(issues)@) + field_type_issues(program@),
{
    let mut a: usize = 0;
    assert(issue_views(issues@) =~= issue_views(old(issues)@) + all_struct_type_issues(
        program@.account_structs.take(0),
    ));
    while a < program.account_structs.len()
        invariant
            a <= program.account_structs.len(),
            issue_views(issues@) == issue_views(old(issues)@) + all_struct_type_issues(
                program@.account_structs.take(a as int),
            ),
        decreases program.account_structs.len() - a,
    {
        let account = &program.account_structs[a];
        let ghost before = issue_views(issues@);
        let mut f: usize = 0;
        assert(account@ == program@.account_structs[a as int]);
        assert(issue_views(issues@) =~= before + struct_type_issues(
            (NormalizedAccountStructView { fields: account@.fields.take(0), ..account@ }),
        ));
        while f < account.fields.len()
            invariant
                f <= account.fields.len(),
                issue_views(issues@) == before + account@.fields.take(f as int).flat_map(
                    |f: NormalizedAccountFieldView| field_type_issue(account@.name, f),
                ),
            decreases account.fields.len() - f,
        {
            let field = &account.fields[f];
            let ghost inner = issue_views(issues@);
            if field.ty.as_str().is_empty() {
                record(
                    issues,
                    IssueSeverity::Warning,
                    join(
                        "Field ",
                        field.name.as_str(),
                        " in account ",
                        account.name.as_str(),
                        " has no type information",
                    ),
                    join(account.name.as_str(), ".", field.name.as_str(), "", ""),
                );
                proof {
                    reveal_strlit("");
                    assert(field_element(account@.name, field@.name) =~= field_element(
                        account@.name,
                        field@.name,
                    ) + ""@ + ""@);
                }
            }
            proof {
                assert(account@.fields[f as int] == field@);
                account@.fields.lemma_flat_map_take_append(
                    |f: NormalizedAccountFieldView| field_type_issue(account@.name, f),
                    f as int,
                );
                assert(issue_views(issues@) =~= inner + field_type_issue(account@.name, field@));
                assert(issue_views(issues@) =~= before + account@.fields.take(f + 1).flat_map(
                    |f: NormalizedAccountFieldView| field_type_issue(account@.name, f),
                ));
            }
            f += 1;
        }
        proof {
            assert(account@.fields.take(f as int) =~= account@.fields);
            program@.account_structs.lemma_flat_map_take_append(
                |a: NormalizedAccountStructView| struct_type_issues(a),
                a as int,
            );
            assert(issue_views(issues@) =~= issue_views(old(issues)@) + all_struct_type_issues(
                program@.account_structs.take(a + 1),
            ));
        }
        a += 1;
    }
    assert(program@.account_structs.take(a as int) =~= program@.account_structs);
    let ghost middle = issue_views(issues@);
    let mut a: usize = 0;
    assert(issue_views(issues@) =~= middle + all_raw_account_type_issues(
        program@.raw_accounts.take(0),
    ));
    while a < program.raw_accounts.len()
        invariant
            a <= program.raw_accounts.len(),
            issue_views(issues@) == middle + all_raw_account_type_issues(
                program@.raw_accounts.take(a as int),
            ),
        decreases program.raw_accounts.len() - a,
    {
        let account = &program.raw_accounts[a];
        let ghost before = issue_views(issues@);
        let mut f: usize = 0;
        assert(account@ == program@.raw_accounts[a as int]);
        assert(issue_views(issues@) =~= before + raw_account_type_issues(
            (NormalizedRawAccountView { fields: account@.fields.take(0), ..account@ }),
        ));
        while f < account.fields.len()
            invariant
                f <= account.fields.len(),
                issue_views(issues@) == before + account@.fields.take(f as int).flat_map(
                    |f: NormalizedRawFieldView| raw_field_type_issue(account@.name, f),
                ),
            decreases account.fields.len() - f,
        {
            let field = &account.fields[f];
            let ghost inner = issue_views(issues@);
            if field.ty.as_str().is_empty() {
                record(
                    issues,
                    IssueSeverity::Warning,
                    join(
                        "Field ",
                        field.name.as_str(),
                        " in raw account ",
                        account.name.as_str(),
                        " has no type information",
                    ),
                    join(account.name.as_str(), ".", field.name.as_str(), "", ""),
                );
                proof {
                    reveal_strlit("");
                    assert(field_element(account@.name, field@.name) =~= field_element(
                        account@.name,
                        field@.name,
                    ) + ""@ + ""@);
                }
            }
            proof {
                assert(account@.fields[f as int] == field@);
                account@.fields.lemma_flat_map_take_append(
                    |f: NormalizedRawFieldView| raw_field_type_issue(account@.name, f),
                    f as int,
                );
                assert(issue_views(issues@) =~= inner + raw_field_type_issue(
                    account@.name,
                    field@,
                ));
                assert(issue_views(issues@) =~= before + account@.fields.take(f + 1).flat_map(
                    |f: NormalizedRawFieldView| raw_field_type_issue(account@.name, f),
                ));
            }
            f += 1;
        }
        proof {
            assert(account@.fields.take(f as int) =~= account@.fields);
            program@.raw_accounts.lemma_flat_map_take_append(
                |a: NormalizedRawAccountView| raw_account_type_issues(a),
                a as int,
            );
            assert(issue_views(issues@) =~= middle + all_raw_account_type_issues(
                program@.raw_accounts.take(a + 1),
            ));
        }
        a += 1;
    }
    assert(program@.raw_accounts.take(a as int) =~= program@.raw_accounts);
    assert(issue_views(issues@) =~= issue_views(old(issues)@) + field_type_issues(program@));
}

/// The fourth scan: the instructions that are not public.
pub fn validate_visibility(program: &NormalizedProgram, issues: &mut Vec<ValidationIssue>)
    ensures
        issue_views(final(issues)@) == issue_views(old(issues)@) + visibility_issues(program@),
{
    let mut m: usize = 0;
    assert(issue_views(issues@) =~= issue_views(old(issues)@) + visibility_issues(
        (NormalizedProgramView { modules: program@.modules.take(0), ..program@ }),
    ));
    while m < program.modules.len()
        invariant
            m <= program.modules.len(),
            issue_views(issues@) == issue_views(old(issues)@) + program@.modules.take(
                m as int,
            ).flat_map(|m: NormalizedModuleView| module_visibility_issues(m)),
        decreases program.modules.len() - m,
    {
        let module = &program.modules[m];
        let ghost before = issue_views(issues@);
        let mut i: usize = 0;
        assert(module@ == program@.modules[m as int]);
        assert(issue_views(issues@) =~= before + module_visibility_issues(
            (NormalizedModuleView { instructions: module@.instructions.take(0), ..module@ }),
        ));
        while i < module.instructions.len()
            invariant
                i <= module.instructions.len(),
                issue_views(issues@) == before + module@.instructions.take(i as int).flat_map(
                    |i: NormalizedInstructionView| visibility_issue(i),
                ),
            decreases module.instructions.len() - i,
        {
            let instruction = &module.instructions[i];
            let ghost inner = issue_views(issues@);
            if !same_text(instruction.visibility.as_str(), "pub") {
                record(
                    issues,
                    IssueSeverity::Info,
                    join(
                        "Instruction ",
                        instruction.name.as_str(),
                        " has non-public visibility: ",
                        instruction.visibility.as_str(),
                        "",
                    ),
                    instruction.name.clone(),
                );
                proof {
                    reveal_strlit("");
                    assert(visibility_message(instruction@.name, instruction@.visibility)
                        =~= visibility_message(instruction@.name, instruction@.visibility) + ""@);
                }
            }
            proof {
                assert(module@.instructions[i as int] == instruction@);
                module@.instructions.lemma_flat_map_take_append(
                    |i: NormalizedInstructionView| visibility_issue(i),
                    i as int,
                );
                assert(issue_views(issues@) =~= inner + visibility_issue(instruction@));
                assert(issue_views(issues@) =~= before + module@.instructions.take(
                    i + 1,
                ).flat_map(|i: NormalizedInstructionView| visibility_issue(i)));
            }
            i += 1;
        }
        proof {
            assert(module@.instructions.take(i as int) =~= module@.instructions);
            program@.modules.lemma_flat_map_take_append(
                |m: NormalizedModuleView| module_visibility_issues(m),
                m as int,
            );
            assert(issue_views(issues@) =~= issue_views(old(issues)@) + program@.modules.take(
                m + 1,
            ).flat_map(|m: NormalizedModuleView| module_visibility_issues(m)));
        }
        m += 1;
    }
    assert(program@.modules.take(m as int) =~= program@.modules);
}

/// Validates `program`: appends to its issues those of the four scans, in
/// their order. It never fails.
pub fn validate_program(program: &mut NormalizedProgram) -> (r: Result<(), NormalizationError>)
    ensures
        r.is_ok(),
        final(program)@ == validated(old(program)@),
{
    let mut issues: Vec<ValidationIssue> = Vec::new();
    assert(issue_views(issues@) =~= Seq::empty());
    validate_unique_account_names(program, &mut issues);
    validate_instruction_references(program, &mut issues);
    validate_field_types(program, &mut issues);
    validate_visibility(program, &mut issues);
    assert(issue_views(issues@) =~= validation_issues(program@));
    append_issues(program, issues);
    Ok(())
}

/// Appends `issues` to the issues of `program`.
fn append_issues(program: &mut NormalizedProgram, issues: Vec<ValidationIssue>)
    ensures
        final(program)@ == (NormalizedProgramView {
            validation_issues: old(program)@.validation_issues + issue_views(issues@),
            ..old(program)@
        }),
{
    let mut issues = issues;
    let ghost added = issue_views(issues@);
    program.validation_issues.append(&mut issues);
    assert(program@.validation_issues =~= old(program)@.validation_issues + added);
}

} // verus!
