use stylusport::model::{
    Account, AccountField, Constraint, Instruction, Parameter, Program, ProgramModule, RawAccount,
    RawAccountField,
};
use stylusport::normalization::instruction::extract_context_type;
use stylusport::normalization::inference::{
    infer_missing_semantics, infer_operations_from_account,
};
use stylusport::normalization::program::{
    clock_program_id_text, extract_program_name, generate_program_id,
    link_instructions_to_accounts,
};
use stylusport::normalization::validation::validate_program;
use stylusport::{
    normalize, BasicOperation, InstructionBody, IssueSeverity, NormalizationError,
    NormalizedAccountField, NormalizedAccountStruct, NormalizedConstraint, NormalizedInstruction,
    NormalizedModule, NormalizedParameter, NormalizedProgram, NormalizedRawAccount,
    NormalizedRawField, ParseError, ValidationIssue,
};

fn hello_world() -> Program {
    let mut program = Program::new();
    let mut module = ProgramModule::new("hello_world", "pub");
    let mut instruction = Instruction::new("initialize", "pub");
    instruction.add_parameter(Parameter::new_context("ctx", "Initialize"));
    instruction.set_return_type("Result<()>");
    instruction.set_context_type("Initialize");
    module.add_instruction(instruction);
    program.add_program_module(module);
    program.add_account_struct(Account::new("Initialize", "pub"));
    program
}

fn token_program() -> Program {
    let mut program = Program::new();
    let mut module = ProgramModule::new("token_program", "pub");
    module.add_instruction(
        Instruction::new("initialize", "pub")
            .with_parameter(Parameter::new_context("ctx", "Initialize"))
            .with_context_type("Initialize"),
    );
    module.add_instruction(
        Instruction::new("transfer", "pub")
            .with_parameter(Parameter::new_context("ctx", "Transfer"))
            .with_parameter(Parameter::new("amount", "u64", false))
            .with_context_type("Transfer"),
    );
    program.add_program_module(module);

    let initialize = Account::new("Initialize", "pub")
        .with_field(AccountField::new("authority", "Signer<'info>"))
        .with_field(
            AccountField::new("mint", "Account<'info,Mint>")
                .with_constraint(Constraint::without_value("init"))
                .with_constraint(Constraint::with_value("payer", "authority"))
                .with_constraint(Constraint::with_value("space", "8 + 32")),
        )
        .with_field(AccountField::new("system_program", "Program<'info,System>"));
    let transfer = Account::new("Transfer", "pub")
        .with_field(
            AccountField::new("authority", "Signer<'info>")
                .with_constraint(Constraint::without_value("signer")),
        )
        .with_field(
            AccountField::new("from", "Account<'info,TokenAccount>")
                .with_constraint(Constraint::without_value("mut"))
                .with_constraint(Constraint::with_value("has_one", "authority")),
        )
        .with_field(
            AccountField::new("to", "Account<'info,TokenAccount>")
                .with_constraint(Constraint::without_value("mut")),
        );
    program.add_account_struct(initialize);
    program.add_account_struct(transfer);
    program.add_raw_account(
        RawAccount::new("TokenAccount", "pub")
            .with_field(RawAccountField::new("owner", "Pubkey", "pub"))
            .with_field(RawAccountField::new("amount", "u64", "pub")),
    );
    program
}

fn issues_of(program: &NormalizedProgram) -> Vec<(IssueSeverity, String, String)> {
    program
        .validation_issues
        .iter()
        .map(|i| (i.severity, i.message.clone(), i.element.clone()))
        .collect()
}

fn constraints_of(field: &NormalizedAccountField) -> Vec<(String, Option<String>, bool)> {
    field
        .constraints
        .iter()
        .map(|c| (c.constraint_type.clone(), c.value.clone(), c.is_inferred))
        .collect()
}

fn operations_of(instruction: &NormalizedInstruction) -> Vec<String> {
    match &instruction.body {
        Some(InstructionBody::Basic(ops)) => ops.iter().map(|op| format!("{:?}", op)).collect(),
        Some(InstructionBody::Unknown) => vec!["unknown".to_string()],
        None => vec!["none".to_string()],
    }
}

fn constraint(name: &str, value: Option<&str>, inferred: bool) -> (String, Option<String>, bool) {
    (name.to_string(), value.map(|v| v.to_string()), inferred)
}

#[test]
fn hello_world_is_normalized_without_issues_on_its_references() {
    let normalized = normalize(&hello_world()).unwrap();
    assert_eq!(normalized.name, "hello_world");
    assert_eq!(normalized.id, "program:hello_world");
    assert_eq!(normalized.schema_version, "1.0");
    assert_eq!(normalized.modules.len(), 1);
    assert_eq!(normalized.account_structs.len(), 1);
    assert_eq!(normalized.raw_accounts.len(), 0);
    assert!(normalized.source_info.is_none());
    assert!(normalized.documentation.is_none());
    assert!(normalized
        .validation_issues
        .iter()
        .all(|i| i.severity != IssueSeverity::Warning));
    assert_eq!(issues_of(&normalized), vec![]);
    let instruction = &normalized.modules[0].instructions[0];
    assert_eq!(
        instruction.account_struct_name,
        Some("Initialize".to_string())
    );
    assert_eq!(operations_of(instruction), vec!["unknown".to_string()]);
}

#[test]
fn token_program_gets_operations_and_inferred_constraints() {
    let normalized = normalize(&token_program()).unwrap();
    let module = &normalized.modules[0];

    let initialize = module.find_instruction("initialize").unwrap();
    match &initialize.body {
        Some(InstructionBody::Basic(ops)) => {
            assert_eq!(ops.len(), 1);
            match &ops[0] {
                BasicOperation::Initialize { target, payer } => {
                    assert_eq!(target, "mint");
                    assert_eq!(payer, "authority");
                }
                other => panic!("unexpected operation {:?}", other),
            }
        }
        other => panic!("unexpected body {:?}", other),
    }

    let transfer = module.find_instruction("transfer").unwrap();
    match &transfer.body {
        Some(InstructionBody::Basic(ops)) => {
            assert_eq!(ops.len(), 1);
            match &ops[0] {
                BasicOperation::Transfer { from, to } => {
                    assert_eq!(from, "from");
                    assert_eq!(to, "to");
                }
                other => panic!("unexpected operation {:?}", other),
            }
        }
        other => panic!("unexpected body {:?}", other),
    }

    let accounts = normalized.find_account_struct("Initialize").unwrap();
    let mint = accounts.find_field("mint").unwrap();
    assert_eq!(
        constraints_of(mint),
        vec![
            constraint("init", None, false),
            constraint("payer", Some("authority"), false),
            constraint("space", Some("8 + 32"), false),
            constraint("mut", None, true),
        ]
    );
    assert!(mint.inferred_info.is_initialized);
    assert!(mint.inferred_info.requires_mut);
    assert!(!mint.inferred_info.requires_signer);
    assert_eq!(
        mint.inferred_info.related_account,
        Some("authority".to_string())
    );

    let authority = accounts.find_field("authority").unwrap();
    assert_eq!(
        constraints_of(authority),
        vec![constraint("signer", None, true)]
    );
    assert!(authority.inferred_info.requires_signer);

    let system_program = accounts.find_field("system_program").unwrap();
    assert_eq!(constraints_of(system_program), vec![]);

    // An explicit `signer` is not inferred a second time.
    let transfer_accounts = normalized.find_account_struct("Transfer").unwrap();
    assert_eq!(
        constraints_of(transfer_accounts.find_field("authority").unwrap()),
        vec![constraint("signer", None, false)]
    );
    // `has_one = authority` relates `from` to `authority`.
    assert_eq!(
        transfer_accounts
            .find_field("from")
            .unwrap()
            .inferred_info
            .related_account,
        Some("authority".to_string())
    );
    assert_eq!(
        transfer_accounts
            .find_field("to")
            .unwrap()
            .inferred_info
            .related_account,
        None
    );
}

#[test]
fn signer_is_inferred_for_the_three_names_only() {
    let mut program = Program::new();
    program.add_program_module(ProgramModule::new("m", "pub"));
    program.add_account_struct(
        Account::new("A", "pub")
            .with_field(AccountField::new("authority", "Signer<'info>"))
            .with_field(AccountField::new("owner", "Box<Signer<'info>>"))
            .with_field(AccountField::new("admin", "Signer"))
            .with_field(AccountField::new("user", "Signer<'info>"))
            .with_field(AccountField::new("authority2", "Signer<'info>"))
            .with_field(AccountField::new("Authority", "Signer<'info>")),
    );
    program.add_account_struct(
        Account::new("B", "pub")
            .with_field(AccountField::new("authority", "AccountInfo<'info>"))
            .with_field(AccountField::new("owner", "signer")),
    );
    let normalized = normalize(&program).unwrap();
    let a = &normalized.account_structs[0];
    let inferred: Vec<bool> = a
        .fields
        .iter()
        .map(|f| f.find_constraint("signer").is_some())
        .collect();
    assert_eq!(inferred, vec![true, true, true, false, false, false]);
    let b = &normalized.account_structs[1];
    assert!(b.fields.iter().all(|f| f.constraints.is_empty()));
}

#[test]
fn duplicate_names_are_errors() {
    let mut program = hello_world();
    program.add_account_struct(Account::new("Initialize", "pub"));
    program.add_account_struct(Account::new("Other", "pub"));
    program.add_account_struct(Account::new("Initialize", ""));
    program.add_raw_account(RawAccount::new("Vault", "pub"));
    program.add_raw_account(RawAccount::new("Other", "pub"));
    program.add_raw_account(RawAccount::new("Vault", "pub"));
    let normalized = normalize(&program).unwrap();
    assert_eq!(
        issues_of(&normalized),
        vec![
            (
                IssueSeverity::Error,
                "Duplicate account struct name: Initialize".to_string(),
                "Initialize".to_string()
            ),
            (
                IssueSeverity::Error,
                "Duplicate account struct name: Initialize".to_string(),
                "Initialize".to_string()
            ),
            (
                IssueSeverity::Error,
                "Duplicate account name: Other".to_string(),
                "Other".to_string()
            ),
            (
                IssueSeverity::Error,
                "Duplicate account name: Vault".to_string(),
                "Vault".to_string()
            ),
        ]
    );
}

#[test]
fn a_reference_to_an_undeclared_struct_is_a_warning() {
    let mut program = Program::new();
    let mut module = ProgramModule::new("test_program", "pub");
    module.add_instruction(
        Instruction::new("initialize", "pub")
            .with_parameter(Parameter::new_context("ctx", "NonExistentStruct"))
            .with_context_type("NonExistentStruct"),
    );
    program.add_program_module(module);
    let normalized = normalize(&program).unwrap();
    assert_eq!(
        issues_of(&normalized),
        vec![(
            IssueSeverity::Warning,
            "Instruction initialize references undefined account struct NonExistentStruct"
                .to_string(),
            "initialize".to_string()
        )]
    );
}

#[test]
fn a_context_without_a_struct_is_a_warning() {
    let mut program = Program::new();
    let mut module = ProgramModule::new("test_program", "pub");
    module.add_instruction(
        Instruction::new("initialize", "pub").with_parameter(Parameter::new("ctx", "Context", true)),
    );
    program.add_program_module(module);
    let normalized = normalize(&program).unwrap();
    assert_eq!(
        normalized.modules[0].instructions[0].account_struct_name,
        None
    );
    assert_eq!(
        issues_of(&normalized),
        vec![(
            IssueSeverity::Warning,
            "Instruction initialize has Context parameter but no associated account struct"
                .to_string(),
            "initialize".to_string()
        )]
    );
}

#[test]
fn the_four_scans_report_in_their_order() {
    let mut program = Program::new();
    let mut module = ProgramModule::new("m", "pub");
    module.add_instruction(
        Instruction::new("first", "")
            .with_parameter(Parameter::new_context("ctx", "Missing"))
            .with_context_type("Missing"),
    );
    module.add_instruction(Instruction::new("second", "pub(crate)"));
    program.add_program_module(module);
    program.add_account_struct(
        Account::new("Accounts", "pub")
            .with_field(AccountField::new("typed", "u8"))
            .with_field(AccountField::new("untyped", "")),
    );
    program.add_account_struct(Account::new("Accounts", "pub"));
    program.add_raw_account(
        RawAccount::new("Raw", "pub").with_field(RawAccountField::new("blank", "", "pub")),
    );
    let normalized = normalize(&program).unwrap();
    assert_eq!(
        issues_of(&normalized),
        vec![
            (
                IssueSeverity::Error,
                "Duplicate account struct name: Accounts".to_string(),
                "Accounts".to_string()
            ),
            (
                IssueSeverity::Warning,
                "Instruction first references undefined account struct Missing".to_string(),
                "first".to_string()
            ),
            (
                IssueSeverity::Warning,
                "Field untyped in account Accounts has no type information".to_string(),
                "Accounts.untyped".to_string()
            ),
            (
                IssueSeverity::Warning,
                "Field blank in raw account Raw has no type information".to_string(),
                "Raw.blank".to_string()
            ),
            (
                IssueSeverity::Info,
                "Instruction first has non-public visibility: ".to_string(),
                "first".to_string()
            ),
            (
                IssueSeverity::Info,
                "Instruction second has non-public visibility: pub(crate)".to_string(),
                "second".to_string()
            ),
        ]
    );
}

#[test]
fn validation_appends_to_the_issues_that_are_there() {
    let mut normalized = NormalizedProgram::new("program:x", "x");
    normalized.add_validation_issue(ValidationIssue::info("kept", "x"));
    let mut module = NormalizedModule::new("m", "pub");
    module.add_instruction(NormalizedInstruction::new("hidden", ""));
    normalized.add_module(module);
    validate_program(&mut normalized).unwrap();
    assert_eq!(
        issues_of(&normalized),
        vec![
            (IssueSeverity::Info, "kept".to_string(), "x".to_string()),
            (
                IssueSeverity::Info,
                "Instruction hidden has non-public visibility: ".to_string(),
                "hidden".to_string()
            ),
        ]
    );
}

#[test]
fn normalization_gives_the_same_result_twice() {
    for program in [hello_world(), token_program()] {
        let first = normalize(&program).unwrap();
        let second = normalize(&program.clone()).unwrap();
        assert_eq!(format!("{:?}", first), format!("{:?}", second));
    }
}

#[test]
fn inference_adds_nothing_the_second_time() {
    let mut normalized = normalize(&token_program()).unwrap();
    let before = format!("{:?}", normalized);
    infer_missing_semantics(&mut normalized).unwrap();
    assert_eq!(format!("{:?}", normalized), before);
    infer_missing_semantics(&mut normalized).unwrap();
    assert_eq!(format!("{:?}", normalized), before);
}

#[test]
fn the_order_of_the_source_is_kept() {
    let mut program = Program::new();
    for module_name in ["zeta", "alpha", "mid"] {
        let mut module = ProgramModule::new(module_name, "pub");
        for instruction_name in ["c", "a", "b"] {
            module.add_instruction(
                Instruction::new(instruction_name, "pub")
                    .with_parameter(Parameter::new("y", "u8", false))
                    .with_parameter(Parameter::new("x", "u8", false)),
            );
        }
        program.add_program_module(module);
    }
    for struct_name in ["S2", "S1"] {
        program.add_account_struct(
            Account::new(struct_name, "pub")
                .with_field(
                    AccountField::new("owner", "Signer<'info>")
                        .with_constraint(Constraint::with_value("seeds", "[a, b]"))
                        .with_constraint(Constraint::without_value("init"))
                        .with_constraint(Constraint::without_value("bump")),
                )
                .with_field(AccountField::new("b", "u8"))
                .with_field(AccountField::new("a", "u8")),
        );
    }
    for raw_name in ["R2", "R1"] {
        program.add_raw_account(
            RawAccount::new(raw_name, "pub")
                .with_field(RawAccountField::new("y", "u8", "pub"))
                .with_field(RawAccountField::new("x", "u8", "")),
        );
    }
    let normalized = normalize(&program).unwrap();
    assert_eq!(normalized.name, "zeta");
    let modules: Vec<&str> = normalized.modules.iter().map(|m| m.name.as_str()).collect();
    assert_eq!(modules, vec!["zeta", "alpha", "mid"]);
    for module in &normalized.modules {
        let names: Vec<&str> = module.instructions.iter().map(|i| i.name.as_str()).collect();
        assert_eq!(names, vec!["c", "a", "b"]);
        for instruction in &module.instructions {
            let params: Vec<&str> = instruction
                .parameters
                .iter()
                .map(|p| p.name.as_str())
                .collect();
            assert_eq!(params, vec!["y", "x"]);
        }
    }
    let structs: Vec<&str> = normalized
        .account_structs
        .iter()
        .map(|a| a.name.as_str())
        .collect();
    assert_eq!(structs, vec!["S2", "S1"]);
    for account in &normalized.account_structs {
        let fields: Vec<&str> = account.fields.iter().map(|f| f.name.as_str()).collect();
        assert_eq!(fields, vec!["owner", "b", "a"]);
        assert_eq!(
            constraints_of(&account.fields[0]),
            vec![
                constraint("seeds", Some("[a, b]"), false),
                constraint("init", None, false),
                constraint("bump", None, false),
                constraint("signer", None, true),
                constraint("mut", None, true),
            ]
        );
    }
    let raws: Vec<&str> = normalized
        .raw_accounts
        .iter()
        .map(|a| a.name.as_str())
        .collect();
    assert_eq!(raws, vec!["R2", "R1"]);
    for raw in &normalized.raw_accounts {
        let fields: Vec<(&str, &str)> = raw
            .fields
            .iter()
            .map(|f| (f.name.as_str(), f.visibility.as_str()))
            .collect();
        assert_eq!(fields, vec![("y", "pub"), ("x", "")]);
    }
}

#[test]
fn a_program_without_a_name_is_the_one_error() {
    let program = Program::new();
    match normalize(&program) {
        Err(NormalizationError::MissingInfo(message)) => {
            assert_eq!(message, "Could not determine program name");
        }
        other => panic!("unexpected result {:?}", other),
    }
    match extract_program_name(&Program::new().with_source_path("src/..")) {
        Err(NormalizationError::MissingInfo(message)) => {
            assert_eq!(message, "Could not determine program name");
        }
        other => panic!("unexpected result {:?}", other),
    }
    assert!(normalize(&Program::new().with_source_path("")).is_err());
}

#[test]
fn the_name_comes_from_the_source_path_where_there_is_no_module() {
    let program = Program::new()
        .with_source_path("programs/token_vault/src/lib.rs")
        .with_account_struct(Account::new("Initialize", "pub"));
    let normalized = normalize(&program).unwrap();
    assert_eq!(normalized.name, "lib");
    assert_eq!(normalized.id, "program:programs/token_vault/src/lib.rs");
    let source_info = normalized.source_info.as_ref().unwrap();
    assert_eq!(source_info.file_path, "programs/token_vault/src/lib.rs");
    assert_eq!(source_info.line_range, None);
}

#[test]
fn the_first_module_names_the_program() {
    let program = Program::new()
        .with_source_path("src/lib.rs")
        .with_program_module(ProgramModule::new("first", "pub"))
        .with_program_module(ProgramModule::new("second", "pub"));
    let normalized = normalize(&program).unwrap();
    assert_eq!(normalized.name, "first");
    assert_eq!(normalized.id, "program:src/lib.rs");
    assert_eq!(issues_of(&normalized), vec![]);
    assert_eq!(extract_program_name(&program).unwrap(), "first");
}

#[test]
fn the_identifier_of_a_program() {
    assert_eq!(generate_program_id(&hello_world()), "program:hello_world");
    assert_eq!(
        generate_program_id(&hello_world().with_source_path("a/b.rs")),
        "program:a/b.rs"
    );
    let fallback = generate_program_id(&Program::new());
    let digits = fallback.strip_prefix("program:").unwrap();
    let seconds: i64 = digits.parse().unwrap();
    assert!(seconds > 1_600_000_000);
    assert_eq!(clock_program_id_text(0), "program:0");
    assert_eq!(clock_program_id_text(1700000000), "program:1700000000");
    assert_eq!(clock_program_id_text(-5), "program:-5");
}

fn linked(instruction: NormalizedInstruction) -> Option<String> {
    let mut program = NormalizedProgram::new("program:x", "x");
    let mut module = NormalizedModule::new("m", "pub");
    module.add_instruction(instruction);
    program.add_module(module);
    link_instructions_to_accounts(&mut program).unwrap();
    program.modules[0].instructions[0].account_struct_name.clone()
}

#[test]
fn linking_takes_the_first_context_parameter() {
    let mut one = NormalizedInstruction::new("one", "pub");
    one.add_parameter(NormalizedParameter::new("amount", "u64", false));
    one.add_parameter(NormalizedParameter::new_context("ctx", "Deposit"));
    assert_eq!(linked(one), Some("Deposit".to_string()));

    let mut two = NormalizedInstruction::new("two", "pub");
    two.add_parameter(NormalizedParameter::new_context("a", "First"));
    two.add_parameter(NormalizedParameter::new_context("b", "Second"));
    assert_eq!(linked(two), Some("First".to_string()));

    // The first context names no struct: the instruction stays unlinked.
    let mut three = NormalizedInstruction::new("three", "pub");
    three.add_parameter(NormalizedParameter::new("a", "Context", true));
    three.add_parameter(NormalizedParameter::new_context("b", "Second"));
    assert_eq!(linked(three), None);

    // A reference that is set is never overwritten.
    let mut four = NormalizedInstruction::new("four", "pub").with_account_struct("Kept");
    four.add_parameter(NormalizedParameter::new_context("ctx", "Other"));
    assert_eq!(linked(four), Some("Kept".to_string()));

    // Only a parameter that is marked as a context counts.
    let mut five = NormalizedInstruction::new("five", "pub");
    five.add_parameter(NormalizedParameter::new("ctx", "Context<Deposit>", false));
    assert_eq!(linked(five), None);

    let mut six = NormalizedInstruction::new("six", "pub");
    six.add_parameter(NormalizedParameter::new("ctx", "&mut Context< Deposit >", true));
    assert_eq!(linked(six), Some("Deposit".to_string()));

    let mut seven = NormalizedInstruction::new("seven", "pub");
    seven.add_parameter(NormalizedParameter::new("ctx", "Context<>", true));
    assert_eq!(linked(seven), None);
}

#[test]
fn context_type_of_a_type_text() {
    assert_eq!(
        extract_context_type("Context<Initialize>"),
        Some("Initialize".to_string())
    );
    assert_eq!(
        extract_context_type("Context<  Initialize >"),
        Some("Initialize".to_string())
    );
    assert_eq!(extract_context_type("Context<>"), Some("".to_string()));
    assert_eq!(
        extract_context_type("Context<Wrapper<Inner>>"),
        Some("Wrapper<Inner>".to_string())
    );
    assert_eq!(extract_context_type("Context"), None);
    assert_eq!(extract_context_type("Context<"), None);
    assert_eq!(extract_context_type("&Context<Initialize>"), None);
    assert_eq!(extract_context_type("Foo<Initialize>"), None);
    assert_eq!(extract_context_type(""), None);

    assert_eq!(
        stylusport::normalization::program::extract_context_type("&Context< Initialize >"),
        Some("Initialize".to_string())
    );
    assert_eq!(stylusport::normalization::program::extract_context_type("Foo<A<B>>"), Some("A<B>".to_string()));
    assert_eq!(stylusport::normalization::program::extract_context_type("Context<>"), None);
    assert_eq!(stylusport::normalization::program::extract_context_type("Context< >"), Some("".to_string()));
    assert_eq!(stylusport::normalization::program::extract_context_type("Context"), None);
    assert_eq!(stylusport::normalization::program::extract_context_type(">x<"), None);
}

fn account_with(fields: Vec<NormalizedAccountField>) -> NormalizedAccountStruct {
    let mut account = NormalizedAccountStruct::new("Accounts", "pub");
    for field in fields {
        account.add_field(field);
    }
    account
}

fn field_with(name: &str, ty: &str, constraints: &[(&str, Option<&str>)]) -> NormalizedAccountField {
    let mut field = NormalizedAccountField::new(name, ty);
    for (kind, value) in constraints {
        field.add_constraint(NormalizedConstraint::new(*kind, *value, false));
    }
    field
}

#[test]
fn operations_follow_the_name_and_the_accounts() {
    let account = account_with(vec![
        field_with("vault", "Account", &[("init", None)]),
        field_with("from", "Account", &[]),
        field_with("other", "Account", &[("close", None), ("init", None), ("payer", None)]),
        field_with("to", "Account", &[("close", Some("receiver"))]),
        field_with(
            "mint",
            "Account",
            &[("payer", Some("first")), ("init", None), ("payer", Some("second"))],
        ),
    ]);
    let initialized = vec![
        "Initialize { target: \"vault\", payer: \"payer\" }".to_string(),
        "Initialize { target: \"other\", payer: \"payer\" }".to_string(),
        "Initialize { target: \"mint\", payer: \"first\" }".to_string(),
    ];
    let ops = |name: &str| -> Vec<String> {
        infer_operations_from_account(&NormalizedInstruction::new(name, "pub"), &account)
            .iter()
            .map(|op| format!("{:?}", op))
            .collect()
    };
    for name in ["initialize", "init", "create", "anything", "Transfer", ""] {
        assert_eq!(ops(name), initialized, "instruction {:?}", name);
    }
    for name in ["transfer", "send"] {
        let mut expected = initialized.clone();
        expected.push("Transfer { from: \"from\", to: \"to\" }".to_string());
        assert_eq!(ops(name), expected);
    }
    let mut expected = initialized.clone();
    expected.push("Close { target: \"other\", refund_to: \"authority\" }".to_string());
    assert_eq!(ops("close"), expected);

    let closing = account_with(vec![
        field_with("a", "Account", &[]),
        field_with("b", "Account", &[("close", Some("receiver")), ("close", Some("late"))]),
    ]);
    let closed: Vec<String> =
        infer_operations_from_account(&NormalizedInstruction::new("close", "pub"), &closing)
            .iter()
            .map(|op| format!("{:?}", op))
            .collect();
    assert_eq!(
        closed,
        vec!["Close { target: \"b\", refund_to: \"receiver\" }".to_string()]
    );

    let only_from = account_with(vec![field_with("from", "Account", &[])]);
    assert!(
        infer_operations_from_account(&NormalizedInstruction::new("transfer", "pub"), &only_from)
            .is_empty()
    );
}

#[test]
fn operations_that_are_there_are_kept() {
    let mut program = NormalizedProgram::new("program:x", "x");
    let mut module = NormalizedModule::new("m", "pub");
    module.add_instruction(
        NormalizedInstruction::new("initialize", "pub")
            .with_account_struct("Accounts")
            .with_body(InstructionBody::Basic(vec![BasicOperation::Log(
                "hello".to_string(),
            )])),
    );
    module.add_instruction(NormalizedInstruction::new("initialize", "pub").with_account_struct("Accounts"));
    module.add_instruction(NormalizedInstruction::new("initialize", "pub").with_account_struct("Nowhere"));
    module.add_instruction(NormalizedInstruction::new("initialize", "pub"));
    module.add_instruction(NormalizedInstruction::new("other", "pub").with_account_struct("Empty"));
    program.add_module(module);
    program.add_account_struct(account_with(vec![field_with(
        "vault",
        "Account",
        &[("init", None)],
    )]));
    program.add_account_struct(NormalizedAccountStruct::new("Empty", "pub"));
    infer_missing_semantics(&mut program).unwrap();
    let bodies: Vec<Vec<String>> = program.modules[0]
        .instructions
        .iter()
        .map(operations_of)
        .collect();
    assert_eq!(
        bodies,
        vec![
            vec!["Log(\"hello\")".to_string()],
            vec!["Initialize { target: \"vault\", payer: \"payer\" }".to_string()],
            vec!["unknown".to_string()],
            vec!["unknown".to_string()],
            vec!["unknown".to_string()],
        ]
    );
}

#[test]
fn the_last_relation_wins() {
    let mut program = NormalizedProgram::new("program:x", "x");
    program.add_account_struct(account_with(vec![
        field_with("authority", "Signer", &[]),
        field_with(
            "vault",
            "Account",
            &[
                ("has_one", Some("owner")),
                ("belongs_to", Some("authority")),
                ("has_one", Some("vault")),
                ("has_one", Some("missing")),
                ("has_one", None),
            ],
        ),
        field_with("owner", "Signer", &[("payer", Some("authority"))]),
        field_with("plain", "Account", &[("seeds", Some("owner"))]),
    ]));
    infer_missing_semantics(&mut program).unwrap();
    let related: Vec<Option<String>> = program.account_structs[0]
        .fields
        .iter()
        .map(|f| f.inferred_info.related_account.clone())
        .collect();
    assert_eq!(
        related,
        vec![
            None,
            // `owner` stands behind `authority` among the fields, so it wins.
            Some("owner".to_string()),
            // No relation: what `payer` set stays.
            Some("authority".to_string()),
            None,
        ]
    );
}

#[test]
fn adding_a_constraint_keeps_the_field_information_in_step() {
    let mut field = NormalizedAccountField::new("vault", "Account");
    assert!(!field.inferred_info.requires_mut);
    field.add_constraint(NormalizedConstraint::without_value("mut", false));
    assert!(field.inferred_info.requires_mut);
    assert!(!field.inferred_info.requires_signer);
    field.add_constraint(NormalizedConstraint::without_value("signer", true));
    assert!(field.inferred_info.requires_signer);
    assert!(!field.inferred_info.is_initialized);
    field.add_constraint(NormalizedConstraint::with_value("init", "x", false));
    assert!(field.inferred_info.is_initialized);
    assert_eq!(field.inferred_info.related_account, None);
    field.add_constraint(NormalizedConstraint::without_value("payer", false));
    assert_eq!(field.inferred_info.related_account, None);
    field.add_constraint(NormalizedConstraint::with_value("payer", "first", false));
    field.add_constraint(NormalizedConstraint::with_value("payer", "second", false));
    field.add_constraint(NormalizedConstraint::with_value("seeds", "third", false));
    assert_eq!(
        field.inferred_info.related_account,
        Some("second".to_string())
    );
    assert_eq!(field.constraints.len(), 7);
    assert_eq!(
        field.find_constraint("payer").unwrap().value,
        None
    );
}

#[test]
fn instructions_are_found_across_modules() {
    let mut program = NormalizedProgram::new("program:x", "x");
    let mut first = NormalizedModule::new("first", "pub");
    first.add_instruction(NormalizedInstruction::new("a", "pub"));
    let mut second = NormalizedModule::new("second", "pub");
    second.add_instruction(NormalizedInstruction::new("b", "one"));
    second.add_instruction(NormalizedInstruction::new("a", "hidden"));
    second.add_instruction(NormalizedInstruction::new("b", "two"));
    program.add_module(first);
    program.add_module(second);
    program.add_raw_account(NormalizedRawAccount::new("Raw", "pub"));
    let mut raw = NormalizedRawAccount::new("Other", "");
    raw.add_field(NormalizedRawField::new("x", "u8", "pub"));
    program.add_raw_account(raw);
    assert_eq!(program.find_instruction("a").unwrap().visibility, "pub");
    assert_eq!(program.find_instruction("b").unwrap().visibility, "one");
    assert!(program.find_instruction("c").is_none());
    assert_eq!(program.find_raw_account("Other").unwrap().visibility, "");
    assert!(program
        .find_raw_account("Other")
        .unwrap()
        .find_field("x")
        .is_some());
    assert!(program.find_raw_account("Missing").is_none());
    assert!(program.find_account_struct("Raw").is_none());
}

#[test]
fn errors_in_words() {
    assert_eq!(
        NormalizationError::AstExtraction("a".to_string()).message(),
        "AST extraction error: a"
    );
    assert_eq!(
        NormalizationError::Validation("b".to_string()).message(),
        "Validation error: b"
    );
    assert_eq!(
        NormalizationError::Inference("c".to_string()).message(),
        "Inference error: c"
    );
    assert_eq!(
        NormalizationError::MissingInfo("d".to_string()).message(),
        "Missing information: d"
    );
    assert_eq!(
        NormalizationError::Other("e".to_string()).message(),
        "Normalization error: e"
    );
    assert_eq!(ParseError::Io("f".to_string()).message(), "I/O error: f");
    assert_eq!(
        ParseError::Syntax("g".to_string()).message(),
        "Syntax error: g"
    );
    assert_eq!(
        ParseError::Parse("h".to_string()).message(),
        "Parse error: h"
    );
}

#[test]
fn builders_of_the_normalized_model() {
    let account = NormalizedAccountStruct::new("Accounts", "pub").with_documentation("the accounts");
    assert_eq!(account.name, "Accounts");
    assert_eq!(account.visibility, "pub");
    assert!(account.fields.is_empty());
    assert_eq!(account.documentation, Some("the accounts".to_string()));

    let field = NormalizedAccountField::new("vault", "Account").with_documentation("the vault");
    assert_eq!(field.name, "vault");
    assert_eq!(field.ty, "Account");
    assert!(field.constraints.is_empty());
    assert_eq!(field.documentation, Some("the vault".to_string()));
    assert!(!field.inferred_info.requires_mut);
    assert!(!field.inferred_info.requires_signer);
    assert!(!field.inferred_info.is_initialized);
    assert_eq!(field.inferred_info.related_account, None);
    let info = stylusport::InferredFieldInfo::new();
    assert!(!info.requires_mut && !info.requires_signer && !info.is_initialized);
    assert_eq!(info.related_account, None);

    let with = NormalizedConstraint::with_value("payer", "authority", false);
    assert_eq!(with.constraint_type, "payer");
    assert_eq!(with.value, Some("authority".to_string()));
    assert!(!with.is_inferred);
    let without = NormalizedConstraint::without_value("mut", true);
    assert_eq!(without.value, None);
    assert!(without.is_inferred);
    let either = NormalizedConstraint::new("seeds", None::<String>, false);
    assert_eq!(either.constraint_type, "seeds");
    assert_eq!(either.value, None);

    let raw = NormalizedRawAccount::new("Vault", "").with_documentation("kept on chain");
    assert_eq!(raw.name, "Vault");
    assert_eq!(raw.visibility, "");
    assert_eq!(raw.documentation, Some("kept on chain".to_string()));
    let raw_field = NormalizedRawField::new("bump", "u8", "pub").with_documentation("the bump");
    assert_eq!(raw_field.name, "bump");
    assert_eq!(raw_field.ty, "u8");
    assert_eq!(raw_field.visibility, "pub");
    assert_eq!(raw_field.documentation, Some("the bump".to_string()));

    let instruction = NormalizedInstruction::new("deposit", "pub")
        .with_return_type("Result<()>")
        .with_account_struct("Deposit")
        .with_documentation("puts tokens in");
    assert_eq!(instruction.name, "deposit");
    assert_eq!(instruction.return_type, Some("Result<()>".to_string()));
    assert_eq!(instruction.account_struct_name, Some("Deposit".to_string()));
    assert_eq!(instruction.documentation, Some("puts tokens in".to_string()));
    assert_eq!(operations_of(&instruction), vec!["unknown".to_string()]);
    assert!(!instruction.has_context_parameter());
    assert!(instruction.get_context_parameter().is_none());
    let mut instruction = instruction;
    instruction.add_parameter(NormalizedParameter::new("amount", "u64", false));
    instruction.add_parameter(NormalizedParameter::new_context("ctx", "Deposit"));
    instruction.add_parameter(NormalizedParameter::new_context("late", "Other"));
    assert!(instruction.has_context_parameter());
    let context = instruction.get_context_parameter().unwrap();
    assert_eq!(context.name, "ctx");
    assert_eq!(context.ty, "Context<Deposit>");
    assert!(context.is_context);

    let module = NormalizedModule::new("m", "pub(crate)").with_documentation("the module");
    assert_eq!(module.name, "m");
    assert_eq!(module.visibility, "pub(crate)");
    assert_eq!(module.documentation, Some("the module".to_string()));
    assert!(module.find_instruction("deposit").is_none());

    let source = stylusport::SourceInfo::new("src/lib.rs").with_line_range(3, 14);
    assert_eq!(source.file_path, "src/lib.rs");
    assert_eq!(source.line_range, Some((3, 14)));
    let program = NormalizedProgram::new("program:x", "x").with_source_info(source);
    assert_eq!(program.id, "program:x");
    assert_eq!(program.name, "x");
    assert_eq!(program.schema_version, "1.0");
    assert!(program.modules.is_empty());
    assert!(program.validation_issues.is_empty());
    assert_eq!(program.source_info.unwrap().line_range, Some((3, 14)));

    let issue = ValidationIssue::new(IssueSeverity::Warning, "m", "e");
    assert_eq!(issue.severity, IssueSeverity::Warning);
    assert_eq!(issue.message, "m");
    assert_eq!(issue.element, "e");
    assert_eq!(ValidationIssue::info("m", "e").severity, IssueSeverity::Info);
    assert_eq!(ValidationIssue::warning("m", "e").severity, IssueSeverity::Warning);
    assert_eq!(ValidationIssue::error("m", "e").severity, IssueSeverity::Error);
}
