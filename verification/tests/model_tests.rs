use stylusport::model::{
    Account, AccountField, Constraint, Instruction, Parameter, Program, ProgramModule, RawAccount,
    RawAccountField,
};

#[test]
fn test_account_new() {
    let account = Account::new("MyAccount", "pub");
    assert_eq!(account.name, "MyAccount");
    assert_eq!(account.visibility, "pub");
    assert!(account.fields.is_empty());
}
#[test]
fn test_account_add_field() {
    let mut account = Account::new("MyAccount", "pub");
    let field = AccountField::new("owner", "Pubkey");
    account.add_field(field);

    assert_eq!(account.fields.len(), 1);
    assert_eq!(account.fields[0].name, "owner");
    assert_eq!(account.fields[0].ty, "Pubkey");
}
#[test]
fn test_account_find_field() {
    let mut account = Account::new("MyAccount", "pub");
    account.add_field(AccountField::new("owner", "Pubkey"));
    account.add_field(AccountField::new("amount", "u64"));

    let field = account.find_field("owner");
    assert!(field.is_some());
    assert_eq!(field.unwrap().ty, "Pubkey");

    let field = account.find_field("unknown");
    assert!(field.is_none());
}
#[test]
fn test_account_builder_methods() {
    let field1 = AccountField::new("owner", "Pubkey");
    let field2 = AccountField::new("amount", "u64");

    // Test with_field
    let account = Account::new("MyAccount", "pub")
        .with_field(field1.clone())
        .with_field(field2.clone());

    assert_eq!(account.fields.len(), 2);
    assert_eq!(account.fields[0].name, "owner");
    assert_eq!(account.fields[1].name, "amount");

    // Test with_fields
    let account = Account::new("MyAccount", "pub").with_fields(vec![field1, field2]);

    assert_eq!(account.fields.len(), 2);
    assert_eq!(account.fields[0].name, "owner");
    assert_eq!(account.fields[1].name, "amount");
}
#[test]
fn test_account_field_new() {
    let field = AccountField::new("owner", "Pubkey");
    assert_eq!(field.name, "owner");
    assert_eq!(field.ty, "Pubkey");
    assert!(field.constraints.is_empty());
}
#[test]
fn test_account_field_add_constraint() {
    let mut field = AccountField::new("owner", "Pubkey");
    let constraint = Constraint::new("signer", None::<String>);
    field.add_constraint(constraint);

    assert_eq!(field.constraints.len(), 1);
    assert_eq!(field.constraints[0].constraint_type, "signer");
    assert!(field.constraints[0].value.is_none());
}
#[test]
fn test_account_field_find_constraint() {
    let mut field = AccountField::new("owner", "Pubkey");
    field.add_constraint(Constraint::new("signer", None::<String>));
    field.add_constraint(Constraint::new("init", Some("true")));

    let constraint = field.find_constraint("signer");
    assert!(constraint.is_some());

    let constraint = field.find_constraint("unknown");
    assert!(constraint.is_none());
}
#[test]
fn test_account_field_builder_methods() {
    let constraint1 = Constraint::new("signer", None::<String>);
    let constraint2 = Constraint::new("init", Some("true"));

    // Test with_constraint
    let field = AccountField::new("owner", "Pubkey")
        .with_constraint(constraint1.clone())
        .with_constraint(constraint2.clone());

    assert_eq!(field.constraints.len(), 2);
    assert_eq!(field.constraints[0].constraint_type, "signer");
    assert_eq!(field.constraints[1].constraint_type, "init");

    // Test with_constraints
    let field =
        AccountField::new("owner", "Pubkey").with_constraints(vec![constraint1, constraint2]);

    assert_eq!(field.constraints.len(), 2);
    assert_eq!(field.constraints[0].constraint_type, "signer");
    assert_eq!(field.constraints[1].constraint_type, "init");
}
#[test]
fn test_constraint_new() {
    // Without value
    let constraint = Constraint::new("signer", None::<String>);
    assert_eq!(constraint.constraint_type, "signer");
    assert!(constraint.value.is_none());

    // With value
    let constraint = Constraint::new("init", Some("true"));
    assert_eq!(constraint.constraint_type, "init");
    assert_eq!(constraint.value, Some("true".to_string()));
}
#[test]
fn test_constraint_with_value() {
    let constraint = Constraint::with_value("init", "true");
    assert_eq!(constraint.constraint_type, "init");
    assert_eq!(constraint.value, Some("true".to_string()));
}
#[test]
fn test_constraint_without_value() {
    let constraint = Constraint::without_value("signer");
    assert_eq!(constraint.constraint_type, "signer");
    assert!(constraint.value.is_none());
}
#[test]
fn test_raw_account_new() {
    let account = RawAccount::new("MyAccount", "pub");
    assert_eq!(account.name, "MyAccount");
    assert_eq!(account.visibility, "pub");
    assert!(account.fields.is_empty());
}
#[test]
fn test_raw_account_add_field() {
    let mut account = RawAccount::new("MyAccount", "pub");
    let field = RawAccountField::new("owner", "Pubkey", "pub");
    account.add_field(field);

    assert_eq!(account.fields.len(), 1);
    assert_eq!(account.fields[0].name, "owner");
    assert_eq!(account.fields[0].ty, "Pubkey");
    assert_eq!(account.fields[0].visibility, "pub");
}
#[test]
fn test_raw_account_find_field() {
    let mut account = RawAccount::new("MyAccount", "pub");
    account.add_field(RawAccountField::new("owner", "Pubkey", "pub"));
    account.add_field(RawAccountField::new("amount", "u64", ""));

    let field = account.find_field("owner");
    assert!(field.is_some());
    assert_eq!(field.unwrap().ty, "Pubkey");

    let field = account.find_field("unknown");
    assert!(field.is_none());
}
#[test]
fn test_raw_account_builder_methods() {
    let field1 = RawAccountField::new("owner", "Pubkey", "pub");
    let field2 = RawAccountField::new("amount", "u64", "");

    // Test with_field
    let account = RawAccount::new("MyAccount", "pub")
        .with_field(field1.clone())
        .with_field(field2.clone());

    assert_eq!(account.fields.len(), 2);
    assert_eq!(account.fields[0].name, "owner");
    assert_eq!(account.fields[1].name, "amount");

    // Test with_fields
    let account = RawAccount::new("MyAccount", "pub").with_fields(vec![field1, field2]);

    assert_eq!(account.fields.len(), 2);
    assert_eq!(account.fields[0].name, "owner");
    assert_eq!(account.fields[1].name, "amount");
}
#[test]
fn test_raw_account_field_new() {
    let field = RawAccountField::new("owner", "Pubkey", "pub");
    assert_eq!(field.name, "owner");
    assert_eq!(field.ty, "Pubkey");
    assert_eq!(field.visibility, "pub");
}
#[test]
fn account_test_string_conversions() {
    // Test flexibility in Account::new
    let account1 = Account::new("static", "pub");
    let account2 = Account::new(String::from("owned"), "pub");
    let name = String::from("reference");
    let account3 = Account::new(&name, "pub");

    assert_eq!(account1.name, "static");
    assert_eq!(account2.name, "owned");
    assert_eq!(account3.name, "reference");
}
#[test]
fn test_instruction_new() {
    let instruction = Instruction::new("initialize", "pub");
    assert_eq!(instruction.name, "initialize");
    assert_eq!(instruction.visibility, "pub");
    assert!(instruction.parameters.is_empty());
    assert!(instruction.return_type.is_none());
    assert!(instruction.context_type.is_none());
}
#[test]
fn test_instruction_default() {
    let instruction = Instruction::default();
    assert_eq!(instruction.name, "");
    assert_eq!(instruction.visibility, "");
    assert!(instruction.parameters.is_empty());
    assert!(instruction.return_type.is_none());
    assert!(instruction.context_type.is_none());
}
#[test]
fn test_instruction_add_parameter() {
    let mut instruction = Instruction::new("initialize", "pub");
    let param = Parameter::new("amount", "u64", false);
    instruction.add_parameter(param);

    assert_eq!(instruction.parameters.len(), 1);
    assert_eq!(instruction.parameters[0].name, "amount");
    assert_eq!(instruction.parameters[0].ty, "u64");
    assert!(!instruction.parameters[0].is_context);
}
#[test]
fn test_instruction_set_return_type() {
    let mut instruction = Instruction::new("initialize", "pub");
    instruction.set_return_type("Result<()>");

    assert!(instruction.return_type.is_some());
    assert_eq!(instruction.return_type.unwrap(), "Result<()>");
}
#[test]
fn test_instruction_set_context_type() {
    let mut instruction = Instruction::new("initialize", "pub");
    instruction.set_context_type("Initialize");

    assert!(instruction.context_type.is_some());
    assert_eq!(instruction.context_type.unwrap(), "Initialize");
}
#[test]
fn test_instruction_find_parameter() {
    let mut instruction = Instruction::new("initialize", "pub");
    instruction.add_parameter(Parameter::new("amount", "u64", false));
    instruction.add_parameter(Parameter::new("recipient", "Pubkey", false));

    let param = instruction.find_parameter("amount");
    assert!(param.is_some());
    assert_eq!(param.unwrap().ty, "u64");

    let param = instruction.find_parameter("unknown");
    assert!(param.is_none());
}
#[test]
fn test_instruction_has_context() {
    let mut instruction1 = Instruction::new("initialize", "pub");
    instruction1.add_parameter(Parameter::new("amount", "u64", false));
    assert!(!instruction1.has_context());

    let mut instruction2 = Instruction::new("initialize", "pub");
    instruction2.add_parameter(Parameter::new_context("ctx", "Initialize"));
    assert!(instruction2.has_context());
}
#[test]
fn test_instruction_builder_methods() {
    let params = vec![
        Parameter::new_context("ctx", "Initialize"),
        Parameter::new("amount", "u64", false),
    ];

    // Test with_parameters
    let instruction = Instruction::new("initialize", "pub")
        .with_parameters(params.clone())
        .with_return_type("Result<()>")
        .with_context_type("Initialize");

    assert_eq!(instruction.parameters.len(), 2);
    assert_eq!(instruction.return_type, Some("Result<()>".to_string()));
    assert_eq!(instruction.context_type, Some("Initialize".to_string()));

    // Test with_parameter
    let instruction = Instruction::new("initialize", "pub")
        .with_parameter(params[0].clone())
        .with_parameter(params[1].clone())
        .with_return_type("Result<()>");

    assert_eq!(instruction.parameters.len(), 2);
    assert_eq!(instruction.parameters[0].name, "ctx");
    assert_eq!(instruction.parameters[1].name, "amount");
}
#[test]
fn test_parameter_new() {
    let param = Parameter::new("amount", "u64", false);
    assert_eq!(param.name, "amount");
    assert_eq!(param.ty, "u64");
    assert!(!param.is_context);
}
#[test]
fn test_parameter_default() {
    let param = Parameter::default();
    assert_eq!(param.name, "");
    assert_eq!(param.ty, "");
    assert!(!param.is_context);
}
#[test]
fn test_parameter_new_context() {
    let param = Parameter::new_context("ctx", "Initialize");
    assert_eq!(param.name, "ctx");
    assert_eq!(param.ty, "Context<Initialize>");
    assert!(param.is_context);
}
#[test]
fn instruction_test_string_conversions() {
    // Test flexibility in Instruction::new
    let instr1 = Instruction::new("static", "pub");
    let instr2 = Instruction::new(String::from("owned"), "pub");
    let name = String::from("reference");
    let instr3 = Instruction::new(&name, "pub");

    assert_eq!(instr1.name, "static");
    assert_eq!(instr2.name, "owned");
    assert_eq!(instr3.name, "reference");

    // Test flexibility in Parameter::new
    let param1 = Parameter::new("static", "u64", false);
    let param2 = Parameter::new(String::from("owned"), "u64", false);
    let name = String::from("reference");
    let param3 = Parameter::new(&name, "u64", false);

    assert_eq!(param1.name, "static");
    assert_eq!(param2.name, "owned");
    assert_eq!(param3.name, "reference");
}
#[test]
fn test_program_default() {
    let program = Program::default();
    assert!(program.program_modules.is_empty());
    assert!(program.account_structs.is_empty());
    assert!(program.raw_accounts.is_empty());
    assert!(program.source_path.is_none());
}
#[test]
fn test_program_new() {
    let program = Program::new();
    assert!(program.program_modules.is_empty());
    assert!(program.account_structs.is_empty());
    assert!(program.raw_accounts.is_empty());
    assert!(program.source_path.is_none());
}
#[test]
fn test_program_add_components() {
    let mut program = Program::new();

    // Add program module
    let module = ProgramModule::new("MyModule", "pub");
    program.add_program_module(module);
    assert_eq!(program.program_modules.len(), 1);
    assert_eq!(program.program_modules[0].name, "MyModule");

    // Add account struct
    let account = Account::new("MyAccount", "pub");
    program.add_account_struct(account);
    assert_eq!(program.account_structs.len(), 1);
    assert_eq!(program.account_structs[0].name, "MyAccount");

    // Add raw account
    let raw_account = RawAccount::new("MyRawAccount", "pub");
    program.add_raw_account(raw_account);
    assert_eq!(program.raw_accounts.len(), 1);
    assert_eq!(program.raw_accounts[0].name, "MyRawAccount");
}
#[test]
fn test_program_find_methods() {
    let mut program = Program::new();

    // Add program modules
    program.add_program_module(ProgramModule::new("Module1", "pub"));
    program.add_program_module(ProgramModule::new("Module2", ""));

    // Add account structs
    program.add_account_struct(Account::new("Account1", "pub"));
    program.add_account_struct(Account::new("Account2", ""));

    // Add raw accounts
    program.add_raw_account(RawAccount::new("Raw1", "pub"));
    program.add_raw_account(RawAccount::new("Raw2", ""));

    // Test find methods
    let found_module = program.find_program_module("Module1");
    assert!(found_module.is_some());
    assert_eq!(found_module.unwrap().name, "Module1");

    let found_module = program.find_program_module("ModuleX");
    assert!(found_module.is_none());

    let found_account = program.find_account_struct("Account1");
    assert!(found_account.is_some());
    assert_eq!(found_account.unwrap().name, "Account1");

    let found_account = program.find_account_struct("AccountX");
    assert!(found_account.is_none());

    let found_raw_account = program.find_raw_account("Raw1");
    assert!(found_raw_account.is_some());
    assert_eq!(found_raw_account.unwrap().name, "Raw1");

    let found_raw_account = program.find_raw_account("RawX");
    assert!(found_raw_account.is_none());
}
#[test]
fn test_program_builder_methods() {
    // Test individual builder methods
    let program = Program::new()
        .with_source_path("path/to/file.rs");
    assert_eq!(program.source_path, Some("path/to/file.rs".to_string()));

    let program = Program::new()
        .with_program_module(ProgramModule::new("Module1", "pub"));
    assert_eq!(program.program_modules.len(), 1);
    assert_eq!(program.program_modules[0].name, "Module1");

    let program = Program::new()
        .with_account_struct(Account::new("Account1", "pub"));
    assert_eq!(program.account_structs.len(), 1);
    assert_eq!(program.account_structs[0].name, "Account1");

    let program = Program::new()
        .with_raw_account(RawAccount::new("Raw1", "pub"));
    assert_eq!(program.raw_accounts.len(), 1);
    assert_eq!(program.raw_accounts[0].name, "Raw1");

    // Test chained builder methods
    let program = Program::new()
        .with_program_module(ProgramModule::new("Module1", "pub"))
        .with_account_struct(Account::new("Account1", "pub"))
        .with_raw_account(RawAccount::new("Raw1", "pub"))
        .with_source_path("path/to/file.rs");

    assert_eq!(program.program_modules.len(), 1);
    assert_eq!(program.program_modules[0].name, "Module1");
    assert_eq!(program.account_structs.len(), 1);
    assert_eq!(program.account_structs[0].name, "Account1");
    assert_eq!(program.raw_accounts.len(), 1);
    assert_eq!(program.raw_accounts[0].name, "Raw1");
    assert_eq!(program.source_path, Some("path/to/file.rs".to_string()));
}
#[test]
fn test_program_module_new() {
    // Test with String
    let module = ProgramModule::new(String::from("MyModule"), String::from("pub"));
    assert_eq!(module.name, "MyModule");
    assert_eq!(module.visibility, "pub");

    // Test with &str
    let module = ProgramModule::new("MyModule", "pub");
    assert_eq!(module.name, "MyModule");
    assert_eq!(module.visibility, "pub");

    // Test with mixed types
    let name = String::from("MyModule");
    let module = ProgramModule::new(&name, "pub");
    assert_eq!(module.name, "MyModule");
    assert_eq!(module.visibility, "pub");
}
#[test]
fn test_program_module_add_instruction() {
    let mut module = ProgramModule::new("MyModule", "pub");
    let instruction = Instruction::new("initialize", "pub");
    module.add_instruction(instruction);
    assert_eq!(module.instructions.len(), 1);
    assert_eq!(module.instructions[0].name, "initialize");
}
#[test]
fn test_program_module_find_instruction() {
    let mut module = ProgramModule::new("MyModule", "pub");
    module.add_instruction(Instruction::new("initialize", "pub"));
    module.add_instruction(Instruction::new("update", "pub"));

    let found = module.find_instruction("initialize");
    assert!(found.is_some());
    assert_eq!(found.unwrap().name, "initialize");

    let found = module.find_instruction("unknown");
    assert!(found.is_none());
}
#[test]
fn test_program_module_builder_methods() {
    // Test with_instructions
    let instructions = vec![
        Instruction::new("instr1", "pub"),
        Instruction::new("instr2", "pub"),
    ];

    let module = ProgramModule::new("MyModule", "pub")
        .with_instructions(instructions);

    assert_eq!(module.instructions.len(), 2);
    assert_eq!(module.instructions[0].name, "instr1");
    assert_eq!(module.instructions[1].name, "instr2");

    // Test with_instruction
    let module = ProgramModule::new("MyModule", "pub")
        .with_instruction(Instruction::new("instr1", "pub"))
        .with_instruction(Instruction::new("instr2", "pub"));

    assert_eq!(module.instructions.len(), 2);
    assert_eq!(module.instructions[0].name, "instr1");
    assert_eq!(module.instructions[1].name, "instr2");
}
#[test]
fn test_string_conversion_flexibility() {
    // Test various string types for Program::with_source_path
    let program1 = Program::new().with_source_path("static string");
    let program2 = Program::new().with_source_path(String::from("owned string"));
    let path = String::from("reference to owned");
    let program3 = Program::new().with_source_path(&path);

    assert_eq!(program1.source_path, Some("static string".to_string()));
    assert_eq!(program2.source_path, Some("owned string".to_string()));
    assert_eq!(program3.source_path, Some("reference to owned".to_string()));
}
#[test]
fn test_model_integration() {
    // Create a program
    let mut program = Program::new();

    // Add a program module
    let mut module = ProgramModule::new("MyProgram", "pub");

    // Create an instruction
    let mut instruction = Instruction::new("initialize", "pub");

    // Add a context parameter
    instruction.add_parameter(Parameter::new_context("ctx", "Initialize"));

    // Add a regular parameter
    instruction.add_parameter(Parameter::new("amount", "u64", false));

    // Set return type
    instruction.set_return_type("Result<()>");
    instruction.set_context_type("Initialize");

    // Add instruction to module
    module.add_instruction(instruction);

    // Add module to program
    program.add_program_module(module);

    // Create an account struct
    let mut account = Account::new("Initialize", "pub");

    // Create account fields
    let mut owner_field = AccountField::new("owner", "Pubkey");
    owner_field.add_constraint(Constraint::without_value("signer"));

    let mut vault_field = AccountField::new("vault", "Account<'info, TokenAccount>");
    vault_field.add_constraint(Constraint::with_value("init", "true"));
    vault_field.add_constraint(Constraint::with_value("payer", "owner"));

    // Add fields to account
    account.add_field(owner_field);
    account.add_field(vault_field);

    // Add account to program
    program.add_account_struct(account);

    // Create a raw account
    let mut raw_account = RawAccount::new("VaultState", "pub");

    // Add fields to raw account
    raw_account.add_field(RawAccountField::new("owner", "Pubkey", "pub"));
    raw_account.add_field(RawAccountField::new("amount", "u64", "pub"));

    // Add raw account to program
    program.add_raw_account(raw_account);

    // Verify program structure
    assert_eq!(program.program_modules.len(), 1);
    assert_eq!(program.account_structs.len(), 1);
    assert_eq!(program.raw_accounts.len(), 1);
}
