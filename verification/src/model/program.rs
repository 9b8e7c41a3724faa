//! A program: its modules, account structs and raw accounts.

use crate::model::account::{Account, AccountView, RawAccount, RawAccountView};
use crate::model::instruction::{Instruction, InstructionView};
use crate::seqs::{first_index, lemma_first_index};
use crate::text::{opt_text, same_text, IntoText};
use vstd::prelude::*;
use vstd::string::*;

verus! {

/// A module marked `#[program]`, with its instructions.
#[derive(Debug, Clone)]
pub struct ProgramModule {
    pub name: String,
    /// `""`, `"pub"`, `"pub(crate)"`, ...
    pub visibility: String,
    /// The instructions, in declaration order.
    pub instructions: Vec<Instruction>,
}

/// The view of `ProgramModule`: what it holds, as sequences of characters.
pub struct ProgramModuleView {
    pub name: Seq<char>,
    pub visibility: Seq<char>,
    pub instructions: Seq<InstructionView>,
}

impl ProgramModuleView {
    /// The names of the instructions, in order.
    pub open spec fn instruction_names(self) -> Seq<Seq<char>> {
        self.instructions.map_values(|i: InstructionView| i.name)
    }

    /// The index of the first instruction named `name`.
    pub open spec fn instruction_index(self, name: Seq<char>) -> Option<int> {
        first_index(self.instruction_names(), name)
    }
}

impl View for ProgramModule {
    type V = ProgramModuleView;

    open spec fn view(&self) -> ProgramModuleView {
        ProgramModuleView {
            name: self.name@,
            visibility: self.visibility@,
            instructions: self.instructions@.map_values(|i: Instruction| i@),
        }
    }
}

/// A whole Anchor program.
#[derive(Debug, Clone)]
pub struct Program {
    /// The modules marked `#[program]`, in declaration order.
    pub program_modules: Vec<ProgramModule>,
    /// The structs with `#[derive(Accounts)]`, in declaration order.
    pub account_structs: Vec<Account>,
    /// The structs marked `#[account]`, in declaration order.
    pub raw_accounts: Vec<RawAccount>,
    /// The path of the source file, where it is known.
    pub source_path: Option<String>,
}

/// The view of `Program`: what it holds, as sequences of characters.
pub struct ProgramView {
    pub program_modules: Seq<ProgramModuleView>,
    pub account_structs: Seq<AccountView>,
    pub raw_accounts: Seq<RawAccountView>,
    pub source_path: Option<Seq<char>>,
}

impl ProgramView {
    /// The program without modules, accounts or source path.
    pub open spec fn empty() -> ProgramView {
        ProgramView {
            program_modules: Seq::empty(),
            account_structs: Seq::empty(),
            raw_accounts: Seq::empty(),
            source_path: None,
        }
    }

    /// The names of the program modules, in order.
    pub open spec fn program_module_names(self) -> Seq<Seq<char>> {
        self.program_modules.map_values(|m: ProgramModuleView| m.name)
    }

    /// The names of the account structs, in order.
    pub open spec fn account_struct_names(self) -> Seq<Seq<char>> {
        self.account_structs.map_values(|a: AccountView| a.name)
    }

    /// The names of the raw accounts, in order.
    pub open spec fn raw_account_names(self) -> Seq<Seq<char>> {
        self.raw_accounts.map_values(|a: RawAccountView| a.name)
    }
}

impl View for Program {
    type V = ProgramView;

    open spec fn view(&self) -> ProgramView {
        ProgramView {
            program_modules: self.program_modules@.map_values(|m: ProgramModule| m@),
            account_structs: self.account_structs@.map_values(|a: Account| a@),
            raw_accounts: self.raw_accounts@.map_values(|a: RawAccount| a@),
            source_path: opt_text(self.source_path),
        }
    }
}

impl Program {
    /// The empty program.
    pub fn new() -> (r: Self)
        ensures
            r@ == ProgramView::empty(),
    {
        let r = Program {
            program_modules: Vec::new(),
            account_structs: Vec::new(),
            raw_accounts: Vec::new(),
            source_path: None,
        };
        assert(r@.program_modules =~= Seq::empty());
        assert(r@.account_structs =~= Seq::empty());
        assert(r@.raw_accounts =~= Seq::empty());
        r
    }

    /// Appends a program module.
    pub fn add_program_module(&mut self, module: ProgramModule)
        ensures
            final(self)@ == (ProgramView {
                program_modules: old(self)@.program_modules.push(module@),
                ..old(self)@
            }),
    {
        self.program_modules.push(module);
        assert(self@.program_modules =~= old(self)@.program_modules.push(module@));
    }

    /// Appends an account struct.
    pub fn add_account_struct(&mut self, account: Account)
        ensures
            final(self)@ == (ProgramView {
                account_structs: old(self)@.account_structs.push(account@),
                ..old(self)@
            }),
    {
        self.account_structs.push(account);
        assert(self@.account_structs =~= old(self)@.account_structs.push(account@));
    }

    /// Appends a raw account.
    pub fn add_raw_account(&mut self, account: RawAccount)
        ensures
            final(self)@ == (ProgramView {
                raw_accounts: old(self)@.raw_accounts.push(account@),
                ..old(self)@
            }),
    {
        self.raw_accounts.push(account);
        assert(self@.raw_accounts =~= old(self)@.raw_accounts.push(account@));
    }

    /// The first program module named `name`.
    pub fn find_program_module(&self, name: &str) -> (r: Option<&ProgramModule>)
        ensures
            r == match first_index(self@.program_module_names(), name@) {
                Some(i) => Some(&self.program_modules[i]),
                None => None,
            },
    {
        let mut i: usize = 0;
        while i < self.program_modules.len()
            invariant
                i <= self.program_modules.len(),
                forall|j: int| 0 <= j < i ==> #[trigger] self@.program_module_names()[j] != name@,
            decreases self.program_modules.len() - i,
        {
            if same_text(self.program_modules[i].name.as_str(), name) {
                proof {
                    assert(self@.program_module_names()[i as int] == name@);
                    lemma_first_index(self@.program_module_names(), name@);
                }
                return Some(&self.program_modules[i]);
            }
            assert(self@.program_module_names()[i as int] != name@);
            i += 1;
        }
        proof {
            lemma_first_index(self@.program_module_names(), name@);
        }
        None
    }

    /// The first account struct named `name`.
    pub fn find_account_struct(&self, name: &str) -> (r: Option<&Account>)
        ensures
            r == match first_index(self@.account_struct_names(), name@) {
                Some(i) => Some(&self.account_structs[i]),
                None => None,
            },
    {
        let mut i: usize = 0;
        while i < self.account_structs.len()
            invariant
                i <= self.account_structs.len(),
                forall|j: int| 0 <= j < i ==> #[trigger] self@.account_struct_names()[j] != name@,
            decreases self.account_structs.len() - i,
        {
            if same_text(self.account_structs[i].name.as_str(), name) {
                proof {
                    assert(self@.account_struct_names()[i as int] == name@);
                    lemma_first_index(self@.account_struct_names(), name@);
                }
                return Some(&self.account_structs[i]);
            }
            assert(self@.account_struct_names()[i as int] != name@);
            i += 1;
        }
        proof {
            lemma_first_index(self@.account_struct_names(), name@);
        }
        None
    }

    /// The first raw account named `name`.
    pub fn find_raw_account(&self, name: &str) -> (r: Option<&RawAccount>)
        ensures
            r == match first_index(self@.raw_account_names(), name@) {
                Some(i) => Some(&self.raw_accounts[i]),
                None => None,
            },
    {
        let mut i: usize = 0;
        while i < self.raw_accounts.len()
            invariant
                i <= self.raw_accounts.len(),
                forall|j: int| 0 <= j < i ==> #[trigger] self@.raw_account_names()[j] != name@,
            decreases self.raw_accounts.len() - i,
        {
            if same_text(self.raw_accounts[i].name.as_str(), name) {
                proof {
                    assert(self@.raw_account_names()[i as int] == name@);
                    lemma_first_index(self@.raw_account_names(), name@);
                }
                return Some(&self.raw_accounts[i]);
            }
            assert(self@.raw_account_names()[i as int] != name@);
            i += 1;
        }
        proof {
            lemma_first_index(self@.raw_account_names(), name@);
        }
        None
    }

    /// `self` with the source path `path`.
    pub fn with_source_path(self, path: impl IntoText) -> (r: Self)
        ensures
            r@ == (ProgramView { source_path: Some(path.text()), ..self@ }),
    {
        let mut r = self;
        r.source_path = Some(path.into_text());
        r
    }

    /// `self` with one more program module.
    pub fn with_program_module(self, module: ProgramModule) -> (r: Self)
        ensures
            r@ == (ProgramView {
                program_modules: self@.program_modules.push(module@),
                ..self@
            }),
    {
        let mut r = self;
        r.add_program_module(module);
        r
    }

    /// `self` with one more account struct.
    pub fn with_account_struct(self, account: Account) -> (r: Self)
        ensures
            r@ == (ProgramView {
                account_structs: self@.account_structs.push(account@),
                ..self@
            }),
    {
        let mut r = self;
        r.add_account_struct(account);
        r
    }

    /// `self` with one more raw account.
    pub fn with_raw_account(self, account: RawAccount) -> (r: Self)
        ensures
            r@ == (ProgramView { raw_accounts: self@.raw_accounts.push(account@), ..self@ }),
    {
        let mut r = self;
        r.add_raw_account(account);
        r
    }
}

impl Default for Program {
    fn default() -> (r: Self)
        ensures
            r@ == ProgramView::empty(),
    {
        Program::new()
    }
}

impl ProgramModule {
    /// A program module without instructions.
    pub fn new(name: impl IntoText, visibility: impl IntoText) -> (r: Self)
        ensures
            r@ == (ProgramModuleView {
                name: name.text(),
                visibility: visibility.text(),
                instructions: Seq::empty(),
            }),
    {
        let r = ProgramModule {
            name: name.into_text(),
            visibility: visibility.into_text(),
            instructions: Vec::new(),
        };
        assert(r@.instructions =~= Seq::empty());
        r
    }

    /// Appends an instruction.
    pub fn add_instruction(&mut self, instruction: Instruction)
        ensures
            final(self)@ == (ProgramModuleView {
                instructions: old(self)@.instructions.push(instruction@),
                ..old(self)@
            }),
    {
        self.instructions.push(instruction);
        assert(self@.instructions =~= old(self)@.instructions.push(instruction@));
    }

    /// The first instruction named `name`.
    pub fn find_instruction(&self, name: &str) -> (r: Option<&Instruction>)
        ensures
            r == match self@.instruction_index(name@) {
                Some(i) => Some(&self.instructions[i]),
                None => None,
            },
    {
        let mut i: usize = 0;
        while i < self.instructions.len()
            invariant
                i <= self.instructions.len(),
                forall|j: int| 0 <= j < i ==> #[trigger] self@.instruction_names()[j] != name@,
            decreases self.instructions.len() - i,
        {
            if same_text(self.instructions[i].name.as_str(), name) {
                proof {
                    assert(self@.instruction_names()[i as int] == name@);
                    lemma_first_index(self@.instruction_names(), name@);
                }
                return Some(&self.instructions[i]);
            }
            assert(self@.instruction_names()[i as int] != name@);
            i += 1;
        }
        proof {
            lemma_first_index(self@.instruction_names(), name@);
        }
        None
    }

    /// `self` with `instructions` in place of its instructions.
    pub fn with_instructions(self, instructions: Vec<Instruction>) -> (r: Self)
        ensures
            r@ == (ProgramModuleView {
                instructions: instructions@.map_values(|i: Instruction| i@),
                ..self@
            }),
    {
        let mut r = self;
        r.instructions = instructions;
        r
    }

    /// `self` with one more instruction.
    pub fn with_instruction(self, instruction: Instruction) -> (r: Self)
        ensures
            r@ == (ProgramModuleView {
                instructions: self@.instructions.push(instruction@),
                ..self@
            }),
    {
        let mut r = self;
        r.add_instruction(instruction);
        r
    }
}

impl Default for ProgramModule {
    fn default() -> (r: Self)
        ensures
            r@ == (ProgramModuleView {
                name: Seq::empty(),
                visibility: Seq::empty(),
                instructions: Seq::empty(),
            }),
    {
        let r = ProgramModule {
            name: String::new(),
            visibility: String::new(),
            instructions: Vec::new(),
        };
        assert(r@.instructions =~= Seq::empty());
        r
    }
}

} // verus!
