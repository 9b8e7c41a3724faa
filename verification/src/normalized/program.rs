//! The normalized program.

use crate::normalized::account::{
    struct_index, struct_names, struct_views, NormalizedAccountStruct,
    NormalizedAccountStructView, NormalizedRawAccount, NormalizedRawAccountView,
};
use crate::normalized::instruction::{
    instruction_views, NormalizedInstruction, NormalizedInstructionView,
};
use crate::normalized::validation::{ValidationIssue, ValidationIssueView};
use crate::seqs::{first_index, lemma_first_index};
use crate::text::{opt_text, same_text, IntoText};
use vstd::prelude::*;
use vstd::string::*;

verus! {

/// Where a program was read from.
#[derive(Debug, Clone)]
pub struct SourceInfo {
    pub file_path: String,
    /// The first and the last line, where they are known.
    pub line_range: Option<(usize, usize)>,
}

/// The view of `SourceInfo`: what it holds, as sequences of characters.
pub struct SourceInfoView {
    pub file_path: Seq<char>,
    pub line_range: Option<(usize, usize)>,
}

impl View for SourceInfo {
    type V = SourceInfoView;

    open spec fn view(&self) -> SourceInfoView {
        SourceInfoView { file_path: self.file_path@, line_range: self.line_range }
    }
}

/// The view of an optional source information.
pub open spec fn opt_source_info(o: Option<SourceInfo>) -> Option<SourceInfoView> {
    match o {
        Some(s) => Some(s@),
        None => None,
    }
}

/// A normalized program module.
#[derive(Debug, Clone)]
pub struct NormalizedModule {
    pub name: String,
    pub visibility: String,
    /// The instructions, in declaration order.
    pub instructions: Vec<NormalizedInstruction>,
    pub documentation: Option<String>,
}

/// The view of `NormalizedModule`: what it holds, as sequences of characters.
pub struct NormalizedModuleView {
    pub name: Seq<char>,
    pub visibility: Seq<char>,
    pub instructions: Seq<NormalizedInstructionView>,
    pub documentation: Option<Seq<char>>,
}

impl NormalizedModuleView {
    /// The names of the instructions, in order.
    pub open spec fn instruction_names(self) -> Seq<Seq<char>> {
        self.instructions.map_values(|i: NormalizedInstructionView| i.name)
    }

    /// The index of the first instruction named `name`.
    pub open spec fn instruction_index(self, name: Seq<char>) -> Option<int> {
        first_index(self.instruction_names(), name)
    }
}

impl View for NormalizedModule {
    type V = NormalizedModuleView;

    open spec fn view(&self) -> NormalizedModuleView {
        NormalizedModuleView {
            name: self.name@,
            visibility: self.visibility@,
            instructions: instruction_views(self.instructions@),
            documentation: opt_text(self.documentation),
        }
    }
}

/// The views of modules.
pub open spec fn module_views(modules: Seq<NormalizedModule>) -> Seq<NormalizedModuleView> {
    modules.map_values(|m: NormalizedModule| m@)
}

/// A normalized program.
#[derive(Debug, Clone)]
pub struct NormalizedProgram {
    /// What identifies the program: `program:` and its source path; where
    /// that is not known, `program:` and the name of its first module; where
    /// it has no module either, `program:` and the time at which the
    /// identifier was made, in seconds since the Unix epoch. Normalization
    /// never makes the last: a program without source path and module has
    /// no name, and is not normalized.
    pub id: String,
    /// The name of the program: that of its first module or, where it has no
    /// module, the stem of its source file.
    pub name: String,
    /// The program modules, in declaration order.
    pub modules: Vec<NormalizedModule>,
    /// The account structs, in declaration order.
    pub account_structs: Vec<NormalizedAccountStruct>,
    /// The raw accounts, in declaration order.
    pub raw_accounts: Vec<NormalizedRawAccount>,
    pub documentation: Option<String>,
    /// The issues that validation found, in the order of its checks.
    pub validation_issues: Vec<ValidationIssue>,
    pub source_info: Option<SourceInfo>,
    /// The version of this model.
    pub schema_version: String,
}

/// The view of `NormalizedProgram`: what it holds, as sequences of characters.
pub struct NormalizedProgramView {
    pub id: Seq<char>,
    pub name: Seq<char>,
    pub modules: Seq<NormalizedModuleView>,
    pub account_structs: Seq<NormalizedAccountStructView>,
    pub raw_accounts: Seq<NormalizedRawAccountView>,
    pub documentation: Option<Seq<char>>,
    pub validation_issues: Seq<ValidationIssueView>,
    pub source_info: Option<SourceInfoView>,
    pub schema_version: Seq<char>,
}

/// The version of the model that this library builds.
pub open spec fn schema_version() -> Seq<char> {
    "1.0"@
}

impl NormalizedProgramView {
    /// The program without modules, accounts or issues.
    pub open spec fn new(id: Seq<char>, name: Seq<char>) -> NormalizedProgramView {
        NormalizedProgramView {
            id,
            name,
            modules: Seq::empty(),
            account_structs: Seq::empty(),
            raw_accounts: Seq::empty(),
            documentation: None,
            validation_issues: Seq::empty(),
            source_info: None,
            schema_version: schema_version(),
        }
    }

    /// The index of the first account struct named `name`.
    pub open spec fn account_struct_index(self, name: Seq<char>) -> Option<int> {
        struct_index(self.account_structs, name)
    }

    /// The names of the raw accounts, in order.
    pub open spec fn raw_account_names(self) -> Seq<Seq<char>> {
        self.raw_accounts.map_values(|a: NormalizedRawAccountView| a.name)
    }

    /// The index of the first raw account named `name`.
    pub open spec fn raw_account_index(self, name: Seq<char>) -> Option<int> {
        first_index(self.raw_account_names(), name)
    }

    /// Where the first instruction named `name` stands: the index of the
    /// first module that has such an instruction, and the index of the first
    /// such instruction in it.
    pub open spec fn instruction_position(self, name: Seq<char>) -> Option<(int, int)> {
        let hits = self.modules.map_values(
            |m: NormalizedModuleView| m.instruction_index(name).is_some(),
        );
        match first_index(hits, true) {
            Some(m) => Some((m, self.modules[m].instruction_index(name).unwrap())),
            None => None,
        }
    }
}

impl View for NormalizedProgram {
    type V = NormalizedProgramView;

    open spec fn view(&self) -> NormalizedProgramView {
        NormalizedProgramView {
            id: self.id@,
            name: self.name@,
            modules: module_views(self.modules@),
            account_structs: struct_views(self.account_structs@),
            raw_accounts: self.raw_accounts@.map_values(|a: NormalizedRawAccount| a@),
            documentation: opt_text(self.documentation),
            validation_issues: self.validation_issues@.map_values(|i: ValidationIssue| i@),
            source_info: opt_source_info(self.source_info),
            schema_version: self.schema_version@,
        }
    }
}

/// The first of `structs` named `name`.
pub fn find_struct<'a>(structs: &'a Vec<NormalizedAccountStruct>, name: &str) -> (r: Option<
    &'a NormalizedAccountStruct,
>)
    ensures
        r == match struct_index(struct_views(structs@), name@) {
            Some(i) => Some(&structs[i]),
            None => None,
        },
{
    let ghost names = struct_names(struct_views(structs@));
    let mut i: usize = 0;
    while i < structs.len()
        invariant
            i <= structs.len(),
            names == struct_names(struct_views(structs@)),
            forall|j: int| 0 <= j < i ==> #[trigger] names[j] != name@,
        decreases structs.len() - i,
    {
        if same_text(structs[i].name.as_str(), name) {
            proof {
                assert(names[i as int] == name@);
                lemma_first_index(names, name@);
            }
            return Some(&structs[i]);
        }
        assert(names[i as int] != name@);
        i += 1;
    }
    proof {
        lemma_first_index(names, name@);
    }
    None
}

impl NormalizedProgram {
    /// A program without modules, accounts or issues.
    pub fn new(id: impl IntoText, name: impl IntoText) -> (r: Self)
        ensures
            r@ == NormalizedProgramView::new(id.text(), name.text()),
    {
        let r = NormalizedProgram {
            id: id.into_text(),
            name: name.into_text(),
            modules: Vec::new(),
            account_structs: Vec::new(),
            raw_accounts: Vec::new(),
            documentation: None,
            validation_issues: Vec::new(),
            source_info: None,
            schema_version: "1.0".to_owned(),
        };
        assert(r@.modules =~= Seq::empty());
        assert(r@.account_structs =~= Seq::empty());
        assert(r@.raw_accounts =~= Seq::empty());
        assert(r@.validation_issues =~= Seq::empty());
        r
    }

    /// The first account struct named `name`.
    pub fn find_account_struct(&self, name: &str) -> (r: Option<&NormalizedAccountStruct>)
        ensures
            r == match self@.account_struct_index(name@) {
                Some(i) => Some(&self.account_structs[i]),
                None => None,
            },
    {
        find_struct(&self.account_structs, name)
    }

    /// The first raw account named `name`.
    pub fn find_raw_account(&self, name: &str) -> (r: Option<&NormalizedRawAccount>)
        ensures
            r == match self@.raw_account_index(name@) {
                Some(i) => Some(&self.raw_accounts[i]),
                None => None,
            },
    {
        let mut i: usize = 0;
        while i < self.raw_accounts.len()
            invariant
                i <= self.raw_accounts.len(),
                forall|j: int| 0 <= j < i ==> #[trigger] self@.raw_account_names()[j] != name@,
            decreases self.raw_accounts.len() - i,
        {
            if same_text(self.raw_accounts[i].name.as_str(), name) {
                proof {
                    assert(self@.raw_account_names()[i as int] == name@);
                    lemma_first_index(self@.raw_account_names(), name@);
                }
                return Some(&self.raw_accounts[i]);
            }
            assert(self@.raw_account_names()[i as int] != name@);
            i += 1;
        }
        proof {
            lemma_first_index(self@.raw_account_names(), name@);
        }
        None
    }

    /// The first instruction named `name`, the modules taken in order.
    pub fn find_instruction(&self, name: &str) -> (r: Option<&NormalizedInstruction>)
        ensures
            r == match self@.instruction_position(name@) {
                Some((m, i)) => Some(&self.modules[m].instructions[i]),
                None => None,
            },
    {
        let ghost hits = self@.modules.map_values(
            |m: NormalizedModuleView| m.instruction_index(name@).is_some(),
        );
        let mut m: usize = 0;
        while m < self.modules.len()
            invariant
                m <= self.modules.len(),
                hits == self@.modules.map_values(
                    |m: NormalizedModuleView| m.instruction_index(name@).is_some(),
                ),
                forall|j: int| 0 <= j < m ==> #[trigger] hits[j] != true,
            decreases self.modules.len() - m,
        {
            match self.modules[m].find_instruction(name) {
                Some(instruction) => {
                    proof {
                        assert(hits[m as int] == true);
                        lemma_first_index(hits, true);
                    }
                    return Some(instruction);
                },
                None => {
                    assert(hits[m as int] != true);
                },
            }
            m += 1;
        }
        proof {
            lemma_first_index(hits, true);
        }
        None
    }

    /// Appends an issue.
    pub fn add_validation_issue(&mut self, issue: ValidationIssue)
        ensures
            final(self)@ == (NormalizedProgramView {
                validation_issues: old(self)@.validation_issues.push(issue@),
                ..old(self)@
            }),
    {
        self.validation_issues.push(issue);
        assert(self@.validation_issues =~= old(self)@.validation_issues.push(issue@));
    }

    /// `self` with the source information `source_info`.
    pub fn with_source_info(self, source_info: SourceInfo) -> (r: Self)
        ensures
            r@ == (NormalizedProgramView { source_info: Some(source_info@), ..self@ }),
    {
        let mut r = self;
        r.source_info = Some(source_info);
        r
    }

    /// Appends a module.
    pub fn add_module(&mut self, module: NormalizedModule)
        ensures
            final(self)@ == (NormalizedProgramView {
                modules: old(self)@.modules.push(module@),
                ..old(self)@
            }),
    {
        self.modules.push(module);
        assert(self@.modules =~= old(self)@.modules.push(module@));
    }

    /// Appends an account struct.
    pub fn add_account_struct(&mut self, account: NormalizedAccountStruct)
        ensures
            final(self)@ == (NormalizedProgramView {
                account_structs: old(self)@.account_structs.push(account@),
                ..old(self)@
            }),
    {
        self.account_structs.push(account);
        assert(self@.account_structs =~= old(self)@.account_structs.push(account@));
    }

    /// Appends a raw account.
    pub fn add_raw_account(&mut self, account: NormalizedRawAccount)
        ensures
            final(self)@ == (NormalizedProgramView {
                raw_accounts: old(self)@.raw_accounts.push(account@),
                ..old(self)@
            }),
    {
        self.raw_accounts.push(account);
        assert(self@.raw_accounts =~= old(self)@.raw_accounts.push(account@));
    }
}

impl NormalizedModule {
    /// A module without instructions or documentation.
    pub fn new(name: impl IntoText, visibility: impl IntoText) -> (r: Self)
        ensures
            r@ == (NormalizedModuleView {
                name: name.text(),
                visibility: visibility.text(),
                instructions: Seq::empty(),
                documentation: None,
            }),
    {
        let r = NormalizedModule {
            name: name.into_text(),
            visibility: visibility.into_text(),
            instructions: Vec::new(),
            documentation: None,
        };
        assert(r@.instructions =~= Seq::empty());
        r
    }

    /// Appends an instruction.
    pub fn add_instruction(&mut self, instruction: NormalizedInstruction)
        ensures
            final(self)@ == (NormalizedModuleView {
                instructions: old(self)@.instructions.push(instruction@),
                ..old(self)@
            }),
    {
        self.instructions.push(instruction);
        assert(self@.instructions =~= old(self)@.instructions.push(instruction@));
    }

    /// The first instruction named `name`.
    pub fn find_instruction(&self, name: &str) -> (r: Option<&NormalizedInstruction>)
        ensures
            r == match self@.instruction_index(name@) {
                Some(i) => Some(&self.instructions[i]),
                None => None,
            },
    {
        let mut i: usize = 0;
        while i < self.instructions.len()
            invariant
                i <= self.instructions.len(),
                forall|j: int| 0 <= j < i ==> #[trigger] self@.instruction_names()[j] != name@,
            decreases self.instructions.len() - i,
        {
            if same_text(self.instructions[i].name.as_str(), name) {
                proof {
                    assert(self@.instruction_names()[i as int] == name@);
                    lemma_first_index(self@.instruction_names(), name@);
                }
                return Some(&self.instructions[i]);
            }
            assert(self@.instruction_names()[i as int] != name@);
            i += 1;
        }
        proof {
            lemma_first_index(self@.instruction_names(), name@);
        }
        None
    }

    /// `self` with the documentation `docs`.
    pub fn with_documentation(self, docs: impl IntoText) -> (r: Self)
        ensures
            r@ == (NormalizedModuleView { documentation: Some(docs.text()), ..self@ }),
    {
        let mut r = self;
        r.documentation = Some(docs.into_text());
        r
    }
}

impl SourceInfo {
    /// The source information of the file at `file_path`.
    pub fn new(file_path: impl IntoText) -> (r: Self)
        ensures
            r@ == (SourceInfoView { file_path: file_path.text(), line_range: None }),
    {
        SourceInfo { file_path: file_path.into_text(), line_range: None }
    }

    /// `self` with the lines from `start` to `end`.
    pub fn with_line_range(self, start: usize, end: usize) -> (r: Self)
        ensures
            r@ == (SourceInfoView { line_range: Some((start, end)), ..self@ }),
    {
        let mut r = self;
        r.line_range = Some((start, end));
        r
    }
}

} // verus!
