//! Instructions: the functions of a program module that take a context.

use crate::seqs::{first_index, lemma_first_index};
use crate::text::{opt_text, same_text, IntoText};
use vstd::prelude::*;
use vstd::string::*;

verus! {

/// A parameter of an instruction.
#[derive(Debug, Clone)]
pub struct Parameter {
    pub name: String,
    /// The parameter's type, as canonical text.
    pub ty: String,
    /// Whether the parameter's type is a `Context`.
    pub is_context: bool,
}

/// The view of `Parameter`: what it holds, as sequences of characters.
pub struct ParameterView {
    pub name: Seq<char>,
    pub ty: Seq<char>,
    pub is_context: bool,
}

impl View for Parameter {
    type V = ParameterView;

    open spec fn view(&self) -> ParameterView {
        ParameterView { name: self.name@, ty: self.ty@, is_context: self.is_context }
    }
}

/// An instruction of a program module.
#[derive(Debug, Clone)]
pub struct Instruction {
    pub name: String,
    /// `""`, `"pub"`, `"pub(crate)"`, ...
    pub visibility: String,
    /// The parameters, in declaration order.
    pub parameters: Vec<Parameter>,
    pub return_type: Option<String>,
    /// The name of the account struct that the context names. It is a name,
    /// and need not be the name of a declared struct.
    pub context_type: Option<String>,
}

/// The view of `Instruction`: what it holds, as sequences of characters.
pub struct InstructionView {
    pub name: Seq<char>,
    pub visibility: Seq<char>,
    pub parameters: Seq<ParameterView>,
    pub return_type: Option<Seq<char>>,
    pub context_type: Option<Seq<char>>,
}

impl InstructionView {
    /// The names of the parameters, in order.
    pub open spec fn parameter_names(self) -> Seq<Seq<char>> {
        self.parameters.map_values(|p: ParameterView| p.name)
    }

    /// The index of the first parameter named `name`.
    pub open spec fn parameter_index(self, name: Seq<char>) -> Option<int> {
        first_index(self.parameter_names(), name)
    }

    /// Whether a parameter is a context.
    pub open spec fn has_context(self) -> bool {
        exists|i: int| 0 <= i < self.parameters.len() && (#[trigger] self.parameters[i]).is_context
    }
}

impl View for Instruction {
    type V = InstructionView;

    open spec fn view(&self) -> InstructionView {
        InstructionView {
            name: self.name@,
            visibility: self.visibility@,
            parameters: self.parameters@.map_values(|p: Parameter| p@),
            return_type: opt_text(self.return_type),
            context_type: opt_text(self.context_type),
        }
    }
}

/// The type text of a context over the account struct `context_type`.
pub open spec fn context_type_text(context_type: Seq<char>) -> Seq<char> {
    "Context<"@ + context_type + ">"@
}

impl Instruction {
    /// An instruction without parameters, return type or context.
    pub fn new(name: impl IntoText, visibility: impl IntoText) -> (r: Self)
        ensures
            r@ == (InstructionView {
                name: name.text(),
                visibility: visibility.text(),
                parameters: Seq::empty(),
                return_type: None,
                context_type: None,
            }),
    {
        let r = Instruction {
            name: name.into_text(),
            visibility: visibility.into_text(),
            parameters: Vec::new(),
            return_type: None,
            context_type: None,
        };
        assert(r@.parameters =~= Seq::empty());
        r
    }

    /// Appends a parameter.
    pub fn add_parameter(&mut self, parameter: Parameter)
        ensures
            final(self)@ == (InstructionView {
                parameters: old(self)@.parameters.push(parameter@),
                ..old(self)@
            }),
    {
        self.parameters.push(parameter);
        assert(self@.parameters =~= old(self)@.parameters.push(parameter@));
    }

    /// Sets the return type.
    pub fn set_return_type(&mut self, ty: impl IntoText)
        ensures
            final(self)@ == (InstructionView { return_type: Some(ty.text()), ..old(self)@ }),
    {
        self.return_type = Some(ty.into_text());
    }

    /// Sets the name of the context's account struct.
    pub fn set_context_type(&mut self, ty: impl IntoText)
        ensures
            final(self)@ == (InstructionView { context_type: Some(ty.text()), ..old(self)@ }),
    {
        self.context_type = Some(ty.into_text());
    }

    /// The first parameter named `name`.
    pub fn find_parameter(&self, name: &str) -> (r: Option<&Parameter>)
        ensures
            r == match self@.parameter_index(name@) {
                Some(i) => Some(&self.parameters[i]),
                None => None,
            },
    {
        let mut i: usize = 0;
        while i < self.parameters.len()
            invariant
                i <= self.parameters.len(),
                forall|j: int| 0 <= j < i ==> #[trigger] self@.parameter_names()[j] != name@,
            decreases self.parameters.len() - i,
        {
            if same_text(self.parameters[i].name.as_str(), name) {
                proof {
                    assert(self@.parameter_names()[i as int] == name@);
                    lemma_first_index(self@.parameter_names(), name@);
                }
                return Some(&self.parameters[i]);
            }
            assert(self@.parameter_names()[i as int] != name@);
            i += 1;
        }
        proof {
            lemma_first_index(self@.parameter_names(), name@);
        }
        None
    }

    /// Whether a parameter is a context.
    pub fn has_context(&self) -> (r: bool)
        ensures
            r == self@.has_context(),
    {
        let mut i: usize = 0;
        while i < self.parameters.len()
            invariant
                i <= self.parameters.len(),
                forall|j: int| 0 <= j < i ==> !(#[trigger] self@.parameters[j]).is_context,
            decreases self.parameters.len() - i,
        {
            if self.parameters[i].is_context {
                assert(self@.parameters[i as int].is_context);
                return true;
            }
            assert(!self@.parameters[i as int].is_context);
            i += 1;
        }
        false
    }

    /// `self` with `parameters` in place of its parameters.
    pub fn with_parameters(self, parameters: Vec<Parameter>) -> (r: Self)
        ensures
            r@ == (InstructionView {
                parameters: parameters@.map_values(|p: Parameter| p@),
                ..self@
            }),
    {
        let mut r = self;
        r.parameters = parameters;
        r
    }

    /// `self` with one more parameter.
    pub fn with_parameter(self, parameter: Parameter) -> (r: Self)
        ensures
            r@ == (InstructionView { parameters: self@.parameters.push(parameter@), ..self@ }),
    {
        let mut r = self;
        r.add_parameter(parameter);
        r
    }

    /// `self` with the return type `ty`.
    pub fn with_return_type(self, ty: impl IntoText) -> (r: Self)
        ensures
            r@ == (InstructionView { return_type: Some(ty.text()), ..self@ }),
    {
        let mut r = self;
        r.return_type = Some(ty.into_text());
        r
    }

    /// `self` with the context's account struct named `ty`.
    pub fn with_context_type(self, ty: impl IntoText) -> (r: Self)
        ensures
            r@ == (InstructionView { context_type: Some(ty.text()), ..self@ }),
    {
        let mut r = self;
        r.context_type = Some(ty.into_text());
        r
    }
}

impl Default for Instruction {
    fn default() -> (r: Self)
        ensures
            r@ == (InstructionView {
                name: Seq::empty(),
                visibility: Seq::empty(),
                parameters: Seq::empty(),
                return_type: None,
                context_type: None,
            }),
    {
        let r = Instruction {
            name: String::new(),
            visibility: String::new(),
            parameters: Vec::new(),
            return_type: None,
            context_type: None,
        };
        assert(r@.parameters =~= Seq::empty());
        r
    }
}

impl Parameter {
    /// A parameter.
    pub fn new(name: impl IntoText, ty: impl IntoText, is_context: bool) -> (r: Self)
        ensures
            r@ == (ParameterView { name: name.text(), ty: ty.text(), is_context }),
    {
        Parameter { name: name.into_text(), ty: ty.into_text(), is_context }
    }

    /// A context parameter over the account struct `context_type`: its type
    /// is `Context<` + `context_type` + `>`.
    pub fn new_context(name: impl IntoText, context_type: impl IntoText) -> (r: Self)
        ensures
            r@ == (ParameterView {
                name: name.text(),
                ty: context_type_text(context_type.text()),
                is_context: true,
            }),
    {
        let inner = context_type.into_text();
        let mut ty = "Context<".to_owned();
        ty.append(inner.as_str());
        ty.append(">");
        Parameter { name: name.into_text(), ty, is_context: true }
    }
}

impl Default for Parameter {
    fn default() -> (r: Self)
        ensures
            r@ == (ParameterView { name: Seq::empty(), ty: Seq::empty(), is_context: false }),
    {
        Parameter { name: String::new(), ty: String::new(), is_context: false }
    }
}

} // verus!
