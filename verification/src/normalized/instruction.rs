//! Normalized instructions and what is known of their bodies.

use crate::model::instruction::context_type_text;
use crate::seqs::first_index;
use crate::text::{opt_text, IntoText};
use vstd::prelude::*;
use vstd::string::*;

verus! {

/// A parameter of a normalized instruction.
#[derive(Debug, Clone)]
pub struct NormalizedParameter {
    pub name: String,
    pub ty: String,
    /// Whether the parameter's type is a `Context`.
    pub is_context: bool,
}

/// The view of `NormalizedParameter`: what it holds, as sequences of characters.
pub struct NormalizedParameterView {
    pub name: Seq<char>,
    pub ty: Seq<char>,
    pub is_context: bool,
}

impl View for NormalizedParameter {
    type V = NormalizedParameterView;

    open spec fn view(&self) -> NormalizedParameterView {
        NormalizedParameterView { name: self.name@, ty: self.ty@, is_context: self.is_context }
    }
}

/// An operation that an instruction performs, as far as its name and its
/// accounts show it.
#[derive(Debug, Clone)]
pub enum BasicOperation {
    /// Logs a message.
    Log(String),
    /// Creates the account `target`, paid for by `payer`.
    Initialize { target: String, payer: String },
    /// Moves funds from `from` to `to`.
    Transfer { from: String, to: String },
    /// Closes the account `target` and refunds `refund_to`.
    Close { target: String, refund_to: String },
}

/// The view of `BasicOperation`: what it holds, as sequences of characters.
pub enum BasicOperationView {
    Log(Seq<char>),
    Initialize { target: Seq<char>, payer: Seq<char> },
    Transfer { from: Seq<char>, to: Seq<char> },
    Close { target: Seq<char>, refund_to: Seq<char> },
}

impl View for BasicOperation {
    type V = BasicOperationView;

    open spec fn view(&self) -> BasicOperationView {
        match self {
            BasicOperation::Log(text) => BasicOperationView::Log(text@),
            BasicOperation::Initialize { target, payer } => BasicOperationView::Initialize {
                target: target@,
                payer: payer@,
            },
            BasicOperation::Transfer { from, to } => BasicOperationView::Transfer {
                from: from@,
                to: to@,
            },
            BasicOperation::Close { target, refund_to } => BasicOperationView::Close {
                target: target@,
                refund_to: refund_to@,
            },
        }
    }
}

/// The views of operations.
pub open spec fn operation_views(ops: Seq<BasicOperation>) -> Seq<BasicOperationView> {
    ops.map_values(|op: BasicOperation| op@)
}

/// What is known of the body of an instruction.
#[derive(Debug, Clone)]
pub enum InstructionBody {
    /// Nothing.
    Unknown,
    /// The operations that inference found, in order.
    Basic(Vec<BasicOperation>),
}

/// The view of `InstructionBody`: what it holds, as sequences of characters.
pub enum InstructionBodyView {
    Unknown,
    Basic(Seq<BasicOperationView>),
}

impl View for InstructionBody {
    type V = InstructionBodyView;

    open spec fn view(&self) -> InstructionBodyView {
        match self {
            InstructionBody::Unknown => InstructionBodyView::Unknown,
            InstructionBody::Basic(ops) => InstructionBodyView::Basic(operation_views(ops@)),
        }
    }
}

/// The view of an optional body.
pub open spec fn opt_body(o: Option<InstructionBody>) -> Option<InstructionBodyView> {
    match o {
        Some(b) => Some(b@),
        None => None,
    }
}

/// A normalized instruction.
#[derive(Debug, Clone)]
pub struct NormalizedInstruction {
    pub name: String,
    pub visibility: String,
    /// The parameters, in declaration order.
    pub parameters: Vec<NormalizedParameter>,
    pub return_type: Option<String>,
    /// The name of the account struct that the instruction's context names.
    /// It is a name: no struct of that name need be declared.
    pub account_struct_name: Option<String>,
    pub body: Option<InstructionBody>,
    pub documentation: Option<String>,
}

/// The view of `NormalizedInstruction`: what it holds, as sequences of characters.
pub struct NormalizedInstructionView {
    pub name: Seq<char>,
    pub visibility: Seq<char>,
    pub parameters: Seq<NormalizedParameterView>,
    pub return_type: Option<Seq<char>>,
    pub account_struct_name: Option<Seq<char>>,
    pub body: Option<InstructionBodyView>,
    pub documentation: Option<Seq<char>>,
}

impl NormalizedInstructionView {
    /// The instruction without parameters, whose body is unknown.
    pub open spec fn new(name: Seq<char>, visibility: Seq<char>) -> NormalizedInstructionView {
        NormalizedInstructionView {
            name,
            visibility,
            parameters: Seq::empty(),
            return_type: None,
            account_struct_name: None,
            body: Some(InstructionBodyView::Unknown),
            documentation: None,
        }
    }

    /// The index of the first parameter that is a context.
    pub open spec fn context_parameter_index(self) -> Option<int> {
        first_index(self.parameters.map_values(|p: NormalizedParameterView| p.is_context), true)
    }

    /// Whether a parameter is a context.
    pub open spec fn has_context_parameter(self) -> bool {
        self.context_parameter_index().is_some()
    }
}

impl View for NormalizedInstruction {
    type V = NormalizedInstructionView;

    open spec fn view(&self) -> NormalizedInstructionView {
        NormalizedInstructionView {
            name: self.name@,
            visibility: self.visibility@,
            parameters: self.parameters@.map_values(|p: NormalizedParameter| p@),
            return_type: opt_text(self.return_type),
            account_struct_name: opt_text(self.account_struct_name),
            body: opt_body(self.body),
            documentation: opt_text(self.documentation),
        }
    }
}

/// The views of instructions.
pub open spec fn instruction_views(instructions: Seq<NormalizedInstruction>) -> Seq<
    NormalizedInstructionView,
> {
    instructions.map_values(|i: NormalizedInstruction| i@)
}

impl NormalizedInstruction {
    /// An instruction without parameters, whose body is unknown.
    pub fn new(name: impl IntoText, visibility: impl IntoText) -> (r: Self)
        ensures
            r@ == NormalizedInstructionView::new(name.text(), visibility.text()),
    {
        let r = NormalizedInstruction {
            name: name.into_text(),
            visibility: visibility.into_text(),
            parameters: Vec::new(),
            return_type: None,
            account_struct_name: None,
            body: Some(InstructionBody::Unknown),
            documentation: None,
        };
        assert(r@.parameters =~= Seq::empty());
        r
    }

    /// Appends a parameter.
    pub fn add_parameter(&mut self, parameter: NormalizedParameter)
        ensures
            final(self)@ == (NormalizedInstructionView {
                parameters: old(self)@.parameters.push(parameter@),
                ..old(self)@
            }),
    {
        self.parameters.push(parameter);
        assert(self@.parameters =~= old(self)@.parameters.push(parameter@));
    }

    /// `self` with the return type `ty`.
    pub fn with_return_type(self, ty: impl IntoText) -> (r: Self)
        ensures
            r@ == (NormalizedInstructionView { return_type: Some(ty.text()), ..self@ }),
    {
        let mut r = self;
        r.return_type = Some(ty.into_text());
        r
    }

    /// `self` with the account struct named `account_struct`.
    pub fn with_account_struct(self, account_struct: impl IntoText) -> (r: Self)
        ensures
            r@ == (NormalizedInstructionView {
                account_struct_name: Some(account_struct.text()),
                ..self@
            }),
    {
        let mut r = self;
        r.account_struct_name = Some(account_struct.into_text());
        r
    }

    /// `self` with the body `body`.
    pub fn with_body(self, body: InstructionBody) -> (r: Self)
        ensures
            r@ == (NormalizedInstructionView { body: Some(body@), ..self@ }),
    {
        let mut r = self;
        r.body = Some(body);
        r
    }

    /// `self` with the documentation `docs`.
    pub fn with_documentation(self, docs: impl IntoText) -> (r: Self)
        ensures
            r@ == (NormalizedInstructionView { documentation: Some(docs.text()), ..self@ }),
    {
        let mut r = self;
        r.documentation = Some(docs.into_text());
        r
    }

    /// Whether a parameter is a context.
    pub fn has_context_parameter(&self) -> (r: bool)
        ensures
            r == self@.has_context_parameter(),
    {
        self.get_context_parameter().is_some()
    }

    /// The first parameter that is a context.
    pub fn get_context_parameter(&self) -> (r: Option<&NormalizedParameter>)
        ensures
            r == match self@.context_parameter_index() {
                Some(i) => Some(&self.parameters[i]),
                None => None,
            },
    {
        let ghost flags = self@.parameters.map_values(|p: NormalizedParameterView| p.is_context);
        let mut i: usize = 0;
        while i < self.parameters.len()
            invariant
                i <= self.parameters.len(),
                flags == self@.parameters.map_values(|p: NormalizedParameterView| p.is_context),
                forall|j: int| 0 <= j < i ==> #[trigger] flags[j] != true,
            decreases self.parameters.len() - i,
        {
            if self.parameters[i].is_context {
                proof {
                    assert(flags[i as int] == true);
                    crate::seqs::lemma_first_index(flags, true);
                }
                return Some(&self.parameters[i]);
            }
            assert(flags[i as int] != true);
            i += 1;
        }
        proof {
            crate::seqs::lemma_first_index(flags, true);
        }
        None
    }
}

impl NormalizedParameter {
    /// A parameter.
    pub fn new(name: impl IntoText, ty: impl IntoText, is_context: bool) -> (r: Self)
        ensures
            r@ == (NormalizedParameterView { name: name.text(), ty: ty.text(), is_context }),
    {
        NormalizedParameter { name: name.into_text(), ty: ty.into_text(), is_context }
    }

    /// A context parameter over the account struct `context_type`: its type
    /// is `Context<` + `context_type` + `>`.
    pub fn new_context(name: impl IntoText, context_type: impl IntoText) -> (r: Self)
        ensures
            r@ == (NormalizedParameterView {
                name: name.text(),
                ty: context_type_text(context_type.text()),
                is_context: true,
            }),
    {
        let inner = context_type.into_text();
        let mut ty = "Context<".to_owned();
        ty.append(inner.as_str());
        ty.append(">");
        NormalizedParameter { name: name.into_text(), ty, is_context: true }
    }
}

} // verus!
