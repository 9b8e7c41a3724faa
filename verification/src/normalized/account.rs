//! Normalized account structs and raw accounts.

use crate::seqs::{first_index, lemma_first_index};
use crate::text::{opt_into_text, opt_text, same_text, IntoText};
use vstd::prelude::*;
use vstd::string::*;

verus! {

/// A constraint on a field, with the mark of where it came from.
#[derive(Debug, Clone)]
pub struct NormalizedConstraint {
    pub constraint_type: String,
    pub value: Option<String>,
    /// Whether inference added the constraint; `false` for one that stands in
    /// the source.
    pub is_inferred: bool,
}

/// The view of `NormalizedConstraint`: what it holds, as sequences of characters.
pub struct NormalizedConstraintView {
    pub constraint_type: Seq<char>,
    pub value: Option<Seq<char>>,
    pub is_inferred: bool,
}

impl NormalizedConstraintView {
    /// The inferred constraint named `constraint_type`, without a value.
    pub open spec fn inferred(constraint_type: Seq<char>) -> NormalizedConstraintView {
        NormalizedConstraintView { constraint_type, value: None, is_inferred: true }
    }
}

impl View for NormalizedConstraint {
    type V = NormalizedConstraintView;

    open spec fn view(&self) -> NormalizedConstraintView {
        NormalizedConstraintView {
            constraint_type: self.constraint_type@,
            value: opt_text(self.value),
            is_inferred: self.is_inferred,
        }
    }
}

/// What the constraints of a field say of it.
#[derive(Debug, Clone)]
pub struct InferredFieldInfo {
    /// The field has a `mut` constraint.
    pub requires_mut: bool,
    /// The field has a `signer` constraint.
    pub requires_signer: bool,
    /// The field has an `init` constraint.
    pub is_initialized: bool,
    /// The name of a field that this one is related to.
    pub related_account: Option<String>,
}

/// The view of `InferredFieldInfo`: what it holds, as sequences of characters.
pub struct InferredFieldInfoView {
    pub requires_mut: bool,
    pub requires_signer: bool,
    pub is_initialized: bool,
    pub related_account: Option<Seq<char>>,
}

impl InferredFieldInfoView {
    /// The information on a field without constraints.
    pub open spec fn empty() -> InferredFieldInfoView {
        InferredFieldInfoView {
            requires_mut: false,
            requires_signer: false,
            is_initialized: false,
            related_account: None,
        }
    }

    /// The information once the constraint `c` has been added to the field.
    pub open spec fn with_constraint(self, c: NormalizedConstraintView) -> InferredFieldInfoView {
        if c.constraint_type == "mut"@ {
            InferredFieldInfoView { requires_mut: true, ..self }
        } else if c.constraint_type == "signer"@ {
            InferredFieldInfoView { requires_signer: true, ..self }
        } else if c.constraint_type == "init"@ {
            InferredFieldInfoView { is_initialized: true, ..self }
        } else if c.constraint_type == "payer"@ && c.value.is_some() {
            InferredFieldInfoView { related_account: c.value, ..self }
        } else {
            self
        }
    }
}

impl View for InferredFieldInfo {
    type V = InferredFieldInfoView;

    open spec fn view(&self) -> InferredFieldInfoView {
        InferredFieldInfoView {
            requires_mut: self.requires_mut,
            requires_signer: self.requires_signer,
            is_initialized: self.is_initialized,
            related_account: opt_text(self.related_account),
        }
    }
}

/// A field of a normalized account struct.
#[derive(Debug, Clone)]
pub struct NormalizedAccountField {
    pub name: String,
    pub ty: String,
    /// The constraints: those of the source, in declaration order, then
    /// those that inference added.
    pub constraints: Vec<NormalizedConstraint>,
    pub documentation: Option<String>,
    /// What the constraints say of the field; `add_constraint` keeps it in
    /// step with them.
    pub inferred_info: InferredFieldInfo,
}

/// The view of `NormalizedAccountField`: what it holds, as sequences of characters.
pub struct NormalizedAccountFieldView {
    pub name: Seq<char>,
    pub ty: Seq<char>,
    pub constraints: Seq<NormalizedConstraintView>,
    pub documentation: Option<Seq<char>>,
    pub inferred_info: InferredFieldInfoView,
}

impl NormalizedAccountFieldView {
    /// The field without constraints.
    pub open spec fn new(name: Seq<char>, ty: Seq<char>) -> NormalizedAccountFieldView {
        NormalizedAccountFieldView {
            name,
            ty,
            constraints: Seq::empty(),
            documentation: None,
            inferred_info: InferredFieldInfoView::empty(),
        }
    }

    /// The names of the constraints, in order.
    pub open spec fn constraint_types(self) -> Seq<Seq<char>> {
        self.constraints.map_values(|c: NormalizedConstraintView| c.constraint_type)
    }

    /// The index of the first constraint named `constraint_type`.
    pub open spec fn constraint_index(self, constraint_type: Seq<char>) -> Option<int> {
        first_index(self.constraint_types(), constraint_type)
    }

    /// Whether the field has a constraint named `constraint_type`.
    pub open spec fn has_constraint(self, constraint_type: Seq<char>) -> bool {
        self.constraint_index(constraint_type).is_some()
    }

    /// The value of the first constraint named `constraint_type`, where there
    /// is such a constraint and it has a value.
    pub open spec fn constraint_value(self, constraint_type: Seq<char>) -> Option<Seq<char>> {
        match self.constraint_index(constraint_type) {
            Some(i) => self.constraints[i].value,
            None => None,
        }
    }

    /// Whether the flags of the field say what its constraints say: the field
    /// requires `mut`, requires a signer or is initialized exactly where it
    /// has a constraint of that name.
    pub open spec fn flags_in_step(self) -> bool {
        &&& self.inferred_info.requires_mut == self.has_constraint("mut"@)
        &&& self.inferred_info.requires_signer == self.has_constraint("signer"@)
        &&& self.inferred_info.is_initialized == self.has_constraint("init"@)
    }

    /// The field with the constraint `c` added at the end.
    pub open spec fn with_constraint(self, c: NormalizedConstraintView) -> NormalizedAccountFieldView {
        NormalizedAccountFieldView {
            constraints: self.constraints.push(c),
            inferred_info: self.inferred_info.with_constraint(c),
            ..self
        }
    }
}

impl View for NormalizedAccountField {
    type V = NormalizedAccountFieldView;

    open spec fn view(&self) -> NormalizedAccountFieldView {
        NormalizedAccountFieldView {
            name: self.name@,
            ty: self.ty@,
            constraints: self.constraints@.map_values(|c: NormalizedConstraint| c@),
            documentation: opt_text(self.documentation),
            inferred_info: self.inferred_info@,
        }
    }
}

/// The views of fields.
pub open spec fn field_views(fields: Seq<NormalizedAccountField>) -> Seq<
    NormalizedAccountFieldView,
> {
    fields.map_values(|f: NormalizedAccountField| f@)
}

/// Adding a constraint keeps the flags of a field in step with its
/// constraints.
pub proof fn lemma_with_constraint_keeps_step(
    f: NormalizedAccountFieldView,
    c: NormalizedConstraintView,
)
    requires
        f.flags_in_step(),
    ensures
        f.with_constraint(c).flags_in_step(),
{
    reveal_strlit("mut");
    reveal_strlit("signer");
    reveal_strlit("init");
    assert("mut"@.len() == 3 && "signer"@.len() == 6 && "init"@.len() == 4);
    let g = f.with_constraint(c);
    assert(g.constraint_types() =~= f.constraint_types().push(c.constraint_type));
    crate::seqs::lemma_first_index_push(f.constraint_types(), c.constraint_type, "mut"@);
    crate::seqs::lemma_first_index_push(f.constraint_types(), c.constraint_type, "signer"@);
    crate::seqs::lemma_first_index_push(f.constraint_types(), c.constraint_type, "init"@);
}

/// A normalized account struct.
#[derive(Debug, Clone)]
pub struct NormalizedAccountStruct {
    pub name: String,
    pub visibility: String,
    /// The fields, in declaration order.
    pub fields: Vec<NormalizedAccountField>,
    pub documentation: Option<String>,
}

/// The view of `NormalizedAccountStruct`: what it holds, as sequences of characters.
pub struct NormalizedAccountStructView {
    pub name: Seq<char>,
    pub visibility: Seq<char>,
    pub fields: Seq<NormalizedAccountFieldView>,
    pub documentation: Option<Seq<char>>,
}

impl NormalizedAccountStructView {
    /// The names of the fields, in order.
    pub open spec fn field_names(self) -> Seq<Seq<char>> {
        self.fields.map_values(|f: NormalizedAccountFieldView| f.name)
    }

    /// The index of the first field named `name`.
    pub open spec fn field_index(self, name: Seq<char>) -> Option<int> {
        first_index(self.field_names(), name)
    }
}

impl View for NormalizedAccountStruct {
    type V = NormalizedAccountStructView;

    open spec fn view(&self) -> NormalizedAccountStructView {
        NormalizedAccountStructView {
            name: self.name@,
            visibility: self.visibility@,
            fields: field_views(self.fields@),
            documentation: opt_text(self.documentation),
        }
    }
}

/// The views of account structs.
pub open spec fn struct_views(structs: Seq<NormalizedAccountStruct>) -> Seq<
    NormalizedAccountStructView,
> {
    structs.map_values(|a: NormalizedAccountStruct| a@)
}

/// The names of account structs, in order.
pub open spec fn struct_names(structs: Seq<NormalizedAccountStructView>) -> Seq<Seq<char>> {
    structs.map_values(|a: NormalizedAccountStructView| a.name)
}

/// The index of the first of `structs` named `name`.
pub open spec fn struct_index(structs: Seq<NormalizedAccountStructView>, name: Seq<char>) -> Option<
    int,
> {
    first_index(struct_names(structs), name)
}

/// A field of a normalized raw account.
#[derive(Debug, Clone)]
pub struct NormalizedRawField {
    pub name: String,
    pub ty: String,
    pub visibility: String,
    pub documentation: Option<String>,
}

/// The view of `NormalizedRawField`: what it holds, as sequences of characters.
pub struct NormalizedRawFieldView {
    pub name: Seq<char>,
    pub ty: Seq<char>,
    pub visibility: Seq<char>,
    pub documentation: Option<Seq<char>>,
}

impl View for NormalizedRawField {
    type V = NormalizedRawFieldView;

    open spec fn view(&self) -> NormalizedRawFieldView {
        NormalizedRawFieldView {
            name: self.name@,
            ty: self.ty@,
            visibility: self.visibility@,
            documentation: opt_text(self.documentation),
        }
    }
}

/// A normalized raw account.
#[derive(Debug, Clone)]
pub struct NormalizedRawAccount {
    pub name: String,
    pub visibility: String,
    /// The fields, in declaration order.
    pub fields: Vec<NormalizedRawField>,
    pub documentation: Option<String>,
}

/// The view of `NormalizedRawAccount`: what it holds, as sequences of characters.
pub struct NormalizedRawAccountView {
    pub name: Seq<char>,
    pub visibility: Seq<char>,
    pub fields: Seq<NormalizedRawFieldView>,
    pub documentation: Option<Seq<char>>,
}

impl NormalizedRawAccountView {
    /// The names of the fields, in order.
    pub open spec fn field_names(self) -> Seq<Seq<char>> {
        self.fields.map_values(|f: NormalizedRawFieldView| f.name)
    }

    /// The index of the first field named `name`.
    pub open spec fn field_index(self, name: Seq<char>) -> Option<int> {
        first_index(self.field_names(), name)
    }
}

impl View for NormalizedRawAccount {
    type V = NormalizedRawAccountView;

    open spec fn view(&self) -> NormalizedRawAccountView {
        NormalizedRawAccountView {
            name: self.name@,
            visibility: self.visibility@,
            fields: self.fields@.map_values(|f: NormalizedRawField| f@),
            documentation: opt_text(self.documentation),
        }
    }
}

impl NormalizedAccountStruct {
    /// An account struct without fields or documentation.
    pub fn new(name: impl IntoText, visibility: impl IntoText) -> (r: Self)
        ensures
            r@ == (NormalizedAccountStructView {
                name: name.text(),
                visibility: visibility.text(),
                fields: Seq::empty(),
                documentation: None,
            }),
    {
        let r = NormalizedAccountStruct {
            name: name.into_text(),
            visibility: visibility.into_text(),
            fields: Vec::new(),
            documentation: None,
        };
        assert(r@.fields =~= Seq::empty());
        r
    }

    /// Appends a field.
    pub fn add_field(&mut self, field: NormalizedAccountField)
        ensures
            final(self)@ == (NormalizedAccountStructView {
                fields: old(self)@.fields.push(field@),
                ..old(self)@
            }),
    {
        self.fields.push(field);
        assert(self@.fields =~= old(self)@.fields.push(field@));
    }

    /// The first field named `name`.
    pub fn find_field(&self, name: &str) -> (r: Option<&NormalizedAccountField>)
        ensures
            r == match self@.field_index(name@) {
                Some(i) => Some(&self.fields[i]),
                None => None,
            },
    {
        let mut i: usize = 0;
        while i < self.fields.len()
            invariant
                i <= self.fields.len(),
                forall|j: int| 0 <= j < i ==> #[trigger] self@.field_names()[j] != name@,
            decreases self.fields.len() - i,
        {
            if same_text(self.fields[i].name.as_str(), name) {
                proof {
                    assert(self@.field_names()[i as int] == name@);
                    lemma_first_index(self@.field_names(), name@);
                }
                return Some(&self.fields[i]);
            }
            assert(self@.field_names()[i as int] != name@);
            i += 1;
        }
        proof {
            lemma_first_index(self@.field_names(), name@);
        }
        None
    }

    /// `self` with the documentation `docs`.
    pub fn with_documentation(self, docs: impl IntoText) -> (r: Self)
        ensures
            r@ == (NormalizedAccountStructView { documentation: Some(docs.text()), ..self@ }),
    {
        let mut r = self;
        r.documentation = Some(docs.into_text());
        r
    }
}

impl NormalizedAccountField {
    /// A field without constraints or documentation.
    pub fn new(name: impl IntoText, ty: impl IntoText) -> (r: Self)
        ensures
            r@ == NormalizedAccountFieldView::new(name.text(), ty.text()),
            r@.flags_in_step(),
    {
        let r = NormalizedAccountField {
            name: name.into_text(),
            ty: ty.into_text(),
            constraints: Vec::new(),
            documentation: None,
            inferred_info: InferredFieldInfo::new(),
        };
        assert(r@.constraints =~= Seq::empty());
        r
    }

    /// Appends a constraint, and records what it says of the field: `mut`,
    /// `signer` and `init` set their flag, and `payer` with a value names the
    /// related account.
    pub fn add_constraint(&mut self, constraint: NormalizedConstraint)
        ensures
            final(self)@ == old(self)@.with_constraint(constraint@),
            old(self)@.flags_in_step() ==> final(self)@.flags_in_step(),
    {
        proof {
            if old(self)@.flags_in_step() {
                lemma_with_constraint_keeps_step(old(self)@, constraint@);
            }
        }
        let kind = constraint.constraint_type.as_str();
        if same_text(kind, "mut") {
            self.inferred_info.requires_mut = true;
        } else if same_text(kind, "signer") {
            self.inferred_info.requires_signer = true;
        } else if same_text(kind, "init") {
            self.inferred_info.is_initialized = true;
        } else if same_text(kind, "payer") {
            match &constraint.value {
                Some(value) => {
                    self.inferred_info.related_account = Some(value.clone());
                },
                None => {},
            }
        }
        self.constraints.push(constraint);
        assert(self@.constraints =~= old(self)@.constraints.push(constraint@));
    }

    /// The first constraint named `constraint_type`.
    pub fn find_constraint(&self, constraint_type: &str) -> (r: Option<&NormalizedConstraint>)
        ensures
            r == match self@.constraint_index(constraint_type@) {
                Some(i) => Some(&self.constraints[i]),
                None => None,
            },
    {
        let mut i: usize = 0;
        while i < self.constraints.len()
            invariant
                i <= self.constraints.len(),
                forall|j: int|
                    0 <= j < i ==> #[trigger] self@.constraint_types()[j] != constraint_type@,
            decreases self.constraints.len() - i,
        {
            if same_text(self.constraints[i].constraint_type.as_str(), constraint_type) {
                proof {
                    assert(self@.constraint_types()[i as int] == constraint_type@);
                    lemma_first_index(self@.constraint_types(), constraint_type@);
                }
                return Some(&self.constraints[i]);
            }
            assert(self@.constraint_types()[i as int] != constraint_type@);
            i += 1;
        }
        proof {
            lemma_first_index(self@.constraint_types(), constraint_type@);
        }
        None
    }

    /// `self` with the documentation `docs`.
    pub fn with_documentation(self, docs: impl IntoText) -> (r: Self)
        ensures
            r@ == (NormalizedAccountFieldView { documentation: Some(docs.text()), ..self@ }),
    {
        let mut r = self;
        r.documentation = Some(docs.into_text());
        r
    }
}

impl NormalizedConstraint {
    /// A constraint.
    pub fn new(constraint_type: impl IntoText, value: Option<impl IntoText>, is_inferred: bool) -> (r:
        Self)
        ensures
            r@ == (NormalizedConstraintView {
                constraint_type: constraint_type.text(),
                value: opt_into_text(value),
                is_inferred,
            }),
    {
        NormalizedConstraint {
            constraint_type: constraint_type.into_text(),
            value: match value {
                Some(v) => Some(v.into_text()),
                None => None,
            },
            is_inferred,
        }
    }

    /// A constraint without a value.
    pub fn without_value(constraint_type: impl IntoText, is_inferred: bool) -> (r: Self)
        ensures
            r@ == (NormalizedConstraintView {
                constraint_type: constraint_type.text(),
                value: None,
                is_inferred,
            }),
    {
        NormalizedConstraint { constraint_type: constraint_type.into_text(), value: None, is_inferred }
    }

    /// A constraint with a value.
    pub fn with_value(constraint_type: impl IntoText, value: impl IntoText, is_inferred: bool) -> (r:
        Self)
        ensures
            r@ == (NormalizedConstraintView {
                constraint_type: constraint_type.text(),
                value: Some(value.text()),
                is_inferred,
            }),
    {
        NormalizedConstraint {
            constraint_type: constraint_type.into_text(),
            value: Some(value.into_text()),
            is_inferred,
        }
    }
}

impl InferredFieldInfo {
    /// The information on a field without constraints.
    pub fn new() -> (r: Self)
        ensures
            r@ == InferredFieldInfoView::empty(),
    {
        InferredFieldInfo {
            requires_mut: false,
            requires_signer: false,
            is_initialized: false,
            related_account: None,
        }
    }
}

impl NormalizedRawAccount {
    /// A raw account without fields or documentation.
    pub fn new(name: impl IntoText, visibility: impl IntoText) -> (r: Self)
        ensures
            r@ == (NormalizedRawAccountView {
                name: name.text(),
                visibility: visibility.text(),
                fields: Seq::empty(),
                documentation: None,
            }),
    {
        let r = NormalizedRawAccount {
            name: name.into_text(),
            visibility: visibility.into_text(),
            fields: Vec::new(),
            documentation: None,
        };
        assert(r@.fields =~= Seq::empty());
        r
    }

    /// Appends a field.
    pub fn add_field(&mut self, field: NormalizedRawField)
        ensures
            final(self)@ == (NormalizedRawAccountView {
                fields: old(self)@.fields.push(field@),
                ..old(self)@
            }),
    {
        self.fields.push(field);
        assert(self@.fields =~= old(self)@.fields.push(field@));
    }

    /// The first field named `name`.
    pub fn find_field(&self, name: &str) -> (r: Option<&NormalizedRawField>)
        ensures
            r == match self@.field_index(name@) {
                Some(i) => Some(&self.fields[i]),
                None => None,
            },
    {
        let mut i: usize = 0;
        while i < self.fields.len()
            invariant
                i <= self.fields.len(),
                forall|j: int| 0 <= j < i ==> #[trigger] self@.field_names()[j] != name@,
            decreases self.fields.len() - i,
        {
            if same_text(self.fields[i].name.as_str(), name) {
                proof {
                    assert(self@.field_names()[i as int] == name@);
                    lemma_first_index(self@.field_names(), name@);
                }
                return Some(&self.fields[i]);
            }
            assert(self@.field_names()[i as int] != name@);
            i += 1;
        }
        proof {
            lemma_first_index(self@.field_names(), name@);
        }
        None
    }

    /// `self` with the documentation `docs`.
    pub fn with_documentation(self, docs: impl IntoText) -> (r: Self)
        ensures
            r@ == (NormalizedRawAccountView { documentation: Some(docs.text()), ..self@ }),
    {
        let mut r = self;
        r.documentation = Some(docs.into_text());
        r
    }
}

impl NormalizedRawField {
    /// A field without documentation.
    pub fn new(name: impl IntoText, ty: impl IntoText, visibility: impl IntoText) -> (r: Self)
        ensures
            r@ == (NormalizedRawFieldView {
                name: name.text(),
                ty: ty.text(),
                visibility: visibility.text(),
                documentation: None,
            }),
    {
        NormalizedRawField {
            name: name.into_text(),
            ty: ty.into_text(),
            visibility: visibility.into_text(),
            documentation: None,
        }
    }

    /// `self` with the documentation `docs`.
    pub fn with_documentation(self, docs: impl IntoText) -> (r: Self)
        ensures
            r@ == (NormalizedRawFieldView { documentation: Some(docs.text()), ..self@ }),
    {
        let mut r = self;
        r.documentation = Some(docs.into_text());
        r
    }
}

} // verus!
