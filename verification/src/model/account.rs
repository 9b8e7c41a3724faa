//! Account-validation structs (`#[derive(Accounts)]`) and raw accounts
//! (`#[account]`).

use crate::seqs::{first_index, lemma_first_index};
use crate::text::{opt_into_text, opt_text, same_text, IntoText};
use vstd::prelude::*;
use vstd::string::*;

verus! {

/// A validation rule on a field, from `#[account(...)]`.
#[derive(Debug, Clone)]
pub struct Constraint {
    /// The rule's name (`init`, `payer`, `seeds`, ...).
    pub constraint_type: String,
    /// The rule's value, kept as written.
    pub value: Option<String>,
}

/// The view of `Constraint`: what it holds, as sequences of characters.
pub struct ConstraintView {
    pub constraint_type: Seq<char>,
    pub value: Option<Seq<char>>,
}

impl View for Constraint {
    type V = ConstraintView;

    open spec fn view(&self) -> ConstraintView {
        ConstraintView { constraint_type: self.constraint_type@, value: opt_text(self.value) }
    }
}

/// A field of an account-validation struct.
#[derive(Debug, Clone)]
pub struct AccountField {
    pub name: String,
    /// The field's type, as canonical text.
    pub ty: String,
    /// The field's constraints, in declaration order.
    pub constraints: Vec<Constraint>,
}

/// The view of `AccountField`: what it holds, as sequences of characters.
pub struct AccountFieldView {
    pub name: Seq<char>,
    pub ty: Seq<char>,
    pub constraints: Seq<ConstraintView>,
}

impl AccountFieldView {
    /// The names of the constraints, in order.
    pub open spec fn constraint_types(self) -> Seq<Seq<char>> {
        self.constraints.map_values(|c: ConstraintView| c.constraint_type)
    }

    /// The index of the first constraint named `constraint_type`.
    pub open spec fn constraint_index(self, constraint_type: Seq<char>) -> Option<int> {
        first_index(self.constraint_types(), constraint_type)
    }
}

impl View for AccountField {
    type V = AccountFieldView;

    open spec fn view(&self) -> AccountFieldView {
        AccountFieldView {
            name: self.name@,
            ty: self.ty@,
            constraints: self.constraints@.map_values(|c: Constraint| c@),
        }
    }
}

/// An account-validation struct.
#[derive(Debug, Clone)]
pub struct Account {
    pub name: String,
    /// `""`, `"pub"`, `"pub(crate)"`, ...
    pub visibility: String,
    /// The fields, in declaration order.
    pub fields: Vec<AccountField>,
}

/// The view of `Account`: what it holds, as sequences of characters.
pub struct AccountView {
    pub name: Seq<char>,
    pub visibility: Seq<char>,
    pub fields: Seq<AccountFieldView>,
}

impl AccountView {
    /// The names of the fields, in order.
    pub open spec fn field_names(self) -> Seq<Seq<char>> {
        self.fields.map_values(|f: AccountFieldView| f.name)
    }

    /// The index of the first field named `name`.
    pub open spec fn field_index(self, name: Seq<char>) -> Option<int> {
        first_index(self.field_names(), name)
    }
}

impl View for Account {
    type V = AccountView;

    open spec fn view(&self) -> AccountView {
        AccountView {
            name: self.name@,
            visibility: self.visibility@,
            fields: self.fields@.map_values(|f: AccountField| f@),
        }
    }
}

/// A field of a raw account.
#[derive(Debug, Clone)]
pub struct RawAccountField {
    pub name: String,
    pub ty: String,
    pub visibility: String,
}

/// The view of `RawAccountField`: what it holds, as sequences of characters.
pub struct RawAccountFieldView {
    pub name: Seq<char>,
    pub ty: Seq<char>,
    pub visibility: Seq<char>,
}

impl View for RawAccountField {
    type V = RawAccountFieldView;

    open spec fn view(&self) -> RawAccountFieldView {
        RawAccountFieldView { name: self.name@, ty: self.ty@, visibility: self.visibility@ }
    }
}

/// A raw account: the layout of data kept on chain.
#[derive(Debug, Clone)]
pub struct RawAccount {
    pub name: String,
    pub visibility: String,
    pub fields: Vec<RawAccountField>,
}

/// The view of `RawAccount`: what it holds, as sequences of characters.
pub struct RawAccountView {
    pub name: Seq<char>,
    pub visibility: Seq<char>,
    pub fields: Seq<RawAccountFieldView>,
}

impl RawAccountView {
    /// The names of the fields, in order.
    pub open spec fn field_names(self) -> Seq<Seq<char>> {
        self.fields.map_values(|f: RawAccountFieldView| f.name)
    }

    /// The index of the first field named `name`.
    pub open spec fn field_index(self, name: Seq<char>) -> Option<int> {
        first_index(self.field_names(), name)
    }
}

impl View for RawAccount {
    type V = RawAccountView;

    open spec fn view(&self) -> RawAccountView {
        RawAccountView {
            name: self.name@,
            visibility: self.visibility@,
            fields: self.fields@.map_values(|f: RawAccountField| f@),
        }
    }
}

impl Account {
    /// An account struct without fields.
    pub fn new(name: impl IntoText, visibility: impl IntoText) -> (r: Self)
        ensures
            r@ == (AccountView {
                name: name.text(),
                visibility: visibility.text(),
                fields: Seq::empty(),
            }),
    {
        let r = Account {
            name: name.into_text(),
            visibility: visibility.into_text(),
            fields: Vec::new(),
        };
        assert(r@.fields =~= Seq::empty());
        r
    }

    /// Appends a field.
    pub fn add_field(&mut self, field: AccountField)
        ensures
            final(self)@ == (AccountView {
                fields: old(self)@.fields.push(field@),
                ..old(self)@
            }),
    {
        self.fields.push(field);
        assert(self@.fields =~= old(self)@.fields.push(field@));
    }

    /// The first field named `name`.
    pub fn find_field(&self, name: &str) -> (r: Option<&AccountField>)
        ensures
            r == match self@.field_index(name@) {
                Some(i) => Some(&self.fields[i]),
                None => None,
            },
    {
        let mut i: usize = 0;
        while i < self.fields.len()
            invariant
                i <= self.fields.len(),
                forall|j: int| 0 <= j < i ==> #[trigger] self@.field_names()[j] != name@,
            decreases self.fields.len() - i,
        {
            if same_text(self.fields[i].name.as_str(), name) {
                proof {
                    assert(self@.field_names()[i as int] == name@);
                    lemma_first_index(self@.field_names(), name@);
                }
                return Some(&self.fields[i]);
            }
            assert(self@.field_names()[i as int] != name@);
            i += 1;
        }
        proof {
            lemma_first_index(self@.field_names(), name@);
        }
        None
    }

    /// `self` with one more field.
    pub fn with_field(self, field: AccountField) -> (r: Self)
        ensures
            r@ == (AccountView { fields: self@.fields.push(field@), ..self@ }),
    {
        let mut r = self;
        r.add_field(field);
        r
    }

    /// `self` with `fields` in place of its fields.
    pub fn with_fields(self, fields: Vec<AccountField>) -> (r: Self)
        ensures
            r@ == (AccountView { fields: fields@.map_values(|f: AccountField| f@), ..self@ }),
    {
        let mut r = self;
        r.fields = fields;
        r
    }
}

impl Default for Account {
    fn default() -> (r: Self)
        ensures
            r@ == (AccountView {
                name: Seq::empty(),
                visibility: Seq::empty(),
                fields: Seq::empty(),
            }),
    {
        let r = Account { name: String::new(), visibility: String::new(), fields: Vec::new() };
        assert(r@.fields =~= Seq::empty());
        r
    }
}

impl AccountField {
    /// A field without constraints.
    pub fn new(name: impl IntoText, ty: impl IntoText) -> (r: Self)
        ensures
            r@ == (AccountFieldView {
                name: name.text(),
                ty: ty.text(),
                constraints: Seq::empty(),
            }),
    {
        let r = AccountField {
            name: name.into_text(),
            ty: ty.into_text(),
            constraints: Vec::new(),
        };
        assert(r@.constraints =~= Seq::empty());
        r
    }

    /// Appends a constraint.
    pub fn add_constraint(&mut self, constraint: Constraint)
        ensures
            final(self)@ == (AccountFieldView {
                constraints: old(self)@.constraints.push(constraint@),
                ..old(self)@
            }),
    {
        self.constraints.push(constraint);
        assert(self@.constraints =~= old(self)@.constraints.push(constraint@));
    }

    /// The first constraint named `constraint_type`.
    pub fn find_constraint(&self, constraint_type: &str) -> (r: Option<&Constraint>)
        ensures
            r == match self@.constraint_index(constraint_type@) {
                Some(i) => Some(&self.constraints[i]),
                None => None,
            },
    {
        let mut i: usize = 0;
        while i < self.constraints.len()
            invariant
                i <= self.constraints.len(),
                forall|j: int|
                    0 <= j < i ==> #[trigger] self@.constraint_types()[j] != constraint_type@,
            decreases self.constraints.len() - i,
        {
            if same_text(self.constraints[i].constraint_type.as_str(), constraint_type) {
                proof {
                    assert(self@.constraint_types()[i as int] == constraint_type@);
                    lemma_first_index(self@.constraint_types(), constraint_type@);
                }
                return Some(&self.constraints[i]);
            }
            assert(self@.constraint_types()[i as int] != constraint_type@);
            i += 1;
        }
        proof {
            lemma_first_index(self@.constraint_types(), constraint_type@);
        }
        None
    }

    /// `self` with one more constraint.
    pub fn with_constraint(self, constraint: Constraint) -> (r: Self)
        ensures
            r@ == (AccountFieldView {
                constraints: self@.constraints.push(constraint@),
                ..self@
            }),
    {
        let mut r = self;
        r.add_constraint(constraint);
        r
    }

    /// `self` with `constraints` in place of its constraints.
    pub fn with_constraints(self, constraints: Vec<Constraint>) -> (r: Self)
        ensures
            r@ == (AccountFieldView {
                constraints: constraints@.map_values(|c: Constraint| c@),
                ..self@
            }),
    {
        let mut r = self;
        r.constraints = constraints;
        r
    }
}

impl Default for AccountField {
    fn default() -> (r: Self)
        ensures
            r@ == (AccountFieldView {
                name: Seq::empty(),
                ty: Seq::empty(),
                constraints: Seq::empty(),
            }),
    {
        let r = AccountField { name: String::new(), ty: String::new(), constraints: Vec::new() };
        assert(r@.constraints =~= Seq::empty());
        r
    }
}

impl Constraint {
    /// A constraint with the given name and value.
    pub fn new(constraint_type: impl IntoText, value: Option<impl IntoText>) -> (r: Self)
        ensures
            r@ == (ConstraintView {
                constraint_type: constraint_type.text(),
                value: opt_into_text(value),
            }),
    {
        Constraint {
            constraint_type: constraint_type.into_text(),
            value: match value {
                Some(v) => Some(v.into_text()),
                None => None,
            },
        }
    }

    /// A constraint with a value.
    pub fn with_value(constraint_type: impl IntoText, value: impl IntoText) -> (r: Self)
        ensures
            r@ == (ConstraintView {
                constraint_type: constraint_type.text(),
                value: Some(value.text()),
            }),
    {
        Constraint { constraint_type: constraint_type.into_text(), value: Some(value.into_text()) }
    }

    /// A constraint without a value.
    pub fn without_value(constraint_type: impl IntoText) -> (r: Self)
        ensures
            r@ == (ConstraintView { constraint_type: constraint_type.text(), value: None }),
    {
        Constraint { constraint_type: constraint_type.into_text(), value: None }
    }
}

impl RawAccount {
    /// A raw account without fields.
    pub fn new(name: impl IntoText, visibility: impl IntoText) -> (r: Self)
        ensures
            r@ == (RawAccountView {
                name: name.text(),
                visibility: visibility.text(),
                fields: Seq::empty(),
            }),
    {
        let r = RawAccount {
            name: name.into_text(),
            visibility: visibility.into_text(),
            fields: Vec::new(),
        };
        assert(r@.fields =~= Seq::empty());
        r
    }

    /// Appends a field.
    pub fn add_field(&mut self, field: RawAccountField)
        ensures
            final(self)@ == (RawAccountView {
                fields: old(self)@.fields.push(field@),
                ..old(self)@
            }),
    {
        self.fields.push(field);
        assert(self@.fields =~= old(self)@.fields.push(field@));
    }

    /// The first field named `name`.
    pub fn find_field(&self, name: &str) -> (r: Option<&RawAccountField>)
        ensures
            r == match self@.field_index(name@) {
                Some(i) => Some(&self.fields[i]),
                None => None,
            },
    {
        let mut i: usize = 0;
        while i < self.fields.len()
            invariant
                i <= self.fields.len(),
                forall|j: int| 0 <= j < i ==> #[trigger] self@.field_names()[j] != name@,
            decreases self.fields.len() - i,
        {
            if same_text(self.fields[i].name.as_str(), name) {
                proof {
                    assert(self@.field_names()[i as int] == name@);
                    lemma_first_index(self@.field_names(), name@);
                }
                return Some(&self.fields[i]);
            }
            assert(self@.field_names()[i as int] != name@);
            i += 1;
        }
        proof {
            lemma_first_index(self@.field_names(), name@);
        }
        None
    }

    /// `self` with one more field.
    pub fn with_field(self, field: RawAccountField) -> (r: Self)
        ensures
            r@ == (RawAccountView { fields: self@.fields.push(field@), ..self@ }),
    {
        let mut r = self;
        r.add_field(field);
        r
    }

    /// `self` with `fields` in place of its fields.
    pub fn with_fields(self, fields: Vec<RawAccountField>) -> (r: Self)
        ensures
            r@ == (RawAccountView { fields: fields@.map_values(|f: RawAccountField| f@), ..self@ }),
    {
        let mut r = self;
        r.fields = fields;
        r
    }
}

impl Default for RawAccount {
    fn default() -> (r: Self)
        ensures
            r@ == (RawAccountView {
                name: Seq::empty(),
                visibility: Seq::empty(),
                fields: Seq::empty(),
            }),
    {
        let r = RawAccount { name: String::new(), visibility: String::new(), fields: Vec::new() };
        assert(r@.fields =~= Seq::empty());
        r
    }
}

impl RawAccountField {
    /// A field of a raw account.
    pub fn new(name: impl IntoText, ty: impl IntoText, visibility: impl IntoText) -> (r: Self)
        ensures
            r@ == (RawAccountFieldView {
                name: name.text(),
                ty: ty.text(),
                visibility: visibility.text(),
            }),
    {
        RawAccountField {
            name: name.into_text(),
            ty: ty.into_text(),
            visibility: visibility.into_text(),
        }
    }
}

impl Default for RawAccountField {
    fn default() -> (r: Self)
        ensures
            r@ == (RawAccountFieldView {
                name: Seq::empty(),
                ty: Seq::empty(),
                visibility: Seq::empty(),
            }),
    {
        RawAccountField { name: String::new(), ty: String::new(), visibility: String::new() }
    }
}

} // verus!
