//! The normalized form of account structs and raw accounts: a copy, field
//! by field and constraint by constraint, in the order of the source.

use crate::error::NormalizationError;
use crate::model::account::{
    Account, AccountField, AccountFieldView, AccountView, Constraint, ConstraintView, RawAccount,
    RawAccountField, RawAccountFieldView, RawAccountView,
};
use crate::normalized::account::{
    NormalizedAccountField, NormalizedAccountFieldView, NormalizedAccountStruct,
    NormalizedAccountStructView, NormalizedConstraint, NormalizedConstraintView,
    NormalizedRawAccount, NormalizedRawAccountView, NormalizedRawField, NormalizedRawFieldView,
};
use crate::text::clone_opt_text;
use vstd::prelude::*;
use vstd::string::*;

verus! {

/// The normalized form of a constraint of the source: the same name and
/// value, marked as not inferred.
pub open spec fn normalized_constraint(c: ConstraintView) -> NormalizedConstraintView {
    NormalizedConstraintView {
        constraint_type: c.constraint_type,
        value: c.value,
        is_inferred: false,
    }
}

/// The normalized forms of constraints, in their order.
pub open spec fn normalized_constraints(cs: Seq<ConstraintView>) -> Seq<NormalizedConstraintView> {
    cs.map_values(|c: ConstraintView| normalized_constraint(c))
}

/// The field `f` after the constraints `cs` have been added to it, one
/// after the other.
pub open spec fn field_with_constraints(
    f: NormalizedAccountFieldView,
    cs: Seq<NormalizedConstraintView>,
) -> NormalizedAccountFieldView
    decreases cs.len(),
{
    if cs.len() == 0 {
        f
    } else {
        field_with_constraints(f, cs.drop_last()).with_constraint(cs.last())
    }
}

/// The normalized form of a field: its name and type, and its constraints
/// added in their order.
pub open spec fn normalized_field(f: AccountFieldView) -> NormalizedAccountFieldView {
    field_with_constraints(
        NormalizedAccountFieldView::new(f.name, f.ty),
        normalized_constraints(f.constraints),
    )
}

/// The normalized form of an account struct.
pub open spec fn normalized_struct(a: AccountView) -> NormalizedAccountStructView {
    NormalizedAccountStructView {
        name: a.name,
        visibility: a.visibility,
        fields: a.fields.map_values(|f: AccountFieldView| normalized_field(f)),
        documentation: None,
    }
}

/// The normalized form of a field of a raw account.
pub open spec fn normalized_raw_field(f: RawAccountFieldView) -> NormalizedRawFieldView {
    NormalizedRawFieldView {
        name: f.name,
        ty: f.ty,
        visibility: f.visibility,
        documentation: None,
    }
}

/// The normalized form of a raw account.
pub open spec fn normalized_raw_account(a: RawAccountView) -> NormalizedRawAccountView {
    NormalizedRawAccountView {
        name: a.name,
        visibility: a.visibility,
        fields: a.fields.map_values(|f: RawAccountFieldView| normalized_raw_field(f)),
        documentation: None,
    }
}

/// Adding constraints leaves the name and the type of a field as they are,
/// and appends the constraints to those that the field had.
pub proof fn lemma_field_with_constraints(
    f: NormalizedAccountFieldView,
    cs: Seq<NormalizedConstraintView>,
)
    ensures
        field_with_constraints(f, cs).name == f.name,
        field_with_constraints(f, cs).ty == f.ty,
        field_with_constraints(f, cs).documentation == f.documentation,
        field_with_constraints(f, cs).constraints == f.constraints + cs,
    decreases cs.len(),
{
    if cs.len() == 0 {
        assert(f.constraints + cs =~= f.constraints);
    } else {
        lemma_field_with_constraints(f, cs.drop_last());
        assert(f.constraints + cs =~= (f.constraints + cs.drop_last()).push(cs.last()));
    }
}

/// Copies an account struct into its normalized form.
pub fn normalize_account_struct(account: &Account) -> (r: Result<
    NormalizedAccountStruct,
    NormalizationError,
>)
    ensures
        r.is_ok(),
        r.unwrap()@ == normalized_struct(account@),
{
    let mut normalized = NormalizedAccountStruct::new(
        account.name.clone(),
        account.visibility.clone(),
    );
    let mut i: usize = 0;
    assert(normalized@.fields =~= account@.fields.take(0).map_values(
        |f: AccountFieldView| normalized_field(f),
    ));
    while i < account.fields.len()
        invariant
            i <= account.fields.len(),
            normalized@ == (NormalizedAccountStructView {
                fields: account@.fields.take(i as int).map_values(
                    |f: AccountFieldView| normalized_field(f),
                ),
                ..normalized_struct(account@)
            }),
        decreases account.fields.len() - i,
    {
        let field = normalize_account_field(&account.fields[i])?;
        proof {
            assert(account@.fields[i as int] == account.fields[i as int]@);
            account@.fields.lemma_map_take_succ(
                |f: AccountFieldView| normalized_field(f),
                i as int,
            );
        }
        normalized.add_field(field);
        i += 1;
    }
    assert(account@.fields.take(i as int) =~= account@.fields);
    Ok(normalized)
}

/// Copies a field into its normalized form.
pub fn normalize_account_field(field: &AccountField) -> (r: Result<
    NormalizedAccountField,
    NormalizationError,
>)
    ensures
        r.is_ok(),
        r.unwrap()@ == normalized_field(field@),
{
    let mut normalized = NormalizedAccountField::new(field.name.clone(), field.ty.clone());
    let ghost all = normalized_constraints(field@.constraints);
    let mut i: usize = 0;
    while i < field.constraints.len()
        invariant
            i <= field.constraints.len(),
            all == normalized_constraints(field@.constraints),
            normalized@ == field_with_constraints(
                NormalizedAccountFieldView::new(field@.name, field@.ty),
                all.take(i as int),
            ),
        decreases field.constraints.len() - i,
    {
        let constraint = normalize_constraint(&field.constraints[i])?;
        proof {
            assert(field@.constraints[i as int] == field.constraints[i as int]@);
            assert(all.take(i + 1).drop_last() =~= all.take(i as int));
            assert(all.take(i + 1).last() == constraint@);
        }
        normalized.add_constraint(constraint);
        i += 1;
    }
    assert(all.take(i as int) =~= all);
    Ok(normalized)
}

/// Copies a constraint into its normalized form.
pub fn normalize_constraint(constraint: &Constraint) -> (r: Result<
    NormalizedConstraint,
    NormalizationError,
>)
    ensures
        r.is_ok(),
        r.unwrap()@ == normalized_constraint(constraint@),
{
    Ok(
        NormalizedConstraint {
            constraint_type: constraint.constraint_type.clone(),
            value: clone_opt_text(&constraint.value),
            is_inferred: false,
        },
    )
}

/// Copies a raw account into its normalized form.
pub fn normalize_raw_account(account: &RawAccount) -> (r: Result<
    NormalizedRawAccount,
    NormalizationError,
>)
    ensures
        r.is_ok(),
        r.unwrap()@ == normalized_raw_account(account@),
{
    let mut normalized = NormalizedRawAccount::new(
        account.name.clone(),
        account.visibility.clone(),
    );
    let mut i: usize = 0;
    assert(normalized@.fields =~= account@.fields.take(0).map_values(
        |f: RawAccountFieldView| normalized_raw_field(f),
    ));
    while i < account.fields.len()
        invariant
            i <= account.fields.len(),
            normalized@ == (NormalizedRawAccountView {
                fields: account@.fields.take(i as int).map_values(
                    |f: RawAccountFieldView| normalized_raw_field(f),
                ),
                ..normalized_raw_account(account@)
            }),
        decreases account.fields.len() - i,
    {
        let field = normalize_raw_field(&account.fields[i])?;
        proof {
            assert(account@.fields[i as int] == account.fields[i as int]@);
            account@.fields.lemma_map_take_succ(
                |f: RawAccountFieldView| normalized_raw_field(f),
                i as int,
            );
        }
        normalized.add_field(field);
        i += 1;
    }
    assert(account@.fields.take(i as int) =~= account@.fields);
    Ok(normalized)
}

/// Copies a field of a raw account into its normalized form.
pub fn normalize_raw_field(field: &RawAccountField) -> (r: Result<
    NormalizedRawField,
    NormalizationError,
>)
    ensures
        r.is_ok(),
        r.unwrap()@ == normalized_raw_field(field@),
{
    Ok(NormalizedRawField::new(field.name.clone(), field.ty.clone(), field.visibility.clone()))
}

} // verus!
