//! The model builder: from the classified syntax nodes to the base model.

use crate::error::{ParseError, ParseErrorView};
use crate::model::account::{
    Account, AccountField, AccountFieldView, AccountView, Constraint, ConstraintView, RawAccount,
    RawAccountField, RawAccountFieldView, RawAccountView,
};
use crate::model::instruction::{Instruction, InstructionView, Parameter, ParameterView};
use crate::model::program::{Program, ProgramModule, ProgramModuleView, ProgramView};
use crate::parser::constraints::{
    argument_bounds, attribute_arguments, constraint_views, parse_constraints_between,
    parsed_constraints,
};
use crate::parser::predicates::{
    attribute_is, has_context_type, is_account_struct, is_account_struct_node,
    is_anchor_instruction, is_anchor_program, is_context_type, is_instruction, is_program_module,
    is_raw_account, is_raw_account_node,
};
use crate::parser::types::{canonical, canonical_type_text};
use crate::seqs::{first_index, lemma_first_index, lemma_first_index_push};
use crate::syntax::{
    field_node_views, module_item_views, AttributeNode, AttributeNodeView, FieldNode,
    FieldNodeView, FieldsNode, FnArgNode, FnArgNodeView, FunctionNode, FunctionNodeView,
    GenericArgumentNode, GenericArgumentNodeView, ItemNode, ItemNodeView, ModuleItemNode,
    ModuleItemNodeView, ModuleNode, ModuleNodeView, StructNode, StructNodeView, SyntaxFile,
    SyntaxFileView, TypeBase, TypeBaseView, TypeNode, TypeNodeView, VisibilityNode,
    VisibilityNodeView,
};
use crate::text::{chars_of, opt_text};
use vstd::prelude::*;
use vstd::string::*;

verus! {

/// The message of the one error of the model builder.
pub open spec fn malformed_attribute_message() -> Seq<char> {
    "Failed to parse account attribute"@
}

/// The text of a visibility: `pub`, `pub(path)`, or nothing.
pub open spec fn visibility_text(v: VisibilityNodeView) -> Seq<char> {
    match v {
        VisibilityNodeView::Public => "pub"@,
        VisibilityNodeView::Restricted(path) => "pub("@ + path + ")"@,
        VisibilityNodeView::Inherited => Seq::empty(),
    }
}

/// The text of a visibility.
pub fn format_visibility(vis: &VisibilityNode) -> (r: String)
    ensures
        r@ == visibility_text(vis@),
{
    match vis {
        VisibilityNode::Public => "pub".to_owned(),
        VisibilityNode::Restricted(path) => {
            let mut r = "pub(".to_owned();
            r.append(path.as_str());
            r.append(")");
            r
        },
        VisibilityNode::Inherited => String::new(),
    }
}

/// The canonical text of a type.
pub fn format_type(ty: &TypeNode) -> (r: String)
    ensures
        r@ == canonical(ty@.tokens),
{
    canonical_type_text(ty.tokens.as_str())
}

/// The name of the account struct that a context names: the canonical text
/// of the type between the angle brackets of its last segment, where
/// exactly one argument stands there and it is a type.
pub open spec fn context_struct_name(t: TypeNodeView) -> Option<Seq<char>> {
    match t.base {
        TypeBaseView::Path(segments) => if segments.len() > 0 && segments.last().arguments.len()
            == 1 {
            match segments.last().arguments[0] {
                GenericArgumentNodeView::Type(tokens) => Some(canonical(tokens)),
                GenericArgumentNodeView::Other => None,
            }
        } else {
            None
        },
        TypeBaseView::Other => None,
    }
}

/// Whether a type is a context, and the account struct that it names.
pub open spec fn context_info(t: TypeNodeView) -> (bool, Option<Seq<char>>) {
    if is_context_type(t) {
        (true, context_struct_name(t))
    } else {
        (false, None)
    }
}

/// Whether `ty` is a context, and the account struct that it names.
pub fn get_context_info(ty: &TypeNode) -> (r: (bool, Option<String>))
    ensures
        (r.0, opt_text(r.1)) == context_info(ty@),
{
    if !has_context_type(ty) {
        return (false, None);
    }
    match &ty.base {
        TypeBase::Path(segments) => {
            let n = segments.len();
            assert(n > 0);
            let last = &segments[n - 1];
            assert(crate::syntax::segment_views(segments@).last() == last@);
            if last.arguments.len() == 1 {
                assert(last@.arguments[0] == last.arguments[0]@);
                match &last.arguments[0] {
                    GenericArgumentNode::Type(tokens) => (
                        true,
                        Some(canonical_type_text(tokens.as_str())),
                    ),
                    GenericArgumentNode::Other => (true, None),
                }
            } else {
                (true, None)
            }
        },
        TypeBase::Other => (true, None),
    }
}

/// The name of a parameter whose pattern is no identifier.
pub open spec fn unnamed() -> Seq<char> {
    "unnamed"@
}

/// The parameter that a function argument becomes: none for a receiver.
pub open spec fn converted_parameter(a: FnArgNodeView) -> Seq<ParameterView> {
    match a {
        FnArgNodeView::Receiver => Seq::empty(),
        FnArgNodeView::Typed { name, ty } => seq![
            ParameterView {
                name: match name {
                    Some(n) => n,
                    None => unnamed(),
                },
                ty: canonical(ty.tokens),
                is_context: is_context_type(ty),
            },
        ],
    }
}

/// The account struct that a function argument names as a context.
pub open spec fn resolved_context(a: FnArgNodeView) -> Option<Seq<char>> {
    match a {
        FnArgNodeView::Receiver => None,
        FnArgNodeView::Typed { name, ty } => context_info(ty).1,
    }
}

/// For each argument, whether it names an account struct as a context.
pub open spec fn resolved_flags(inputs: Seq<FnArgNodeView>) -> Seq<bool> {
    inputs.map_values(|a: FnArgNodeView| resolved_context(a).is_some())
}

/// The account struct that the first context among `inputs` names, not
/// counting contexts that name none.
pub open spec fn first_resolved_context(inputs: Seq<FnArgNodeView>) -> Option<Seq<char>> {
    match first_index(resolved_flags(inputs), true) {
        Some(i) => resolved_context(inputs[i]),
        None => None,
    }
}

/// The parameters that function arguments become, in order.
pub open spec fn converted_parameters(inputs: Seq<FnArgNodeView>) -> Seq<ParameterView> {
    inputs.flat_map(|a: FnArgNodeView| converted_parameter(a))
}

/// The instruction that a function becomes.
pub open spec fn converted_instruction(f: FunctionNodeView) -> InstructionView {
    InstructionView {
        name: f.name,
        visibility: visibility_text(f.visibility),
        parameters: converted_parameters(f.inputs),
        return_type: match f.output {
            Some(ty) => Some(canonical(ty.tokens)),
            None => None,
        },
        context_type: first_resolved_context(f.inputs),
    }
}

/// Builds the instruction of a function.
pub fn convert_instruction(function: &FunctionNode) -> (r: Result<Instruction, ParseError>)
    ensures
        r.is_ok(),
        r.unwrap()@ == converted_instruction(function@),
{
    let mut instruction = Instruction::new(
        function.name.clone(),
        format_visibility(&function.visibility),
    );
    match &function.output {
        Some(ty) => {
            instruction.set_return_type(format_type(ty));
        },
        None => {},
    }
    let ghost inputs = function@.inputs;
    let mut i: usize = 0;
    proof {
        assert(inputs.take(0) =~= Seq::<FnArgNodeView>::empty());
        assert(resolved_flags(inputs.take(0)) =~= Seq::<bool>::empty());
        assert(instruction@.parameters =~= converted_parameters(inputs.take(0)));
    }
    while i < function.inputs.len()
        invariant
            i <= function.inputs.len(),
            inputs == function@.inputs,
            instruction@ == (InstructionView {
                parameters: converted_parameters(inputs.take(i as int)),
                context_type: first_resolved_context(inputs.take(i as int)),
                ..converted_instruction(function@)
            }),
        decreases function.inputs.len() - i,
    {
        let ghost before = instruction@;
        assert(inputs[i as int] == function.inputs[i as int]@);
        proof {
            inputs.lemma_flat_map_take_append(
                |a: FnArgNodeView| converted_parameter(a),
                i as int,
            );
            assert(inputs.take(i + 1) =~= inputs.take(i as int).push(inputs[i as int]));
            assert(resolved_flags(inputs.take(i + 1)) =~= resolved_flags(
                inputs.take(i as int),
            ).push(resolved_context(inputs[i as int]).is_some()));
            lemma_first_index_push(
                resolved_flags(inputs.take(i as int)),
                resolved_context(inputs[i as int]).is_some(),
                true,
            );
            lemma_first_index(resolved_flags(inputs.take(i as int)), true);
        }
        match &function.inputs[i] {
            FnArgNode::Typed { name, ty } => {
                let param_name = match name {
                    Some(n) => n.clone(),
                    None => "unnamed".to_owned(),
                };
                let (is_context, context_type) = get_context_info(ty);
                let param_type = format_type(ty);
                if is_context && instruction.context_type.is_none() {
                    match context_type {
                        Some(name) => {
                            instruction.set_context_type(name);
                        },
                        None => {},
                    }
                }
                let parameter = Parameter::new(param_name, param_type, is_context);
                instruction.add_parameter(parameter);
                assert(instruction@.parameters =~= before.parameters + converted_parameter(
                    inputs[i as int],
                ));
            },
            FnArgNode::Receiver => {
                assert(instruction@.parameters =~= before.parameters + converted_parameter(
                    inputs[i as int],
                ));
            },
        }
        i += 1;
    }
    assert(inputs.take(i as int) =~= inputs);
    Ok(instruction)
}

/// The constraints that the arguments of an attribute state; nothing for an
/// attribute without arguments between `(` and `)`.
pub open spec fn argument_constraints(tokens: Seq<char>) -> Option<Seq<ConstraintView>> {
    match attribute_arguments(tokens) {
        Some(arguments) => Some(parsed_constraints(arguments)),
        None => None,
    }
}

/// Whether an attribute can be read: any attribute but an `account`
/// without arguments.
pub open spec fn attribute_well_formed(a: AttributeNodeView) -> bool {
    a.ident == Some("account"@) ==> argument_constraints(a.tokens).is_some()
}

/// The constraints that an attribute adds to its field: those of its
/// arguments for an `account`, none for any other.
pub open spec fn attribute_constraints(a: AttributeNodeView) -> Seq<ConstraintView> {
    if a.ident == Some("account"@) {
        match argument_constraints(a.tokens) {
            Some(constraints) => constraints,
            None => Seq::empty(),
        }
    } else {
        Seq::empty()
    }
}

/// The constraints that the attributes of a field state, in the order of the
/// attributes.
pub open spec fn field_constraints(attributes: Seq<AttributeNodeView>) -> Seq<ConstraintView> {
    attributes.flat_map(|a: AttributeNodeView| attribute_constraints(a))
}

/// Whether a field can be read: it has no name, or all its attributes can be
/// read.
pub open spec fn field_well_formed(f: FieldNodeView) -> bool {
    f.ident.is_some() ==> forall|i: int|
        0 <= i < f.attributes.len() ==> attribute_well_formed(#[trigger] f.attributes[i])
}

/// The field of an account struct that a field becomes: none for a field
/// without a name.
pub open spec fn converted_field(f: FieldNodeView) -> Seq<AccountFieldView> {
    match f.ident {
        Some(name) => seq![
            AccountFieldView {
                name,
                ty: canonical(f.ty.tokens),
                constraints: field_constraints(f.attributes),
            },
        ],
        None => Seq::empty(),
    }
}

/// Whether a struct can be read as an account struct: all its fields can be
/// read.
pub open spec fn struct_well_formed(s: StructNodeView) -> bool {
    forall|i: int|
        0 <= i < s.fields.all().len() ==> field_well_formed(#[trigger] s.fields.all()[i])
}

/// The account struct that a struct becomes.
pub open spec fn converted_account_struct(s: StructNodeView) -> AccountView {
    AccountView {
        name: s.name,
        visibility: visibility_text(s.visibility),
        fields: s.fields.all().flat_map(|f: FieldNodeView| converted_field(f)),
    }
}

/// Adds to `field` the constraints that the arguments of `attr` state. It
/// fails, and leaves `field` as it is, where `attr` has no arguments between
/// `(` and `)`.
pub fn process_account_constraints(attr: &AttributeNode, field: &mut AccountField) -> (r: Result<
    (),
    ParseError,
>)
    ensures
        match r {
            Ok(_) => argument_constraints(attr@.tokens) matches Some(constraints) && final(field)@
                == (AccountFieldView {
                constraints: old(field)@.constraints + constraints,
                ..old(field)@
            }),
            Err(e) => argument_constraints(attr@.tokens).is_none() && e@ == ParseErrorView::Parse(
                malformed_attribute_message(),
            ) && final(field)@ == old(field)@,
        },
{
    let chars = chars_of(attr.tokens.as_str());
    match argument_bounds(&chars) {
        Some((a, b)) => {
            let constraints = parse_constraints_between(&chars, a, b);
            let ghost added = constraint_views(constraints@);
            let mut k: usize = 0;
            assert(field@.constraints =~= old(field)@.constraints + added.take(0));
            while k < constraints.len()
                invariant
                    k <= constraints.len(),
                    added == constraint_views(constraints@),
                    field@ == (AccountFieldView {
                        constraints: old(field)@.constraints + added.take(k as int),
                        ..old(field)@
                    }),
                decreases constraints.len() - k,
            {
                let constraint = &constraints[k];
                assert(added[k as int] == constraint@);
                field.add_constraint(
                    Constraint {
                        constraint_type: constraint.constraint_type.clone(),
                        value: crate::text::clone_opt_text(&constraint.value),
                    },
                );
                assert(field@.constraints =~= old(field)@.constraints + added.take(k + 1));
                k += 1;
            }
            assert(added.take(k as int) =~= added);
            Ok(())
        },
        None => Err(ParseError::Parse("Failed to parse account attribute".to_owned())),
    }
}

/// The fields of a struct, whatever its form.
fn all_fields(fields: &FieldsNode) -> (r: Option<&Vec<FieldNode>>)
    ensures
        match r {
            Some(all) => field_node_views(all@) == fields@.all(),
            None => fields@.all() == Seq::<FieldNodeView>::empty(),
        },
{
    match fields {
        FieldsNode::Named(all) => Some(all),
        FieldsNode::Unnamed(all) => Some(all),
        FieldsNode::Unit => None,
    }
}

/// Builds the field of an account struct from a field with the name `name`.
fn convert_account_field(field: &FieldNode, name: &String) -> (r: Result<AccountField, ParseError>)
    requires
        field@.ident == Some(name@),
    ensures
        match r {
            Ok(f) => field_well_formed(field@) && converted_field(field@) == seq![f@],
            Err(e) => !field_well_formed(field@) && e@ == ParseErrorView::Parse(
                malformed_attribute_message(),
            ),
        },
{
    let mut account_field = AccountField::new(name.clone(), format_type(&field.ty));
    let ghost attributes = field@.attributes;
    let mut i: usize = 0;
    assert(account_field@.constraints =~= field_constraints(attributes.take(0)));
    while i < field.attributes.len()
        invariant
            i <= field.attributes.len(),
            attributes == field@.attributes,
            field@.ident == Some(name@),
            forall|j: int| 0 <= j < i ==> attribute_well_formed(#[trigger] attributes[j]),
            account_field@ == (AccountFieldView {
                name: name@,
                ty: canonical(field@.ty.tokens),
                constraints: field_constraints(attributes.take(i as int)),
            }),
        decreases field.attributes.len() - i,
    {
        let attr = &field.attributes[i];
        assert(attributes[i as int] == attr@);
        proof {
            attributes.lemma_flat_map_take_append(
                |a: AttributeNodeView| attribute_constraints(a),
                i as int,
            );
        }
        if attribute_is(attr, "account") {
            match process_account_constraints(attr, &mut account_field) {
                Ok(_) => {},
                Err(e) => {
                    assert(!attribute_well_formed(attributes[i as int]));
                    return Err(e);
                },
            }
        } else {
            assert(account_field@.constraints =~= account_field@.constraints + Seq::empty());
        }
        i += 1;
    }
    assert(attributes.take(i as int) =~= attributes);
    Ok(account_field)
}

/// Builds the account struct of a struct. It fails where an `account`
/// attribute of a named field has no arguments.
pub fn convert_account_struct(structure: &StructNode) -> (r: Result<Account, ParseError>)
    ensures
        match r {
            Ok(a) => struct_well_formed(structure@) && a@ == converted_account_struct(structure@),
            Err(e) => !struct_well_formed(structure@) && e@ == ParseErrorView::Parse(
                malformed_attribute_message(),
            ),
        },
{
    let mut account = Account::new(structure.name.clone(), format_visibility(&structure.visibility));
    let ghost fields = structure@.fields.all();
    match all_fields(&structure.fields) {
        Some(all) => {
            let mut i: usize = 0;
            assert(account@.fields =~= fields.take(0).flat_map(
                |f: FieldNodeView| converted_field(f),
            ));
            while i < all.len()
                invariant
                    i <= all.len(),
                    fields == structure@.fields.all(),
                    fields == field_node_views(all@),
                    forall|j: int| 0 <= j < i ==> field_well_formed(#[trigger] fields[j]),
                    account@ == (AccountView {
                        fields: fields.take(i as int).flat_map(
                            |f: FieldNodeView| converted_field(f),
                        ),
                        ..converted_account_struct(structure@)
                    }),
                decreases all.len() - i,
            {
                let field = &all[i];
                assert(fields[i as int] == field@);
                proof {
                    fields.lemma_flat_map_take_append(
                        |f: FieldNodeView| converted_field(f),
                        i as int,
                    );
                }
                match &field.ident {
                    Some(ident) => {
                        match convert_account_field(field, ident) {
                            Ok(account_field) => {
                                let ghost before = account@.fields;
                                account.add_field(account_field);
                                assert(account@.fields =~= before + converted_field(field@));
                            },
                            Err(e) => {
                                assert(!field_well_formed(fields[i as int]));
                                return Err(e);
                            },
                        }
                    },
                    None => {
                        assert(account@.fields =~= account@.fields + converted_field(field@));
                    },
                }
                i += 1;
            }
            assert(fields.take(i as int) =~= fields);
        },
        None => {
            assert(account@.fields =~= fields.flat_map(|f: FieldNodeView| converted_field(f)));
        },
    }
    Ok(account)
}

/// The field of a raw account that a field becomes: none for a field
/// without a name.
pub open spec fn converted_raw_field(f: FieldNodeView) -> Seq<RawAccountFieldView> {
    match f.ident {
        Some(name) => seq![
            RawAccountFieldView {
                name,
                ty: canonical(f.ty.tokens),
                visibility: visibility_text(f.visibility),
            },
        ],
        None => Seq::empty(),
    }
}

/// The raw account that a struct becomes.
pub open spec fn converted_raw_account(s: StructNodeView) -> RawAccountView {
    RawAccountView {
        name: s.name,
        visibility: visibility_text(s.visibility),
        fields: s.fields.all().flat_map(|f: FieldNodeView| converted_raw_field(f)),
    }
}

/// Builds the raw account of a struct.
pub fn convert_raw_account(structure: &StructNode) -> (r: Result<RawAccount, ParseError>)
    ensures
        r.is_ok(),
        r.unwrap()@ == converted_raw_account(structure@),
{
    let mut raw_account = RawAccount::new(
        structure.name.clone(),
        format_visibility(&structure.visibility),
    );
    let ghost fields = structure@.fields.all();
    match all_fields(&structure.fields) {
        Some(all) => {
            let mut i: usize = 0;
            assert(raw_account@.fields =~= fields.take(0).flat_map(
                |f: FieldNodeView| converted_raw_field(f),
            ));
            while i < all.len()
                invariant
                    i <= all.len(),
                    fields == structure@.fields.all(),
                    fields == field_node_views(all@),
                    raw_account@ == (RawAccountView {
                        fields: fields.take(i as int).flat_map(
                            |f: FieldNodeView| converted_raw_field(f),
                        ),
                        ..converted_raw_account(structure@)
                    }),
                decreases all.len() - i,
            {
                let field = &all[i];
                assert(fields[i as int] == field@);
                proof {
                    fields.lemma_flat_map_take_append(
                        |f: FieldNodeView| converted_raw_field(f),
                        i as int,
                    );
                }
                let ghost before = raw_account@.fields;
                match &field.ident {
                    Some(ident) => {
                        let raw_field = RawAccountField::new(
                            ident.clone(),
                            format_type(&field.ty),
                            format_visibility(&field.visibility),
                        );
                        raw_account.add_field(raw_field);
                        assert(raw_account@.fields =~= before + converted_raw_field(field@));
                    },
                    None => {
                        assert(raw_account@.fields =~= before + converted_raw_field(field@));
                    },
                }
                i += 1;
            }
            assert(fields.take(i as int) =~= fields);
        },
        None => {
            assert(raw_account@.fields =~= fields.flat_map(
                |f: FieldNodeView| converted_raw_field(f),
            ));
        },
    }
    Ok(raw_account)
}

/// The instruction that an item of a program module becomes: that of a
/// function that is an instruction, none for any other item.
pub open spec fn instruction_of(item: ModuleItemNodeView) -> Seq<InstructionView> {
    match item {
        ModuleItemNodeView::Function(f) => if is_instruction(f) {
            seq![converted_instruction(f)]
        } else {
            Seq::empty()
        },
        _ => Seq::empty(),
    }
}

/// The program module that a module becomes: its instructions are those of
/// its own items; the items of modules inside it are not looked at.
pub open spec fn converted_module(m: ModuleNodeView) -> ProgramModuleView {
    ProgramModuleView {
        name: m.name,
        visibility: visibility_text(m.visibility),
        instructions: match m.content {
            Some(items) => items.flat_map(|i: ModuleItemNodeView| instruction_of(i)),
            None => Seq::empty(),
        },
    }
}

/// Adds to `program_module` the instruction that `item` becomes.
pub fn process_program_item(program_module: &mut ProgramModule, item: &ModuleItemNode) -> (r:
    Result<(), ParseError>)
    ensures
        r.is_ok(),
        final(program_module)@ == (ProgramModuleView {
            instructions: old(program_module)@.instructions + instruction_of(item@),
            ..old(program_module)@
        }),
{
    match item {
        ModuleItemNode::Function(function) => {
            if is_anchor_instruction(function) {
                let instruction = convert_instruction(function)?;
                program_module.add_instruction(instruction);
                assert(program_module@.instructions =~= old(program_module)@.instructions
                    + instruction_of(item@));
            } else {
                assert(program_module@.instructions =~= old(program_module)@.instructions
                    + instruction_of(item@));
            }
        },
        _ => {
            assert(program_module@.instructions =~= old(program_module)@.instructions
                + instruction_of(item@));
        },
    }
    Ok(())
}

/// Builds the program module of a module.
fn convert_module(module: &ModuleNode) -> (r: Result<ProgramModule, ParseError>)
    ensures
        r.is_ok(),
        r.unwrap()@ == converted_module(module@),
{
    let mut program_module = ProgramModule::new(
        module.name.clone(),
        format_visibility(&module.visibility),
    );
    match &module.content {
        Some(items) => {
            let ghost views = module_item_views(items@);
            let mut i: usize = 0;
            assert(program_module@.instructions =~= views.take(0).flat_map(
                |i: ModuleItemNodeView| instruction_of(i),
            ));
            while i < items.len()
                invariant
                    i <= items.len(),
                    views == module_item_views(items@),
                    module@.content == Some(views),
                    program_module@ == (ProgramModuleView {
                        instructions: views.take(i as int).flat_map(
                            |i: ModuleItemNodeView| instruction_of(i),
                        ),
                        ..converted_module(module@)
                    }),
                decreases items.len() - i,
            {
                assert(views[i as int] == items[i as int]@);
                proof {
                    views.lemma_flat_map_take_append(
                        |i: ModuleItemNodeView| instruction_of(i),
                        i as int,
                    );
                }
                process_program_item(&mut program_module, &items[i])?;
                i += 1;
            }
            assert(views.take(i as int) =~= views);
        },
        None => {},
    }
    Ok(program_module)
}

/// Whether an item can be read: any item but an account struct that cannot.
pub open spec fn item_well_formed(i: ItemNodeView) -> bool {
    match i {
        ItemNodeView::Struct(s) => is_account_struct_node(s) ==> struct_well_formed(s),
        _ => true,
    }
}

/// The program module that an item becomes: that of a module that is a
/// program, none for any other item.
pub open spec fn module_of(i: ItemNodeView) -> Seq<ProgramModuleView> {
    match i {
        ItemNodeView::Module(m) => if is_program_module(m) {
            seq![converted_module(m)]
        } else {
            Seq::empty()
        },
        _ => Seq::empty(),
    }
}

/// The account struct that an item becomes: that of a struct that is an
/// account struct, none for any other item.
pub open spec fn account_struct_of(i: ItemNodeView) -> Seq<AccountView> {
    match i {
        ItemNodeView::Struct(s) => if is_account_struct_node(s) {
            seq![converted_account_struct(s)]
        } else {
            Seq::empty()
        },
        _ => Seq::empty(),
    }
}

/// The raw account that an item becomes: that of a struct that is a raw
/// account and no account struct, none for any other item.
pub open spec fn raw_account_of(i: ItemNodeView) -> Seq<RawAccountView> {
    match i {
        ItemNodeView::Struct(s) => if !is_account_struct_node(s) && is_raw_account_node(s) {
            seq![converted_raw_account(s)]
        } else {
            Seq::empty()
        },
        _ => Seq::empty(),
    }
}

/// The program `p` with what the item `i` becomes added to it.
pub open spec fn program_with_item(p: ProgramView, i: ItemNodeView) -> ProgramView {
    ProgramView {
        program_modules: p.program_modules + module_of(i),
        account_structs: p.account_structs + account_struct_of(i),
        raw_accounts: p.raw_accounts + raw_account_of(i),
        ..p
    }
}

/// The program that `items` become: its modules, account structs and raw
/// accounts, each in the order of the items.
pub open spec fn converted_program(items: Seq<ItemNodeView>) -> ProgramView {
    ProgramView {
        program_modules: items.flat_map(|i: ItemNodeView| module_of(i)),
        account_structs: items.flat_map(|i: ItemNodeView| account_struct_of(i)),
        raw_accounts: items.flat_map(|i: ItemNodeView| raw_account_of(i)),
        source_path: None,
    }
}

/// Whether a file can be read: all its items can.
pub open spec fn file_well_formed(file: SyntaxFileView) -> bool {
    forall|i: int| 0 <= i < file.items.len() ==> item_well_formed(#[trigger] file.items[i])
}

/// What the model builder makes of a file: the program of its items, or the
/// error `Parse` for a file that cannot be read.
pub open spec fn converted_file(file: SyntaxFileView) -> Result<ProgramView, ParseErrorView> {
    if file_well_formed(file) {
        Ok(converted_program(file.items))
    } else {
        Err(ParseErrorView::Parse(malformed_attribute_message()))
    }
}

/// Adds to `program` what `item` becomes. It fails for an account struct
/// that cannot be read.
pub fn process_item(program: &mut Program, item: &ItemNode) -> (r: Result<(), ParseError>)
    ensures
        match r {
            Ok(_) => item_well_formed(item@) && final(program)@ == program_with_item(
                old(program)@,
                item@,
            ),
            Err(e) => !item_well_formed(item@) && e@ == ParseErrorView::Parse(
                malformed_attribute_message(),
            ) && final(program)@ == old(program)@,
        },
{
    match item {
        ItemNode::Module(module) => {
            if is_anchor_program(module) {
                let program_module = convert_module(module)?;
                program.add_program_module(program_module);
            }
        },
        ItemNode::Struct(structure) => {
            if is_account_struct(structure) {
                let account = convert_account_struct(structure)?;
                program.add_account_struct(account);
            } else if is_raw_account(structure) {
                let raw_account = convert_raw_account(structure)?;
                program.add_raw_account(raw_account);
            }
        },
        _ => {},
    }
    proof {
        let p = program_with_item(old(program)@, item@);
        assert(program@.program_modules =~= p.program_modules);
        assert(program@.account_structs =~= p.account_structs);
        assert(program@.raw_accounts =~= p.raw_accounts);
    }
    Ok(())
}

/// Builds the program of a file: a program module for each module that is
/// a program, an account struct or a raw account for each struct that is
/// one, in the order of the file. Items of any other kind are passed over.
pub fn convert_file(file: &SyntaxFile) -> (r: Result<Program, ParseError>)
    ensures
        match r {
            Ok(p) => converted_file(file@) == Ok::<ProgramView, ParseErrorView>(p@),
            Err(e) => converted_file(file@) == Err::<ProgramView, ParseErrorView>(e@),
        },
{
    let mut program = Program::new();
    let ghost items = file@.items;
    let mut i: usize = 0;
    proof {
        assert(items.take(0) =~= Seq::<ItemNodeView>::empty());
        assert(program@.program_modules =~= converted_program(items.take(0)).program_modules);
        assert(program@.account_structs =~= converted_program(items.take(0)).account_structs);
        assert(program@.raw_accounts =~= converted_program(items.take(0)).raw_accounts);
    }
    while i < file.items.len()
        invariant
            i <= file.items.len(),
            items == file@.items,
            forall|j: int| 0 <= j < i ==> item_well_formed(#[trigger] items[j]),
            program@ == converted_program(items.take(i as int)),
        decreases file.items.len() - i,
    {
        assert(items[i as int] == file.items[i as int]@);
        proof {
            items.lemma_flat_map_take_append(|i: ItemNodeView| module_of(i), i as int);
            items.lemma_flat_map_take_append(|i: ItemNodeView| account_struct_of(i), i as int);
            items.lemma_flat_map_take_append(|i: ItemNodeView| raw_account_of(i), i as int);
        }
        match process_item(&mut program, &file.items[i]) {
            Ok(_) => {},
            Err(e) => {
                assert(!item_well_formed(items[i as int]));
                return Err(e);
            },
        }
        i += 1;
    }
    assert(items.take(i as int) =~= items);
    Ok(program)
}

} // verus!
