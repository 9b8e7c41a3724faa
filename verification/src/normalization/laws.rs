//! What holds of normalization as a whole.

use crate::model::account::{AccountFieldView, AccountView};
use crate::model::program::ProgramView;
use crate::normalization::account::{
    lemma_field_with_constraints, normalized_constraint, normalized_constraints, normalized_field,
    normalized_struct,
};
use crate::normalization::inference::{
    close_flags, close_operation, field_with_inferred_constraints, field_with_relationship,
    inferred_operations, initialize_operation, initialize_operations, instruction_with_operations,
    module_with_operations, names_field, needs_mut, needs_signer, refers_to, related_field,
    relation_flags, struct_with_inferred_constraints, struct_with_relationships,
    transfer_operation, with_inferred_constraints, with_inferred_operations,
    with_inferred_semantics, with_relationships,
};
use crate::normalization::instruction::normalized_instruction;
use crate::normalization::program::{
    copied_program, linked, linked_instruction, linked_module, normalized_module,
    normalized_program, program_name,
};
use crate::normalization::validation::validated;
use crate::normalized::account::{
    lemma_with_constraint_keeps_step, struct_index, struct_names, NormalizedAccountFieldView,
    NormalizedAccountStructView, NormalizedConstraintView,
};
use crate::normalized::instruction::{InstructionBodyView, NormalizedInstructionView};
use crate::normalized::program::{NormalizedModuleView, NormalizedProgramView};
use crate::seqs::{first_index, lemma_first_index, lemma_first_index_push};
use vstd::prelude::*;

verus! {

/// Normalization is a function of the program: programs that are equal have
/// the same normal form, the issues and their order included, and fail with
/// the same error. No clock has a part in it: a program that has a name has
/// a source path or a module, and these decide its identifier.
pub proof fn lemma_normalization_is_deterministic(p: ProgramView, q: ProgramView)
    requires
        p == q,
    ensures
        normalized_program(p) == normalized_program(q),
        normalized_program(p).is_ok() <==> program_name(p).is_some(),
        program_name(p).is_some() ==> p.source_path.is_some() || p.program_modules.len() > 0,
{
}

/// The names of the constraints that inference reads or adds are all
/// different.
proof fn lemma_constraint_names_differ()
    ensures
        "signer"@ != "mut"@,
        "signer"@ != "init"@,
        "signer"@ != "payer"@,
        "signer"@ != "close"@,
        "signer"@ != "has_one"@,
        "signer"@ != "belongs_to"@,
        "mut"@ != "init"@,
        "mut"@ != "payer"@,
        "mut"@ != "close"@,
        "mut"@ != "has_one"@,
        "mut"@ != "belongs_to"@,
{
    reveal_strlit("signer");
    reveal_strlit("mut");
    reveal_strlit("init");
    reveal_strlit("payer");
    reveal_strlit("close");
    reveal_strlit("has_one");
    reveal_strlit("belongs_to");
    assert("signer"@.len() == 6);
    assert("mut"@.len() == 3);
    assert("init"@.len() == 4);
    assert("payer"@.len() == 5);
    assert("close"@.len() == 5);
    assert("has_one"@.len() == 7);
    assert("belongs_to"@.len() == 10);
}

/// What adding an inferred constraint without a value does to a field: the
/// name and the type stay, the first constraint of any other name stays
/// where it is, and the field is related to the same names as before.
proof fn lemma_with_inferred_constraint(f: NormalizedAccountFieldView, added: Seq<char>)
    ensures
        ({
            let g = f.with_constraint(NormalizedConstraintView::inferred(added));
            &&& g.name == f.name
            &&& g.ty == f.ty
            &&& g.documentation == f.documentation
            &&& g.constraints == f.constraints.push(NormalizedConstraintView::inferred(added))
            &&& g.has_constraint(added)
            &&& forall|x: Seq<char>|
                x != added ==> #[trigger] g.constraint_index(x) == f.constraint_index(x)
            &&& forall|x: Seq<char>| #[trigger] refers_to(g, x) == refers_to(f, x)
        }),
{
    let c = NormalizedConstraintView::inferred(added);
    let g = f.with_constraint(c);
    assert(g.constraint_types() =~= f.constraint_types().push(added));
    lemma_first_index_push(f.constraint_types(), added, added);
    assert forall|x: Seq<char>| x != added implies #[trigger] g.constraint_index(x)
        == f.constraint_index(x) by {
        lemma_first_index_push(f.constraint_types(), added, x);
    }
    assert forall|x: Seq<char>| #[trigger] refers_to(g, x) == refers_to(f, x) by {
        if refers_to(g, x) {
            let k = choose|k: int|
                0 <= k < g.constraints.len() && names_field(#[trigger] g.constraints[k], x);
            assert(k < f.constraints.len());
            assert(names_field(f.constraints[k], x));
        }
        if refers_to(f, x) {
            let k = choose|k: int|
                0 <= k < f.constraints.len() && names_field(#[trigger] f.constraints[k], x);
            assert(names_field(g.constraints[k], x));
        }
    }
}

/// What the inference of constraints does to a field. The name and the type
/// stay. The constraints that the field had stay in front, and those that
/// follow them are inferred: two at most, of different names. The first
/// `init`, `payer` and `close` constraint stay where they are, and the field
/// is related to the same names as before. After it, no further constraint
/// is needed.
pub proof fn lemma_field_with_inferred_constraints(f: NormalizedAccountFieldView)
    ensures
        ({
            let g = field_with_inferred_constraints(f);
            &&& g.name == f.name
            &&& g.ty == f.ty
            &&& g.documentation == f.documentation
            &&& f.constraints.len() <= g.constraints.len()
            &&& g.constraints.take(f.constraints.len() as int) == f.constraints
            &&& forall|k: int|
                f.constraints.len() <= k < g.constraints.len() ==> (
                #[trigger] g.constraints[k]).is_inferred
            &&& g.constraint_index("init"@) == f.constraint_index("init"@)
            &&& g.constraint_index("payer"@) == f.constraint_index("payer"@)
            &&& g.constraint_index("close"@) == f.constraint_index("close"@)
            &&& forall|x: Seq<char>| #[trigger] refers_to(g, x) == refers_to(f, x)
            &&& !needs_signer(g)
            &&& !needs_mut(g)
            &&& g.constraints.len() <= f.constraints.len() + 2
            &&& forall|j: int, k: int|
                f.constraints.len() <= j < k < g.constraints.len() ==> (
                #[trigger] g.constraints[j]).constraint_type != (
                #[trigger] g.constraints[k]).constraint_type
        }),
{
    lemma_constraint_names_differ();
    let signer = NormalizedConstraintView::inferred("signer"@);
    let mutable = NormalizedConstraintView::inferred("mut"@);
    let h = if needs_signer(f) {
        f.with_constraint(signer)
    } else {
        f
    };
    let g = field_with_inferred_constraints(f);
    if needs_signer(f) {
        lemma_with_inferred_constraint(f, "signer"@);
    }
    if needs_mut(f) {
        lemma_with_inferred_constraint(h, "mut"@);
    }
    assert(h.constraint_index("init"@) == f.constraint_index("init"@));
    assert(h.constraint_index("mut"@) == f.constraint_index("mut"@));
    assert(g.constraint_index("init"@) == f.constraint_index("init"@));
    assert(g.constraint_index("signer"@) == h.constraint_index("signer"@));
    assert(g.constraints.take(f.constraints.len() as int) =~= f.constraints);
}

/// The first constraint of a name is the same constraint in two fields whose
/// constraints begin alike, where it stands at the same place in both.
proof fn lemma_same_constraint_value(
    f: NormalizedAccountFieldView,
    g: NormalizedAccountFieldView,
    x: Seq<char>,
)
    requires
        f.constraints.len() <= g.constraints.len(),
        g.constraints.take(f.constraints.len() as int) == f.constraints,
        g.constraint_index(x) == f.constraint_index(x),
    ensures
        g.has_constraint(x) == f.has_constraint(x),
        g.constraint_value(x) == f.constraint_value(x),
{
    lemma_first_index(f.constraint_types(), x);
    match f.constraint_index(x) {
        Some(i) => {
            assert(g.constraints.take(f.constraints.len() as int)[i] == g.constraints[i]);
        },
        None => {},
    }
}

/// Whether two fields read alike to the inference of operations and of
/// relations: the same name, and the same constraints as far as `init`,
/// `payer`, `close` and the relations to other fields go.
pub open spec fn reads_alike(f: NormalizedAccountFieldView, g: NormalizedAccountFieldView) -> bool {
    &&& g.name == f.name
    &&& initialize_operation(g) == initialize_operation(f)
    &&& g.has_constraint("close"@) == f.has_constraint("close"@)
    &&& g.constraint_value("close"@) == f.constraint_value("close"@)
    &&& forall|x: Seq<char>| #[trigger] refers_to(g, x) == refers_to(f, x)
}

/// A field after the inference of constraints reads like the field before.
proof fn lemma_inferred_constraints_read_alike(f: NormalizedAccountFieldView)
    ensures
        reads_alike(f, field_with_inferred_constraints(f)),
{
    let g = field_with_inferred_constraints(f);
    lemma_field_with_inferred_constraints(f);
    lemma_same_constraint_value(f, g, "init"@);
    lemma_same_constraint_value(f, g, "payer"@);
    lemma_same_constraint_value(f, g, "close"@);
}

/// Account structs whose fields read alike, one for one, yield the same
/// operations.
proof fn lemma_operations_of_like_structs(
    name: Seq<char>,
    a: NormalizedAccountStructView,
    b: NormalizedAccountStructView,
)
    requires
        a.fields.len() == b.fields.len(),
        forall|k: int| 0 <= k < a.fields.len() ==> reads_alike(a.fields[k], #[trigger] b.fields[k]),
    ensures
        inferred_operations(name, b) == inferred_operations(name, a),
{
    assert(b.fields.map_values(|f: NormalizedAccountFieldView| initialize_operation(f))
        =~= a.fields.map_values(|f: NormalizedAccountFieldView| initialize_operation(f))) by {
        assert forall|k: int| 0 <= k < a.fields.len() implies initialize_operation(b.fields[k])
            == initialize_operation(a.fields[k]) by {
            assert(reads_alike(a.fields[k], b.fields[k]));
        }
    }
    assert(initialize_operations(b.fields) == initialize_operations(a.fields));
    assert(b.field_names() =~= a.field_names()) by {
        assert forall|k: int| 0 <= k < a.fields.len() implies b.fields[k].name
            == a.fields[k].name by {
            assert(reads_alike(a.fields[k], b.fields[k]));
        }
    }
    assert(close_flags(b) =~= close_flags(a)) by {
        assert forall|k: int| 0 <= k < a.fields.len() implies b.fields[k].has_constraint("close"@)
            == a.fields[k].has_constraint("close"@) by {
            assert(reads_alike(a.fields[k], b.fields[k]));
        }
    }
    lemma_first_index(close_flags(a), true);
    match first_index(close_flags(a), true) {
        Some(i) => {
            assert(reads_alike(a.fields[i], b.fields[i]));
        },
        None => {},
    }
    assert(close_operation(b) == close_operation(a));
    assert(transfer_operation(b) == transfer_operation(a));
}

/// The fields of a struct after the inference of constraints and of
/// relations read like its fields before.
proof fn lemma_inferred_struct_reads_alike(a: NormalizedAccountStructView)
    ensures
        ({
            let b = struct_with_relationships(struct_with_inferred_constraints(a));
            &&& b.name == a.name
            &&& b.fields.len() == a.fields.len()
            &&& forall|k: int|
                0 <= k < a.fields.len() ==> reads_alike(a.fields[k], #[trigger] b.fields[k])
        }),
{
    let m = struct_with_inferred_constraints(a);
    let b = struct_with_relationships(m);
    assert forall|k: int| 0 <= k < a.fields.len() implies reads_alike(
        a.fields[k],
        #[trigger] b.fields[k],
    ) by {
        lemma_inferred_constraints_read_alike(a.fields[k]);
        assert(m.fields[k] == field_with_inferred_constraints(a.fields[k]));
        assert(b.fields[k] == field_with_relationship(m.fields, k));
        assert(b.fields[k].constraints == m.fields[k].constraints);
        assert(b.fields[k].constraint_types() == m.fields[k].constraint_types());
        assert forall|x: Seq<char>| #[trigger] refers_to(b.fields[k], x) == refers_to(
            a.fields[k],
            x,
        ) by {
            assert(refers_to(m.fields[k], x) == refers_to(a.fields[k], x));
            assert(refers_to(b.fields[k], x) == refers_to(m.fields[k], x));
        }
    }
}

/// An instruction whose operations have been inferred keeps them when they
/// are inferred again, over account structs that read like those of the
/// first time.
proof fn lemma_operations_inferred_once(
    i: NormalizedInstructionView,
    first: Seq<NormalizedAccountStructView>,
    second: Seq<NormalizedAccountStructView>,
)
    requires
        first.len() == second.len(),
        forall|k: int|
            0 <= k < first.len() ==> (#[trigger] second[k]) == struct_with_relationships(
                struct_with_inferred_constraints(first[k]),
            ),
    ensures
        instruction_with_operations(instruction_with_operations(i, first), second)
            == instruction_with_operations(i, first),
{
    let j = instruction_with_operations(i, first);
    assert(struct_names(second) =~= struct_names(first)) by {
        assert forall|k: int| 0 <= k < first.len() implies second[k].name == first[k].name by {
            lemma_inferred_struct_reads_alike(first[k]);
        }
    }
    if i.body matches Some(InstructionBodyView::Basic(_)) {
    } else {
        match i.account_struct_name {
            Some(name) => {
                lemma_first_index(struct_names(first), name);
                match struct_index(first, name) {
                    Some(a) => {
                        lemma_inferred_struct_reads_alike(first[a]);
                        lemma_operations_of_like_structs(i.name, first[a], second[a]);
                    },
                    None => {},
                }
            },
            None => {},
        }
    }
}

/// The relations of the fields of a struct are the same once they have been
/// inferred.
proof fn lemma_relationships_inferred_once(a: NormalizedAccountStructView)
    ensures
        struct_with_relationships(struct_with_relationships(a)) == struct_with_relationships(a),
{
    let b = struct_with_relationships(a);
    let c = struct_with_relationships(b);
    assert forall|j: int| 0 <= j < a.fields.len() implies #[trigger] c.fields[j]
        == b.fields[j] by {
        assert(b.fields[j] == field_with_relationship(a.fields, j));
        assert(c.fields[j] == field_with_relationship(b.fields, j));
        assert(relation_flags(b.fields, j) =~= relation_flags(a.fields, j)) by {
            assert forall|i: int| 0 <= i < a.fields.len() implies relation_flags(b.fields, j)[i]
                == relation_flags(a.fields, j)[i] by {
                assert(b.fields[i] == field_with_relationship(a.fields, i));
                assert(b.fields[i].name == a.fields[i].name);
                lemma_same_relations(a.fields[j], b.fields[j], a.fields[i].name);
            }
        }
        crate::seqs::lemma_last_index(relation_flags(a.fields, j), true);
        match related_field(a.fields, j) {
            Some(i) => {
                assert(b.fields[i] == field_with_relationship(a.fields, i));
            },
            None => {},
        }
    }
    assert(c.fields =~= b.fields);
}

/// Fields with the same constraints are related to the same names.
proof fn lemma_same_relations(
    f: NormalizedAccountFieldView,
    g: NormalizedAccountFieldView,
    x: Seq<char>,
)
    requires
        f.constraints == g.constraints,
    ensures
        refers_to(f, x) == refers_to(g, x),
{
}

/// The first pass is idempotent: the operations of a program whose
/// operations have been inferred are those that the pass left.
pub proof fn lemma_operations_pass_is_idempotent(p: NormalizedProgramView)
    ensures
        with_inferred_operations(with_inferred_operations(p)) == with_inferred_operations(p),
{
    let q = with_inferred_operations(p);
    let r = with_inferred_operations(q);
    assert(r.modules =~= q.modules) by {
        assert forall|m: int| 0 <= m < q.modules.len() implies #[trigger] r.modules[m]
            == q.modules[m] by {
            assert(q.modules[m] == module_with_operations(p.modules[m], p.account_structs));
            assert(r.modules[m] == module_with_operations(q.modules[m], p.account_structs));
            assert(r.modules[m].instructions =~= q.modules[m].instructions);
        }
    }
}

/// The second pass is idempotent: the constraints of a program whose
/// constraints have been inferred are those that the pass left.
pub proof fn lemma_constraints_pass_is_idempotent(p: NormalizedProgramView)
    ensures
        with_inferred_constraints(with_inferred_constraints(p)) == with_inferred_constraints(p),
{
    let q = with_inferred_constraints(p);
    let r = with_inferred_constraints(q);
    assert(r.account_structs =~= q.account_structs) by {
        assert forall|a: int| 0 <= a < q.account_structs.len() implies (
        #[trigger] r.account_structs[a]) == q.account_structs[a] by {
            let before = p.account_structs[a];
            assert(q.account_structs[a] == struct_with_inferred_constraints(before));
            assert(r.account_structs[a] == struct_with_inferred_constraints(q.account_structs[a]));
            assert(r.account_structs[a].fields =~= q.account_structs[a].fields) by {
                assert forall|f: int| 0 <= f < before.fields.len() implies (
                #[trigger] r.account_structs[a].fields[f]) == q.account_structs[a].fields[f] by {
                    lemma_field_with_inferred_constraints(before.fields[f]);
                }
            }
        }
    }
}

/// The third pass is idempotent: the relations of a program whose relations
/// have been inferred are those that the pass left.
pub proof fn lemma_relationships_pass_is_idempotent(p: NormalizedProgramView)
    ensures
        with_relationships(with_relationships(p)) == with_relationships(p),
{
    let q = with_relationships(p);
    let r = with_relationships(q);
    assert(r.account_structs =~= q.account_structs) by {
        assert forall|a: int| 0 <= a < q.account_structs.len() implies (
        #[trigger] r.account_structs[a]) == q.account_structs[a] by {
            lemma_relationships_inferred_once(p.account_structs[a]);
        }
    }
}

/// Inference adds nothing the second time: the operations, the constraints
/// and the relations of a program on which inference has run are those that
/// the first run left.
pub proof fn lemma_inference_is_idempotent(p: NormalizedProgramView)
    ensures
        with_inferred_semantics(with_inferred_semantics(p)) == with_inferred_semantics(p),
{
    let q = with_inferred_semantics(p);
    let a = with_inferred_operations(q);
    let b = with_inferred_constraints(a);
    let c = with_relationships(b);
    assert(q.account_structs.len() == p.account_structs.len());
    assert forall|k: int| 0 <= k < p.account_structs.len() implies (
    #[trigger] q.account_structs[k]) == struct_with_relationships(
        struct_with_inferred_constraints(p.account_structs[k]),
    ) by {
        assert(with_inferred_constraints(with_inferred_operations(p)).account_structs[k]
            == struct_with_inferred_constraints(p.account_structs[k]));
    }
    assert(a.modules =~= q.modules) by {
        assert forall|m: int| 0 <= m < q.modules.len() implies #[trigger] a.modules[m]
            == q.modules[m] by {
            let before = p.modules[m];
            assert(q.modules[m] == module_with_operations(before, p.account_structs));
            assert(a.modules[m] == module_with_operations(q.modules[m], q.account_structs));
            assert(a.modules[m].instructions =~= q.modules[m].instructions) by {
                assert forall|i: int|
                    0 <= i < before.instructions.len() implies a.modules[m].instructions[i]
                    == q.modules[m].instructions[i] by {
                    lemma_operations_inferred_once(
                        before.instructions[i],
                        p.account_structs,
                        q.account_structs,
                    );
                }
            }
        }
    }
    assert(a == q);
    assert(b.account_structs =~= q.account_structs) by {
        assert forall|k: int| 0 <= k < q.account_structs.len() implies (
        #[trigger] b.account_structs[k]) == q.account_structs[k] by {
            let s = q.account_structs[k];
            let t = struct_with_inferred_constraints(p.account_structs[k]);
            assert(s == struct_with_relationships(t));
            assert(b.account_structs[k] == struct_with_inferred_constraints(s));
            assert(b.account_structs[k].fields =~= s.fields) by {
                assert forall|j: int| 0 <= j < s.fields.len() implies (
                #[trigger] b.account_structs[k].fields[j]) == s.fields[j] by {
                    lemma_field_with_inferred_constraints(p.account_structs[k].fields[j]);
                    assert(t.fields[j] == field_with_inferred_constraints(
                        p.account_structs[k].fields[j],
                    ));
                    assert(s.fields[j] == field_with_relationship(t.fields, j));
                    assert(s.fields[j].constraints == t.fields[j].constraints);
                    assert(s.fields[j].constraint_types() == t.fields[j].constraint_types());
                    assert(!needs_signer(s.fields[j]));
                    assert(!needs_mut(s.fields[j]));
                }
            }
        }
    }
    assert(b == q);
    assert(c.account_structs =~= q.account_structs) by {
        assert forall|k: int| 0 <= k < q.account_structs.len() implies (
        #[trigger] c.account_structs[k]) == q.account_structs[k] by {
            lemma_relationships_inferred_once(
                struct_with_inferred_constraints(p.account_structs[k]),
            );
        }
    }
}

/// Whether the normalized field `g` keeps the order of the field `f` of
/// the source: the same name and type; the constraints of the source first,
/// in their order and marked as not inferred; after them only inferred
/// constraints.
pub open spec fn field_keeps_order(f: AccountFieldView, g: NormalizedAccountFieldView) -> bool {
    &&& g.name == f.name
    &&& g.ty == f.ty
    &&& f.constraints.len() <= g.constraints.len()
    &&& g.constraints.take(f.constraints.len() as int) == normalized_constraints(f.constraints)
    &&& forall|k: int|
        0 <= k < f.constraints.len() ==> !(#[trigger] g.constraints[k]).is_inferred
    &&& forall|k: int|
        f.constraints.len() <= k < g.constraints.len() ==> (#[trigger] g.constraints[k]).is_inferred
}

/// Whether the normalized struct `n` keeps the order of the struct `a` of
/// the source: the same name, and the fields one for one.
pub open spec fn struct_keeps_order(a: AccountView, n: NormalizedAccountStructView) -> bool {
    &&& n.name == a.name
    &&& n.fields.len() == a.fields.len()
    &&& forall|f: int|
        0 <= f < a.fields.len() ==> field_keeps_order(a.fields[f], #[trigger] n.fields[f])
}

/// Whether the normalized module `n` keeps the order of the module `m` of
/// the source: the same name, and the instructions one for one, each with
/// its parameters one for one.
pub open spec fn module_keeps_order(
    m: crate::model::program::ProgramModuleView,
    n: NormalizedModuleView,
) -> bool {
    &&& n.name == m.name
    &&& n.instructions.len() == m.instructions.len()
    &&& forall|i: int|
        0 <= i < m.instructions.len() ==> {
            &&& (#[trigger] n.instructions[i]).name == m.instructions[i].name
            &&& n.instructions[i].parameters == normalized_instruction(
                m.instructions[i],
            ).parameters
        }
}

/// Whether the normalized module `n` keeps the references of the module `m`
/// of the source: an instruction that names its account struct in the
/// source names the same struct after normalization.
pub open spec fn module_keeps_references(
    m: crate::model::program::ProgramModuleView,
    n: NormalizedModuleView,
) -> bool {
    &&& n.instructions.len() == m.instructions.len()
    &&& forall|i: int|
        0 <= i < m.instructions.len() && m.instructions[i].context_type.is_some() ==> (
        #[trigger] n.instructions[i]).account_struct_name == m.instructions[i].context_type
}

/// The reference of an instruction to its account struct, once set, is
/// never overwritten: what the source names, the normal form names.
pub proof fn lemma_normalization_keeps_references(p: ProgramView)
    requires
        program_name(p).is_some(),
    ensures
        normalized_program(p) matches Ok(n) && n.modules.len() == p.program_modules.len()
            && forall|m: int|
            0 <= m < p.program_modules.len() ==> module_keeps_references(
                p.program_modules[m],
                #[trigger] n.modules[m],
            ),
{
    let name = program_name(p).unwrap();
    let copy = copied_program(p, name);
    let link = linked(copy);
    let n = validated(with_inferred_semantics(link));
    assert forall|m: int| 0 <= m < p.program_modules.len() implies module_keeps_references(
        p.program_modules[m],
        #[trigger] n.modules[m],
    ) by {
        let source = p.program_modules[m];
        assert(copy.modules[m] == normalized_module(source));
        assert(link.modules[m] == linked_module(copy.modules[m]));
        assert(n.modules[m] == module_with_operations(link.modules[m], link.account_structs));
        assert forall|i: int|
            0 <= i < source.instructions.len()
                && source.instructions[i].context_type.is_some() implies (
        #[trigger] n.modules[m].instructions[i]).account_struct_name
            == source.instructions[i].context_type by {
            assert(copy.modules[m].instructions[i] == normalized_instruction(
                source.instructions[i],
            ));
            assert(link.modules[m].instructions[i] == linked_instruction(
                copy.modules[m].instructions[i],
            ));
            assert(n.modules[m].instructions[i] == instruction_with_operations(
                link.modules[m].instructions[i],
                link.account_structs,
            ));
        }
    }
}

/// Whether the normalized program `n` keeps the order of the program `p`:
/// modules, instructions, parameters, account structs, fields and raw
/// accounts stand as in the source, and in each field the constraints of the
/// source come before the inferred ones.
pub open spec fn keeps_source_order(p: ProgramView, n: NormalizedProgramView) -> bool {
    &&& n.modules.len() == p.program_modules.len()
    &&& forall|m: int|
        0 <= m < p.program_modules.len() ==> module_keeps_order(
            p.program_modules[m],
            #[trigger] n.modules[m],
        )
    &&& n.account_structs.len() == p.account_structs.len()
    &&& forall|a: int|
        0 <= a < p.account_structs.len() ==> struct_keeps_order(
            p.account_structs[a],
            #[trigger] n.account_structs[a],
        )
    &&& n.raw_accounts == copied_program(p, n.name).raw_accounts
}

/// Normalization keeps the order of the source, and appends what it infers:
/// the normal form of a program keeps the order of the program.
pub proof fn lemma_normalization_keeps_order(p: ProgramView)
    requires
        program_name(p).is_some(),
    ensures
        normalized_program(p) matches Ok(n) && keeps_source_order(p, n),
{
    let name = program_name(p).unwrap();
    let copy = copied_program(p, name);
    let link = linked(copy);
    let ops = with_inferred_operations(link);
    let cons = with_inferred_constraints(ops);
    let rel = with_relationships(cons);
    let n = validated(rel);
    assert(normalized_program(p) == Ok::<
        NormalizedProgramView,
        crate::error::NormalizationErrorView,
    >(n));
    assert forall|m: int| 0 <= m < p.program_modules.len() implies module_keeps_order(
        p.program_modules[m],
        #[trigger] n.modules[m],
    ) by {
        let source = p.program_modules[m];
        assert(copy.modules[m] == normalized_module(source));
        assert(link.modules[m] == linked_module(copy.modules[m]));
        assert(n.modules[m] == module_with_operations(link.modules[m], link.account_structs));
        assert forall|i: int| 0 <= i < source.instructions.len() implies {
            &&& (#[trigger] n.modules[m].instructions[i]).name == source.instructions[i].name
            &&& n.modules[m].instructions[i].parameters == normalized_instruction(
                source.instructions[i],
            ).parameters
        } by {
            assert(copy.modules[m].instructions[i] == normalized_instruction(
                source.instructions[i],
            ));
            assert(link.modules[m].instructions[i] == linked_instruction(
                copy.modules[m].instructions[i],
            ));
            assert(n.modules[m].instructions[i] == instruction_with_operations(
                link.modules[m].instructions[i],
                link.account_structs,
            ));
        }
    }
    assert forall|a: int| 0 <= a < p.account_structs.len() implies struct_keeps_order(
        p.account_structs[a],
        #[trigger] n.account_structs[a],
    ) by {
        let source = p.account_structs[a];
        assert(copy.account_structs[a] == normalized_struct(source));
        assert(cons.account_structs[a] == struct_with_inferred_constraints(
            copy.account_structs[a],
        ));
        assert(n.account_structs[a] == struct_with_relationships(cons.account_structs[a]));
        assert forall|f: int| 0 <= f < source.fields.len() implies field_keeps_order(
            source.fields[f],
            #[trigger] n.account_structs[a].fields[f],
        ) by {
            let field = source.fields[f];
            let copied = normalized_field(field);
            let inferred = field_with_inferred_constraints(copied);
            let g = n.account_structs[a].fields[f];
            assert(copy.account_structs[a].fields[f] == copied);
            assert(cons.account_structs[a].fields[f] == inferred);
            assert(g == field_with_relationship(cons.account_structs[a].fields, f));
            assert(g.constraints == inferred.constraints);
            lemma_field_with_constraints(
                NormalizedAccountFieldView::new(field.name, field.ty),
                normalized_constraints(field.constraints),
            );
            assert(copied.constraints =~= normalized_constraints(field.constraints));
            lemma_field_with_inferred_constraints(copied);
            assert forall|k: int| 0 <= k < field.constraints.len() implies !(
            #[trigger] g.constraints[k]).is_inferred by {
                assert(g.constraints.take(field.constraints.len() as int)[k] == g.constraints[k]);
                assert(normalized_constraints(field.constraints)[k] == normalized_constraint(
                    field.constraints[k],
                ));
            }
        }
    }
}

/// Adding constraints one after the other keeps the flags of a field in
/// step with its constraints.
proof fn lemma_field_with_constraints_keeps_step(
    f: NormalizedAccountFieldView,
    cs: Seq<NormalizedConstraintView>,
)
    requires
        f.flags_in_step(),
    ensures
        crate::normalization::account::field_with_constraints(f, cs).flags_in_step(),
    decreases cs.len(),
{
    if cs.len() > 0 {
        lemma_field_with_constraints_keeps_step(f, cs.drop_last());
        lemma_with_constraint_keeps_step(
            crate::normalization::account::field_with_constraints(f, cs.drop_last()),
            cs.last(),
        );
    }
}

/// In the normal form of a program the flags of every field are in step
/// with its constraints: whichever pass added a constraint recorded what it
/// says of the field.
pub proof fn lemma_normalized_flags_are_in_step(p: ProgramView)
    requires
        program_name(p).is_some(),
    ensures
        normalized_program(p) matches Ok(n) && forall|a: int, f: int|
            0 <= a < n.account_structs.len() && 0 <= f < n.account_structs[a].fields.len() ==> (
            #[trigger] n.account_structs[a].fields[f]).flags_in_step(),
{
    let name = program_name(p).unwrap();
    let copy = copied_program(p, name);
    let cons = with_inferred_constraints(with_inferred_operations(linked(copy)));
    let n = validated(with_relationships(cons));
    assert forall|a: int, f: int|
        0 <= a < n.account_structs.len() && 0 <= f < n.account_structs[a].fields.len() implies (
    #[trigger] n.account_structs[a].fields[f]).flags_in_step() by {
        let field = p.account_structs[a].fields[f];
        let copied = normalized_field(field);
        assert(copy.account_structs[a] == normalized_struct(p.account_structs[a]));
        assert(copy.account_structs[a].fields[f] == copied);
        assert(cons.account_structs[a] == struct_with_inferred_constraints(
            copy.account_structs[a],
        ));
        let inferred = field_with_inferred_constraints(copied);
        assert(cons.account_structs[a].fields[f] == inferred);
        assert(n.account_structs[a] == struct_with_relationships(cons.account_structs[a]));
        let g = n.account_structs[a].fields[f];
        assert(g == field_with_relationship(cons.account_structs[a].fields, f));
        let start = NormalizedAccountFieldView::new(field.name, field.ty);
        assert(start.constraint_types() =~= Seq::<Seq<char>>::empty());
        assert(start.flags_in_step());
        lemma_field_with_constraints_keeps_step(start, normalized_constraints(field.constraints));
        let signed = if needs_signer(copied) {
            copied.with_constraint(NormalizedConstraintView::inferred("signer"@))
        } else {
            copied
        };
        if needs_signer(copied) {
            lemma_with_constraint_keeps_step(
                copied,
                NormalizedConstraintView::inferred("signer"@),
            );
        }
        if needs_mut(copied) {
            lemma_with_constraint_keeps_step(signed, NormalizedConstraintView::inferred("mut"@));
        }
        assert(inferred.flags_in_step());
        assert(g.constraints == inferred.constraints);
        assert(g.constraint_types() == inferred.constraint_types());
    }
}

} // verus!
