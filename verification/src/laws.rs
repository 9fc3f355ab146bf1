//! The library's stated laws: properties that hold of every assignment and
//! every synthesis, proved from the public contracts.

use vstd::prelude::*;

use crate::assignment::Assignment;
use crate::field::FieldValue;
use crate::linear_combination::AssignmentLC;
use crate::same_circuit::SameCircuitAssignment;
use crate::synthesis::{spec_convert_term, spec_converted_lookups, spec_converted_triples,
    spec_lookup_refs_valid, spec_table_views, spec_values};
use crate::target::{SynthesisError, TargetSystem, TargetVariable};
use crate::variable::AssignmentVariable;

verus! {

/// Round-trip preservation: a target system synthesized from an assignment
/// holds one public variable more than the assignment (the constant one),
/// exactly its private variables, and one constraint per source constraint,
/// lookup constraints included.
pub proof fn lemma_round_trip(a: Assignment, cs: TargetSystem)
    requires
        cs.spec_public() == seq![FieldValue::spec_one()] + spec_values(a.spec_public()),
        cs.spec_private() == spec_values(a.spec_private()),
        cs.spec_constraints() == spec_converted_triples(a.constraints@),
        cs.spec_lookup_constraints() == spec_converted_lookups(a.lookup_constraints@),
    ensures
        cs.spec_public().len() == a.spec_public().len() + 1,
        cs.spec_private().len() == a.spec_private().len(),
        cs.spec_constraints().len() == a.constraints@.len(),
        cs.spec_constraints().len() + cs.spec_lookup_constraints().len() == a.constraints@.len()
            + a.lookup_constraints@.len(),
{
}

/// Index alignment: the value of public input `i` occupies target public
/// slot `i + 1`, one above its source index for the implicit constant one;
/// the value of private input `i` occupies target private slot `i` exactly.
/// Converted linear-combination terms shift the same way.
pub proof fn lemma_index_alignment(a: Assignment, cs: TargetSystem, i: int)
    requires
        cs.spec_public() == seq![FieldValue::spec_one()] + spec_values(a.spec_public()),
        cs.spec_private() == spec_values(a.spec_private()),
    ensures
        0 <= i < a.spec_public().len() ==> cs.spec_public()[i + 1] == a.spec_public()[i].1,
        0 <= i < a.spec_private().len() ==> cs.spec_private()[i] == a.spec_private()[i].1,
        cs.spec_public()[0] == FieldValue::spec_one(),
{
}

/// Index alignment of converted terms: a public source variable maps to the
/// target slot one above its index, a private one to its own index, with the
/// coefficient untouched.
pub proof fn lemma_term_alignment(j: u64, coefficient: FieldValue)
    ensures
        spec_convert_term((AssignmentVariable::Public(j), coefficient)) == (
            TargetVariable::Public((j + 1) as usize),
            coefficient,
        ),
        spec_convert_term((AssignmentVariable::Private(j), coefficient)) == (
            TargetVariable::Private(j as usize),
            coefficient,
        ),
{
}

/// Structural sharing: two shared-structure assignments over the same base
/// synthesize identical constraint structure and tables, whatever their
/// variable values.
pub proof fn lemma_structural_sharing(
    s1: SameCircuitAssignment,
    s2: SameCircuitAssignment,
    cs1: TargetSystem,
    cs2: TargetSystem,
)
    requires
        s1.base == s2.base,
        cs1.spec_constraints() == spec_converted_triples(s1.base.constraints@),
        cs2.spec_constraints() == spec_converted_triples(s2.base.constraints@),
        cs1.spec_tables() == spec_table_views(s1.base.tables@),
        cs2.spec_tables() == spec_table_views(s2.base.tables@),
    ensures
        cs1.spec_constraints() == cs2.spec_constraints(),
        cs1.spec_tables() == cs2.spec_tables(),
{
}

/// Nonzero accounting: short of saturation, a combination with a nonzero
/// constant counts one more nonzero than its terms; with a zero constant it
/// counts its terms exactly.
pub proof fn lemma_nonzero_accounting(lc: AssignmentLC)
    requires
        lc.spec_terms().len() < u64::MAX,
    ensures
        lc.spec_constant() != FieldValue::spec_zero() ==> lc.spec_num_nonzeros()
            == lc.spec_terms().len() + 1,
        lc.spec_constant() == FieldValue::spec_zero() ==> lc.spec_num_nonzeros()
            == lc.spec_terms().len(),
{
}

/// Evaluation reads only the variable values: two systems with the same
/// public and private columns evaluate every term sequence alike.
proof fn lemma_eval_congruence(
    cs1: TargetSystem,
    cs2: TargetSystem,
    terms: Seq<(TargetVariable, FieldValue)>,
)
    requires
        cs1.public@ == cs2.public@,
        cs1.private@ == cs2.private@,
    ensures
        cs1.spec_eval(terms) == cs2.spec_eval(terms),
    decreases terms.len(),
{
    if terms.len() > 0 {
        lemma_eval_congruence(cs1, cs2, terms.drop_last());
    }
}

/// Idempotent synthesis: synthesizing one assignment into two independently
/// created fresh target systems gives the same outcome, the same variable
/// columns, the same constraints and tables, and the same satisfaction
/// verdict.
pub proof fn lemma_idempotent_synthesis(
    a: Assignment,
    cs1: TargetSystem,
    cs2: TargetSystem,
    r1: Result<(), SynthesisError>,
    r2: Result<(), SynthesisError>,
)
    requires
        cs1.spec_public() == seq![FieldValue::spec_one()] + spec_values(a.spec_public()),
        cs1.spec_private() == spec_values(a.spec_private()),
        cs1.spec_constraints() == spec_converted_triples(a.constraints@),
        cs1.spec_tables() == spec_table_views(a.tables@),
        r1 is Ok <==> spec_lookup_refs_valid(a.lookup_constraints@, a.tables@.len() as int),
        r1 is Ok ==> cs1.spec_lookup_constraints() == spec_converted_lookups(
            a.lookup_constraints@,
        ),
        cs2.spec_public() == seq![FieldValue::spec_one()] + spec_values(a.spec_public()),
        cs2.spec_private() == spec_values(a.spec_private()),
        cs2.spec_constraints() == spec_converted_triples(a.constraints@),
        cs2.spec_tables() == spec_table_views(a.tables@),
        r2 is Ok <==> spec_lookup_refs_valid(a.lookup_constraints@, a.tables@.len() as int),
        r2 is Ok ==> cs2.spec_lookup_constraints() == spec_converted_lookups(
            a.lookup_constraints@,
        ),
        r1 is Ok,
    ensures
        r2 is Ok,
        cs1.spec_public() == cs2.spec_public(),
        cs1.spec_private() == cs2.spec_private(),
        cs1.spec_constraints() == cs2.spec_constraints(),
        cs1.spec_tables() == cs2.spec_tables(),
        cs1.spec_lookup_constraints() == cs2.spec_lookup_constraints(),
        cs1.spec_satisfied() == cs2.spec_satisfied(),
{
    assert(cs1.public@ == cs2.public@);
    assert(cs1.private@ == cs2.private@);
    assert forall|c: (Seq<(TargetVariable, FieldValue)>, Seq<(TargetVariable, FieldValue)>, Seq<
        (TargetVariable, FieldValue),
    >)| #[trigger] cs1.spec_arith_satisfied(c) == cs2.spec_arith_satisfied(c) by {
        lemma_eval_congruence(cs1, cs2, c.0);
        lemma_eval_congruence(cs1, cs2, c.1);
        lemma_eval_congruence(cs1, cs2, c.2);
    }
    assert forall|c: (Seq<(TargetVariable, FieldValue)>, Seq<(TargetVariable, FieldValue)>, Seq<
        (TargetVariable, FieldValue),
    >, int)| #[trigger] cs1.spec_lookup_satisfied(c) == cs2.spec_lookup_satisfied(c) by {
        lemma_eval_congruence(cs1, cs2, c.0);
        lemma_eval_congruence(cs1, cs2, c.1);
        lemma_eval_congruence(cs1, cs2, c.2);
    }
    assert(cs1.spec_satisfied() == cs2.spec_satisfied());
}

} // verus!
