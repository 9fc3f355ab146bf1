//! Linear-combination snapshots: an immutable constant term plus an ordered
//! unique map from variable identity to coefficient.

use vstd::prelude::*;

use crate::field::FieldValue;
use crate::ordered_map::{find_key, term_map_entries, term_map_insert, term_map_len, term_map_new,
    TermMap};
use crate::variable::{AssignmentVariable, SourceVariable};

verus! {

/// A linear combination of the source circuit, as handed in by the circuit
/// front end: a constant plus ordered `(variable, coefficient)` terms.
pub struct SourceLinearCombination {
    pub constant: FieldValue,
    pub terms: Vec<(SourceVariable, FieldValue)>,
}

impl SourceLinearCombination {
    /// The converted identities of this combination's terms, in order.
    pub open spec fn spec_converted_terms(self) -> Seq<(AssignmentVariable, FieldValue)> {
        self.terms@.map_values(|t: (SourceVariable, FieldValue)| (AssignmentVariable::spec_from(t.0), t.1))
    }

    /// The term variables convert to pairwise distinct identities, as the
    /// source front end guarantees of the unique map it iterates.
    pub open spec fn has_distinct_identities(self) -> bool {
        forall|i: int, j: int|
            0 <= i < j < self.terms@.len() ==> AssignmentVariable::spec_from(
                #[trigger] self.terms@[i].0,
            ) != AssignmentVariable::spec_from(#[trigger] self.terms@[j].0)
    }

    /// Well-formedness against the variable counts of the source circuit:
    /// the identities are distinct, every value is canonical, and every term
    /// names an allocated public or private variable — never a constant.
    pub open spec fn wf(self, num_public: int, num_private: int) -> bool {
        &&& self.constant.wf()
        &&& self.has_distinct_identities()
        &&& forall|i: int| 0 <= i < self.terms@.len() ==> (#[trigger] self.terms@[i]).1.wf()
        &&& forall|i: int|
            0 <= i < self.terms@.len() ==> match AssignmentVariable::spec_from(
                (#[trigger] self.terms@[i]).0,
            ) {
                AssignmentVariable::Constant(_) => false,
                AssignmentVariable::Public(j) => j < num_public,
                AssignmentVariable::Private(j) => j < num_private,
            }
    }
}

/// A linear-combination snapshot inside an assignment.
pub struct AssignmentLC {
    pub constant: FieldValue,
    pub terms: TermMap,
}

impl AssignmentLC {
    /// The constant term.
    pub open spec fn spec_constant(self) -> FieldValue {
        self.constant
    }

    /// The terms, as key/value pairs in insertion order.
    pub open spec fn spec_terms(self) -> Seq<(AssignmentVariable, FieldValue)> {
        term_map_entries(self.terms)
    }

    /// Well-formedness against the variable counts of the surrounding
    /// assignment: every value is canonical, and every term names a public or
    /// private variable whose index is allocated — never a raw constant.
    pub open spec fn wf(self, num_public: int, num_private: int) -> bool {
        &&& self.constant.wf()
        &&& forall|i: int|
            0 <= i < self.spec_terms().len() ==> (#[trigger] self.spec_terms()[i]).1.wf()
        &&& forall|i: int|
            0 <= i < self.spec_terms().len() ==> match (#[trigger] self.spec_terms()[i]).0 {
                AssignmentVariable::Constant(_) => false,
                AssignmentVariable::Public(j) => j < num_public,
                AssignmentVariable::Private(j) => j < num_private,
            }
    }

    /// Converts a source linear combination to an assignment linear
    /// combination: the constant is carried over and each term is transcoded
    /// in iteration order.
    pub fn from(lc: &SourceLinearCombination) -> (r: AssignmentLC)
        requires
            lc.has_distinct_identities(),
        ensures
            r.spec_constant() == lc.constant,
            r.spec_terms() == lc.spec_converted_terms(),
    {
        let mut terms = term_map_new();
        let n = lc.terms.len();
        assert(lc.spec_converted_terms().len() == n);
        for i in 0..n
            invariant
                n == lc.terms@.len(),
                lc.has_distinct_identities(),
                term_map_entries(terms) == lc.spec_converted_terms().take(i as int),
        {
            let (variable, coefficient) = lc.terms[i];
            let identity = AssignmentVariable::from(&variable);
            proof {
                lemma_fresh_identity(lc.spec_converted_terms(), i as int);
            }
            let prior = term_map_insert(&mut terms, identity, coefficient);
            assert(prior is None);
            assert(term_map_entries(terms) =~= lc.spec_converted_terms().take(i + 1));
        }
        assert(lc.spec_converted_terms().take(n as int) =~= lc.spec_converted_terms());
        AssignmentLC { constant: lc.constant, terms }
    }

    /// Returns the constant term of the linear combination.
    pub fn constant(&self) -> (r: FieldValue)
        ensures
            r == self.spec_constant(),
    {
        self.constant
    }

    /// Returns the terms of the linear combination.
    pub fn terms(&self) -> (r: &TermMap)
        ensures
            term_map_entries(*r) == self.spec_terms(),
    {
        &self.terms
    }

    /// The number of nonzeros: the term count, plus one when the constant is
    /// nonzero, saturating at the top of `u64`.
    pub open spec fn spec_num_nonzeros(self) -> u64 {
        let base = self.spec_terms().len();
        let total: nat = if self.spec_constant() == FieldValue::spec_zero() {
            base
        } else {
            base + 1
        };
        if total > u64::MAX {
            u64::MAX
        } else {
            total as u64
        }
    }

    /// Returns the number of nonzeros in the linear combination.
    pub fn num_nonzeros(&self) -> (r: u64)
        ensures
            r == self.spec_num_nonzeros(),
    {
        let len: usize = term_map_len(&self.terms);
        let count: u64 = len as u64;
        if self.constant.is_zero() {
            count
        } else {
            count.saturating_add(1)
        }
    }
}

impl AssignmentLC {
    /// This snapshot captures exactly the given source combination: the same
    /// constant, and its terms transcoded in order.
    pub open spec fn matches_source(self, slc: SourceLinearCombination) -> bool {
        &&& self.spec_constant() == slc.constant
        &&& self.spec_terms() == slc.spec_converted_terms()
    }
}

/// A snapshot of a well-formed source combination is itself well formed.
pub proof fn lemma_converted_wf(
    slc: SourceLinearCombination,
    alc: AssignmentLC,
    num_public: int,
    num_private: int,
)
    requires
        slc.wf(num_public, num_private),
        alc.matches_source(slc),
    ensures
        alc.wf(num_public, num_private),
{
    assert forall|i: int| 0 <= i < alc.spec_terms().len() implies (#[trigger] alc.spec_terms()[i]).1.wf()
        && match alc.spec_terms()[i].0 {
        AssignmentVariable::Constant(_) => false,
        AssignmentVariable::Public(j) => j < num_public,
        AssignmentVariable::Private(j) => j < num_private,
    } by {
        assert(alc.spec_terms()[i] == (
            AssignmentVariable::spec_from(slc.terms@[i].0),
            slc.terms@[i].1,
        ));
    }
}

/// When the first `i` converted terms are exactly a prefix of a sequence of
/// pairwise distinct identities, the identity at `i` is absent from them.
proof fn lemma_fresh_identity(converted: Seq<(AssignmentVariable, FieldValue)>, i: int)
    requires
        0 <= i < converted.len(),
        forall|p: int, q: int|
            0 <= p < q < converted.len() ==> (#[trigger] converted[p]).0 != (
            #[trigger] converted[q]).0,
    ensures
        find_key(converted.take(i), converted[i].0) < 0,
{
    crate::ordered_map::lemma_find_key_absent(converted.take(i), converted[i].0);
}

} // verus!
