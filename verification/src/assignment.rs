//! The full snapshot of one circuit instance: ordered public and private
//! inputs, constraint triples, lookup tables and lookup constraints.

use vstd::prelude::*;

use crate::field::{saturate_u64, FieldValue};
use crate::linear_combination::{lemma_converted_wf, AssignmentLC, SourceLinearCombination};
use crate::lookup::LookupTable;
use crate::ordered_map::{input_map_entries, input_map_insert, input_map_len, input_map_new,
    lemma_find_key_absent, InputMap};

verus! {

/// The completed source circuit representation an assignment is extracted
/// from: ordered `(index, value)` variable lists, ordered constraint triples,
/// lookup tables and ordered lookup constraints.
pub struct SourceR1cs {
    pub public: Vec<(u64, FieldValue)>,
    pub private: Vec<(u64, FieldValue)>,
    pub constraints: Vec<
        (SourceLinearCombination, SourceLinearCombination, SourceLinearCombination),
    >,
    pub tables: Vec<LookupTable>,
    pub lookup_constraints: Vec<
        (SourceLinearCombination, SourceLinearCombination, SourceLinearCombination, usize),
    >,
}

impl SourceR1cs {
    /// A completed source circuit is well formed: its variables are listed in
    /// ascending index order starting at zero, every value is canonical, and
    /// every linear combination refers only to allocated variables.
    pub open spec fn wf(self) -> bool {
        let num_public = self.public@.len() as int;
        let num_private = self.private@.len() as int;
        &&& forall|i: int|
            0 <= i < self.public@.len() ==> (#[trigger] self.public@[i]).0 == i
                && self.public@[i].1.wf()
        &&& forall|i: int|
            0 <= i < self.private@.len() ==> (#[trigger] self.private@[i]).0 == i
                && self.private@[i].1.wf()
        &&& forall|k: int|
            0 <= k < self.constraints@.len() ==> (#[trigger] self.constraints@[k]).0.wf(
                num_public,
                num_private,
            ) && self.constraints@[k].1.wf(num_public, num_private) && self.constraints@[k].2.wf(
                num_public,
                num_private,
            )
        &&& forall|k: int| 0 <= k < self.tables@.len() ==> (#[trigger] self.tables@[k]).wf()
        &&& forall|k: int|
            0 <= k < self.lookup_constraints@.len() ==> (
            #[trigger] self.lookup_constraints@[k]).0.wf(num_public, num_private)
                && self.lookup_constraints@[k].1.wf(num_public, num_private)
                && self.lookup_constraints@[k].2.wf(num_public, num_private)
    }
}

/// An assignment: public and private variable values keyed by index,
/// constraint triples, lookup tables, and lookup constraints each bound to a
/// table index.
pub struct Assignment {
    pub public: InputMap,
    pub private: InputMap,
    pub constraints: Vec<(AssignmentLC, AssignmentLC, AssignmentLC)>,
    pub tables: Vec<LookupTable>,
    pub lookup_constraints: Vec<(AssignmentLC, AssignmentLC, AssignmentLC, usize)>,
}

impl Assignment {
    /// The public inputs, as `(index, value)` pairs in insertion order.
    pub open spec fn spec_public(self) -> Seq<(u64, FieldValue)> {
        input_map_entries(self.public)
    }

    /// The private inputs, as `(index, value)` pairs in insertion order.
    pub open spec fn spec_private(self) -> Seq<(u64, FieldValue)> {
        input_map_entries(self.private)
    }

    /// The constraint triples and the lookup-constraint triples, the latter
    /// stripped of their table index, in order.
    pub open spec fn spec_all_triples(self) -> Seq<(AssignmentLC, AssignmentLC, AssignmentLC)> {
        self.constraints@ + self.lookup_constraints@.map_values(
            |c: (AssignmentLC, AssignmentLC, AssignmentLC, usize)| (c.0, c.1, c.2),
        )
    }

    /// Well-formedness: the input maps hold exactly the indices `0..len`, in
    /// ascending order, with canonical values; every linear combination is
    /// well formed against the variable counts.
    pub open spec fn wf(self) -> bool {
        let num_public = self.spec_public().len() as int;
        let num_private = self.spec_private().len() as int;
        &&& forall|i: int|
            0 <= i < self.spec_public().len() ==> (#[trigger] self.spec_public()[i]).0 == i
                && self.spec_public()[i].1.wf()
        &&& forall|i: int|
            0 <= i < self.spec_private().len() ==> (#[trigger] self.spec_private()[i]).0 == i
                && self.spec_private()[i].1.wf()
        &&& forall|k: int|
            0 <= k < self.constraints@.len() ==> (#[trigger] self.constraints@[k]).0.wf(
                num_public,
                num_private,
            ) && self.constraints@[k].1.wf(num_public, num_private) && self.constraints@[k].2.wf(
                num_public,
                num_private,
            )
        &&& forall|k: int| 0 <= k < self.tables@.len() ==> (#[trigger] self.tables@[k]).wf()
        &&& forall|k: int|
            0 <= k < self.lookup_constraints@.len() ==> (
            #[trigger] self.lookup_constraints@[k]).0.wf(num_public, num_private)
                && self.lookup_constraints@[k].1.wf(num_public, num_private)
                && self.lookup_constraints@[k].2.wf(num_public, num_private)
    }

    /// Converts a completed source circuit to an assignment, capturing
    /// exactly its data: the variable lists become the input maps, and each
    /// linear combination is transcoded preserving term order.
    pub fn from(r1cs: SourceR1cs) -> (r: Assignment)
        requires
            r1cs.wf(),
        ensures
            r.spec_public() == r1cs.public@,
            r.spec_private() == r1cs.private@,
            r.constraints@.len() == r1cs.constraints@.len(),
            forall|k: int|
                0 <= k < r1cs.constraints@.len() ==> (#[trigger] r.constraints@[k]).0.matches_source(
                    r1cs.constraints@[k].0,
                ) && r.constraints@[k].1.matches_source(r1cs.constraints@[k].1)
                    && r.constraints@[k].2.matches_source(r1cs.constraints@[k].2),
            r.tables == r1cs.tables,
            r.lookup_constraints@.len() == r1cs.lookup_constraints@.len(),
            forall|k: int|
                0 <= k < r1cs.lookup_constraints@.len() ==> (
                #[trigger] r.lookup_constraints@[k]).0.matches_source(
                    r1cs.lookup_constraints@[k].0,
                ) && r.lookup_constraints@[k].1.matches_source(r1cs.lookup_constraints@[k].1)
                    && r.lookup_constraints@[k].2.matches_source(r1cs.lookup_constraints@[k].2)
                    && r.lookup_constraints@[k].3 == r1cs.lookup_constraints@[k].3,
            r.wf(),
    {
        let SourceR1cs { public, private, constraints, tables, lookup_constraints } = r1cs;
        let public_map = build_input_map(&public);
        let private_map = build_input_map(&private);

        let mut aconstraints: Vec<(AssignmentLC, AssignmentLC, AssignmentLC)> = Vec::new();
        let nc = constraints.len();
        for k in 0..nc
            invariant
                nc == constraints@.len(),
                r1cs.wf(),
                constraints == r1cs.constraints,
                aconstraints@.len() == k,
                forall|j: int|
                    0 <= j < k ==> (#[trigger] aconstraints@[j]).0.matches_source(
                        constraints@[j].0,
                    ) && aconstraints@[j].1.matches_source(constraints@[j].1)
                        && aconstraints@[j].2.matches_source(constraints@[j].2),
        {
            let triple = &constraints[k];
            let a = AssignmentLC::from(&triple.0);
            let b = AssignmentLC::from(&triple.1);
            let c = AssignmentLC::from(&triple.2);
            aconstraints.push((a, b, c));
        }

        let mut alookups: Vec<(AssignmentLC, AssignmentLC, AssignmentLC, usize)> = Vec::new();
        let nl = lookup_constraints.len();
        for k in 0..nl
            invariant
                nl == lookup_constraints@.len(),
                r1cs.wf(),
                lookup_constraints == r1cs.lookup_constraints,
                alookups@.len() == k,
                forall|j: int|
                    0 <= j < k ==> (#[trigger] alookups@[j]).0.matches_source(
                        lookup_constraints@[j].0,
                    ) && alookups@[j].1.matches_source(lookup_constraints@[j].1)
                        && alookups@[j].2.matches_source(lookup_constraints@[j].2)
                        && alookups@[j].3 == lookup_constraints@[j].3,
        {
            let entry = &lookup_constraints[k];
            let a = AssignmentLC::from(&entry.0);
            let b = AssignmentLC::from(&entry.1);
            let c = AssignmentLC::from(&entry.2);
            alookups.push((a, b, c, entry.3));
        }

        let r = Assignment {
            public: public_map,
            private: private_map,
            constraints: aconstraints,
            tables,
            lookup_constraints: alookups,
        };
        proof {
            let num_public = r.spec_public().len() as int;
            let num_private = r.spec_private().len() as int;
            assert forall|k: int| 0 <= k < r.constraints@.len() implies (
            #[trigger] r.constraints@[k]).0.wf(num_public, num_private) && r.constraints@[k].1.wf(
                num_public,
                num_private,
            ) && r.constraints@[k].2.wf(num_public, num_private) by {
                lemma_converted_wf(
                    r1cs.constraints@[k].0,
                    r.constraints@[k].0,
                    num_public,
                    num_private,
                );
                lemma_converted_wf(
                    r1cs.constraints@[k].1,
                    r.constraints@[k].1,
                    num_public,
                    num_private,
                );
                lemma_converted_wf(
                    r1cs.constraints@[k].2,
                    r.constraints@[k].2,
                    num_public,
                    num_private,
                );
            }
            assert forall|k: int| 0 <= k < r.lookup_constraints@.len() implies (
            #[trigger] r.lookup_constraints@[k]).0.wf(num_public, num_private)
                && r.lookup_constraints@[k].1.wf(num_public, num_private)
                && r.lookup_constraints@[k].2.wf(num_public, num_private) by {
                lemma_converted_wf(
                    r1cs.lookup_constraints@[k].0,
                    r.lookup_constraints@[k].0,
                    num_public,
                    num_private,
                );
                lemma_converted_wf(
                    r1cs.lookup_constraints@[k].1,
                    r.lookup_constraints@[k].1,
                    num_public,
                    num_private,
                );
                lemma_converted_wf(
                    r1cs.lookup_constraints@[k].2,
                    r.lookup_constraints@[k].2,
                    num_public,
                    num_private,
                );
            }
        }
        r
    }

    /// Returns the public inputs of the assignment.
    pub fn public_inputs(&self) -> (r: &InputMap)
        ensures
            input_map_entries(*r) == self.spec_public(),
    {
        &self.public
    }

    /// Returns the private inputs of the assignment.
    pub fn private_inputs(&self) -> (r: &InputMap)
        ensures
            input_map_entries(*r) == self.spec_private(),
    {
        &self.private
    }

    /// Returns the constraints of the assignment.
    pub fn constraints(&self) -> (r: &Vec<(AssignmentLC, AssignmentLC, AssignmentLC)>)
        ensures
            r == self.constraints,
    {
        &self.constraints
    }

    /// Returns the number of public variables in the assignment.
    pub fn num_public(&self) -> (r: u64)
        ensures
            r == self.spec_public().len(),
    {
        input_map_len(&self.public) as u64
    }

    /// Returns the number of private variables in the assignment.
    pub fn num_private(&self) -> (r: u64)
        ensures
            r == self.spec_private().len(),
    {
        input_map_len(&self.private) as u64
    }

    /// Returns the number of constraints in the assignment.
    pub fn num_constraints(&self) -> (r: u64)
        ensures
            r == self.constraints@.len(),
    {
        self.constraints.len() as u64
    }

    /// Returns the number of lookup tables in the assignment.
    pub fn num_lookup_tables(&self) -> (r: u64)
        ensures
            r == self.tables@.len(),
    {
        self.tables.len() as u64
    }

    /// Returns the number of lookup constraints in the assignment.
    pub fn num_lookup_constraints(&self) -> (r: u64)
        ensures
            r == self.lookup_constraints@.len(),
    {
        self.lookup_constraints.len() as u64
    }

    /// The per-side nonzero totals over all constraint triples, lookup
    /// constraints included, each sum saturating at the top of `u64`.
    pub open spec fn spec_num_nonzeros(self) -> (u64, u64, u64) {
        spec_nonzeros_fold(self.spec_all_triples())
    }

    /// Returns the number of nonzeros of each constraint side across the
    /// assignment.
    pub fn num_nonzeros(&self) -> (r: (u64, u64, u64))
        ensures
            r == self.spec_num_nonzeros(),
    {
        let ghost all = self.spec_all_triples();
        let mut a: u64 = 0;
        let mut b: u64 = 0;
        let mut c: u64 = 0;
        let nc = self.constraints.len();
        assert(all.take(0) =~= Seq::<(AssignmentLC, AssignmentLC, AssignmentLC)>::empty());
        for k in 0..nc
            invariant
                nc == self.constraints@.len(),
                all == self.spec_all_triples(),
                (a, b, c) == spec_nonzeros_fold(all.take(k as int)),
        {
            let triple = &self.constraints[k];
            a = a.saturating_add(triple.0.num_nonzeros());
            b = b.saturating_add(triple.1.num_nonzeros());
            c = c.saturating_add(triple.2.num_nonzeros());
            proof {
                assert(all.take(k + 1).drop_last() =~= all.take(k as int));
                assert(all.take(k + 1).last() == all[k as int]);
                assert(all[k as int] == self.constraints@[k as int]);
            }
        }
        let nl = self.lookup_constraints.len();
        for k in 0..nl
            invariant
                nc == self.constraints@.len(),
                nl == self.lookup_constraints@.len(),
                all == self.spec_all_triples(),
                (a, b, c) == spec_nonzeros_fold(all.take(nc + k)),
        {
            let entry = &self.lookup_constraints[k];
            a = a.saturating_add(entry.0.num_nonzeros());
            b = b.saturating_add(entry.1.num_nonzeros());
            c = c.saturating_add(entry.2.num_nonzeros());
            proof {
                assert(all.take(nc + k + 1).drop_last() =~= all.take(nc + k));
                assert(all.take(nc + k + 1).last() == all[nc + k]);
                assert(all[nc + k] == (
                    self.lookup_constraints@[k as int].0,
                    self.lookup_constraints@[k as int].1,
                    self.lookup_constraints@[k as int].2,
                ));
            }
        }
        assert(all.take(nc + nl) =~= all);
        (a, b, c)
    }
}

/// The per-side nonzero totals of a sequence of constraint triples, each sum
/// saturating at the top of `u64`.
pub open spec fn spec_nonzeros_fold(s: Seq<(AssignmentLC, AssignmentLC, AssignmentLC)>) -> (
    u64,
    u64,
    u64,
)
    decreases s.len(),
{
    if s.len() == 0 {
        (0u64, 0u64, 0u64)
    } else {
        let prev = spec_nonzeros_fold(s.drop_last());
        let t = s.last();
        (
            saturate_u64((prev.0 + t.0.spec_num_nonzeros()) as nat),
            saturate_u64((prev.1 + t.1.spec_num_nonzeros()) as nat),
            saturate_u64((prev.2 + t.2.spec_num_nonzeros()) as nat),
        )
    }
}

/// Builds the input map of a variable list: each `(index, value)` pair is
/// inserted in order.
fn build_input_map(pairs: &Vec<(u64, FieldValue)>) -> (r: InputMap)
    requires
        forall|i: int| 0 <= i < pairs@.len() ==> (#[trigger] pairs@[i]).0 == i,
    ensures
        input_map_entries(r) == pairs@,
{
    let mut m = input_map_new();
    let n = pairs.len();
    for i in 0..n
        invariant
            n == pairs@.len(),
            forall|j: int| 0 <= j < pairs@.len() ==> (#[trigger] pairs@[j]).0 == j,
            input_map_entries(m) == pairs@.take(i as int),
    {
        let (index, value) = pairs[i];
        proof {
            assert forall|j: int| 0 <= j < pairs@.take(i as int).len() implies (
            #[trigger] pairs@.take(i as int)[j]).0 != index by {
                assert(pairs@.take(i as int)[j] == pairs@[j]);
            }
            lemma_find_key_absent(pairs@.take(i as int), index);
        }
        let prior = input_map_insert(&mut m, index, value);
        assert(input_map_entries(m) =~= pairs@.take(i + 1));
    }
    assert(pairs@.take(n as int) =~= pairs@);
    m
}

} // verus!
