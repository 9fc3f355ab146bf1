//! Shared-structure assignments: one reference-counted base assignment
//! shared across many instances that differ only in their variable values.

use vstd::prelude::*;

use std::sync::Arc;

use crate::assignment::Assignment;
use crate::field::FieldValue;
use crate::ordered_map::{input_map_entries, input_map_len, InputMap};
use crate::synthesis::{spec_converted_lookups, spec_converted_triples, spec_first_invalid_lookup,
    spec_lookup_refs_valid, spec_table_views, spec_values, synthesize_into};
use crate::target::{SynthesisError, TargetSystem};

verus! {

/// An override of just the variable values: the public and private input
/// maps of another assignment over the same circuit.
pub struct PubAndPrivVariables {
    pub public: InputMap,
    pub private: InputMap,
}

/// An assignment that shares its constraint structure: a reference-counted
/// base assignment, plus an optional override of just the variable values.
pub struct SameCircuitAssignment {
    pub variables: Option<PubAndPrivVariables>,
    pub base: Arc<Assignment>,
}

impl SameCircuitAssignment {
    /// The public inputs: the override's when present, else the base's.
    pub open spec fn spec_public(self) -> Seq<(u64, FieldValue)> {
        match self.variables {
            Some(v) => input_map_entries(v.public),
            None => self.base.spec_public(),
        }
    }

    /// The private inputs: the override's when present, else the base's.
    pub open spec fn spec_private(self) -> Seq<(u64, FieldValue)> {
        match self.variables {
            Some(v) => input_map_entries(v.private),
            None => self.base.spec_private(),
        }
    }

    /// Well-formedness: the base is well formed, and an override, when
    /// present, lists each input map in ascending index order with canonical
    /// values and matches the base's variable counts.
    pub open spec fn wf(self) -> bool {
        &&& self.base.wf()
        &&& match self.variables {
            Some(v) => {
                &&& forall|i: int|
                    0 <= i < input_map_entries(v.public).len() ==> (#[trigger] input_map_entries(
                        v.public,
                    )[i]).0 == i && input_map_entries(v.public)[i].1.wf()
                &&& forall|i: int|
                    0 <= i < input_map_entries(v.private).len() ==> (#[trigger] input_map_entries(
                        v.private,
                    )[i]).0 == i && input_map_entries(v.private)[i].1.wf()
                &&& input_map_entries(v.public).len() == self.base.spec_public().len()
                &&& input_map_entries(v.private).len() == self.base.spec_private().len()
            },
            None => true,
        }
    }

    /// Wraps a shared base with the variable values of another assignment
    /// over the same circuit. The caller warrants that `another` shares the
    /// base's constraint structure; its variable counts must match the
    /// base's exactly, and only its value maps are retained.
    pub fn create_with_base(base: Arc<Assignment>, another: Assignment) -> (r: Self)
        requires
            base.wf(),
            another.wf(),
            base.spec_public().len() == another.spec_public().len(),
            base.spec_private().len() == another.spec_private().len(),
        ensures
            r.base == base,
            r.spec_public() == another.spec_public(),
            r.spec_private() == another.spec_private(),
            r.wf(),
    {
        let Assignment { public, private, .. } = another;
        SameCircuitAssignment {
            variables: Some(PubAndPrivVariables { public, private }),
            base,
        }
    }

    /// Wraps a fresh assignment as its own base, with no override.
    pub fn single_one(base: Assignment) -> (r: Self)
        requires
            base.wf(),
        ensures
            r.base == base,
            r.variables is None,
            r.spec_public() == base.spec_public(),
            r.spec_private() == base.spec_private(),
            r.wf(),
    {
        SameCircuitAssignment { variables: None, base: Arc::new(base) }
    }

    /// Returns the public inputs of the assignment.
    pub fn public_inputs(&self) -> (r: &InputMap)
        ensures
            input_map_entries(*r) == self.spec_public(),
    {
        match &self.variables {
            Some(v) => &v.public,
            None => &self.base.public,
        }
    }

    /// Returns the private inputs of the assignment.
    pub fn private_inputs(&self) -> (r: &InputMap)
        ensures
            input_map_entries(*r) == self.spec_private(),
    {
        match &self.variables {
            Some(v) => &v.private,
            None => &self.base.private,
        }
    }

    /// Returns the number of public variables in the assignment.
    pub fn num_public(&self) -> (r: u64)
        ensures
            r == self.spec_public().len(),
    {
        input_map_len(self.public_inputs()) as u64
    }

    /// Returns the number of private variables in the assignment.
    pub fn num_private(&self) -> (r: u64)
        ensures
            r == self.spec_private().len(),
    {
        input_map_len(self.private_inputs()) as u64
    }

    /// Synthesizes the assignment into a constraint system that starts in
    /// its defined empty state, reading variable values from the resolved
    /// maps and all structural data from the shared base.
    pub fn generate_constraints(&self, cs: &mut TargetSystem) -> (r: Result<(), SynthesisError>)
        requires
            self.wf(),
            old(cs).is_fresh(),
            old(cs).wf(),
        ensures
            final(cs).spec_public() == seq![FieldValue::spec_one()] + spec_values(
                self.spec_public(),
            ),
            final(cs).spec_private() == spec_values(self.spec_private()),
            final(cs).spec_constraints() == spec_converted_triples(self.base.constraints@),
            final(cs).spec_tables() == spec_table_views(self.base.tables@),
            r is Ok <==> spec_lookup_refs_valid(
                self.base.lookup_constraints@,
                self.base.tables@.len() as int,
            ),
            r is Ok ==> final(cs).spec_lookup_constraints() == spec_converted_lookups(
                self.base.lookup_constraints@,
            ),
            r is Err ==> r == Err::<(), SynthesisError>(SynthesisError::MissingLookupTable)
                && final(cs).spec_lookup_constraints() == spec_converted_lookups(
                self.base.lookup_constraints@.take(
                    spec_first_invalid_lookup(
                        self.base.lookup_constraints@,
                        self.base.tables@.len() as int,
                    ),
                ),
            ),
            final(cs).wf(),
    {
        match &self.variables {
            Some(v) => synthesize_into(&v.public, &v.private, &self.base, cs),
            None => {
                proof {
                    assert(input_map_entries(self.base.public) == self.base.spec_public());
                    assert(input_map_entries(self.base.private) == self.base.spec_private());
                }
                synthesize_into(&self.base.public, &self.base.private, &self.base, cs)
            },
        }
    }
}

} // verus!
