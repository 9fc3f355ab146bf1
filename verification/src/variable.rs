//! Variable identities of the source circuit and of an assignment.

use vstd::prelude::*;

use crate::field::FieldValue;

verus! {

/// A variable of the source circuit: a constant, or a public or private
/// variable carrying its index and its current value.
#[derive(Clone, Copy, Debug, PartialEq, Eq, Structural)]
pub enum SourceVariable {
    Constant(FieldValue),
    Public(u64, FieldValue),
    Private(u64, FieldValue),
}

/// The identity of a variable inside an assignment: a constant value, or a
/// public or private variable named by its index. Equality is structural, so
/// the identity can serve as an ordered-map key.
#[derive(Clone, Copy, Debug, PartialEq, Eq, Hash, Structural)]
pub enum AssignmentVariable {
    Constant(FieldValue),
    Public(u64),
    Private(u64),
}

impl AssignmentVariable {
    /// The identity that a source variable converts to: the value alone for a
    /// constant, the index alone for a public or private variable.
    pub open spec fn spec_from(variable: SourceVariable) -> AssignmentVariable {
        match variable {
            SourceVariable::Constant(value) => AssignmentVariable::Constant(value),
            SourceVariable::Public(index, _) => AssignmentVariable::Public(index),
            SourceVariable::Private(index, _) => AssignmentVariable::Private(index),
        }
    }

    /// Converts a source variable to an assignment variable.
    pub fn from(variable: &SourceVariable) -> (r: AssignmentVariable)
        ensures
            r == AssignmentVariable::spec_from(*variable),
    {
        match variable {
            SourceVariable::Constant(value) => AssignmentVariable::Constant(*value),
            SourceVariable::Public(index, _) => AssignmentVariable::Public(*index),
            SourceVariable::Private(index, _) => AssignmentVariable::Private(*index),
        }
    }
}

} // verus!
