//! Canonical R1CS assignments and their replay into a fresh constraint system.
//!
//! An [`Assignment`](assignment::Assignment) snapshots one circuit instance:
//! ordered public and private inputs, constraint triples, lookup tables and
//! lookup constraints. A [`SameCircuitAssignment`](same_circuit::SameCircuitAssignment)
//! shares one base assignment across many instances that differ only in their
//! variable values. Either kind can be synthesized into a fresh
//! [`TargetSystem`](target::TargetSystem), under a strict index-alignment
//! contract between the two numberings.

pub mod assignment;
pub mod field;
pub mod laws;
pub mod linear_combination;
pub mod lookup;
pub mod ordered_map;
pub mod same_circuit;
pub mod synthesis;
pub mod target;
pub mod variable;
