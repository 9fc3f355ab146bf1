use std::sync::Arc;

use r1cs_assignment::assignment::{Assignment, SourceR1cs};
use r1cs_assignment::field::FieldValue;
use r1cs_assignment::linear_combination::SourceLinearCombination;
use r1cs_assignment::lookup::LookupTable;
use r1cs_assignment::same_circuit::SameCircuitAssignment;
use r1cs_assignment::target::{SynthesisError, TargetSystem, TargetVariable};
use r1cs_assignment::variable::SourceVariable;

use snarkvm_curves::bls12_377::Fr;
use snarkvm_fields::{One, PrimeField, Zero};

fn fv(x: Fr) -> FieldValue {
    let limbs = x.to_bigint().0;
    FieldValue { limb0: limbs[0], limb1: limbs[1], limb2: limbs[2], limb3: limbs[3] }
}

fn fv_u64(x: u64) -> FieldValue {
    fv(Fr::from_bigint(snarkvm_utilities::biginteger::BigInteger256::from(x)).unwrap())
}

fn single_term_lc(var: SourceVariable) -> SourceLinearCombination {
    SourceLinearCombination { constant: fv(Fr::zero()), terms: vec![(var, fv(Fr::one()))] }
}

fn constant_lc(c: FieldValue) -> SourceLinearCombination {
    SourceLinearCombination { constant: c, terms: vec![] }
}

/// Replays the example-circuit trace: 2 public inputs of one, an accumulator
/// doubling 64 times through fresh private variables, one constraint per
/// doubling.
fn example_circuit_assignment() -> Assignment {
    let one = Fr::one();
    let two = one + one;
    let mut private: Vec<(u64, FieldValue)> = Vec::new();
    let mut constraints = Vec::new();
    let mut accumulator = two;
    let mut candidate = one;
    private.push((0, fv(accumulator)));
    let mut next_index: u64 = 1;
    for _ in 0..64 {
        candidate = candidate + accumulator;
        let multiplier_index = next_index;
        private.push((multiplier_index, fv(two)));
        let product = accumulator * two;
        let product_index = next_index + 1;
        private.push((product_index, fv(product)));
        constraints.push((
            single_term_lc(SourceVariable::Private(multiplier_index - 1, fv(accumulator))),
            single_term_lc(SourceVariable::Private(multiplier_index, fv(two))),
            single_term_lc(SourceVariable::Private(product_index, fv(product))),
        ));
        accumulator = product;
        next_index += 2;
    }
    assert_eq!(fv(accumulator - one), fv(candidate));
    Assignment::from(SourceR1cs {
        public: vec![(0, fv(one)), (1, fv(one))],
        private,
        constraints,
        tables: vec![],
        lookup_constraints: vec![],
    })
}

#[test]
fn test_constraint_converter() {
    let assignment = example_circuit_assignment();
    assert_eq!(assignment.num_public(), 2);
    assert_eq!(assignment.num_private(), 129);
    assert_eq!(assignment.num_constraints(), 64);

    let mut cs = TargetSystem::new();
    assignment.generate_constraints(&mut cs).unwrap();
    assert_eq!(assignment.num_public() + 1, cs.num_public_variables() as u64);
    assert_eq!(assignment.num_private(), cs.num_private_variables() as u64);
    assert_eq!(assignment.num_constraints(), cs.num_constraints());
    assert!(cs.is_satisfied());
}

#[test]
fn test_index_alignment_in_target() {
    let assignment = example_circuit_assignment();
    let mut cs = TargetSystem::new();
    assignment.generate_constraints(&mut cs).unwrap();
    // Slot 0 is the constant one; public input i sits at slot i + 1.
    assert_eq!(cs.public[0], fv_u64(1));
    assert_eq!(cs.public[1], fv_u64(1));
    assert_eq!(cs.public[2], fv_u64(1));
    // Private input i sits at slot i with no offset.
    assert_eq!(cs.private[0], fv_u64(2));
    assert_eq!(cs.private[1], fv_u64(2));
    assert_eq!(cs.private[2], fv_u64(4));
    // A converted single-term private combination names slot i directly.
    assert_eq!(cs.constraints[0].0.terms[0].0, TargetVariable::Private(0));
    assert_eq!(cs.constraints[0].1.terms[0].0, TargetVariable::Private(1));
}

/// The end-to-end circuit: public `x = 1`, private `a`, and the constraint
/// `a * 1 = 2`, which only `a = 2` satisfies.
fn end_to_end_circuit(a: u64) -> SourceR1cs {
    SourceR1cs {
        public: vec![(0, fv_u64(1))],
        private: vec![(0, fv_u64(a))],
        constraints: vec![(
            single_term_lc(SourceVariable::Private(0, fv_u64(a))),
            constant_lc(fv_u64(1)),
            constant_lc(fv_u64(2)),
        )],
        tables: vec![],
        lookup_constraints: vec![],
    }
}

#[test]
fn test_end_to_end_satisfied() {
    let assignment = Assignment::from(end_to_end_circuit(2));
    assert_eq!(assignment.num_public(), 1);
    assert_eq!(assignment.num_private(), 1);
    assert_eq!(assignment.num_constraints(), 1);
    let mut cs = TargetSystem::new();
    assignment.generate_constraints(&mut cs).unwrap();
    assert!(cs.is_satisfied());
}

#[test]
fn test_end_to_end_violated_value_still_synthesizes() {
    // Override the private value so the constraint no longer holds; the
    // synthesis is structural and must still succeed, while the resulting
    // system reports unsatisfied.
    let base = Arc::new(Assignment::from(end_to_end_circuit(2)));
    let violated = SameCircuitAssignment::create_with_base(
        base,
        Assignment::from(end_to_end_circuit(3)),
    );
    let mut cs = TargetSystem::new();
    violated.generate_constraints(&mut cs).unwrap();
    assert!(!cs.is_satisfied());
}

#[test]
fn test_multiplication_constraint_uses_field_arithmetic() {
    // 2 * 3 = 6 over two private variables; a wrong product must show up.
    let circuit = |c: u64| SourceR1cs {
        public: vec![(0, fv_u64(1))],
        private: vec![(0, fv_u64(2)), (1, fv_u64(3))],
        constraints: vec![(
            single_term_lc(SourceVariable::Private(0, fv_u64(2))),
            single_term_lc(SourceVariable::Private(1, fv_u64(3))),
            constant_lc(fv_u64(c)),
        )],
        tables: vec![],
        lookup_constraints: vec![],
    };
    let mut cs = TargetSystem::new();
    Assignment::from(circuit(6)).generate_constraints(&mut cs).unwrap();
    assert!(cs.is_satisfied());
    let mut cs_bad = TargetSystem::new();
    Assignment::from(circuit(7)).generate_constraints(&mut cs_bad).unwrap();
    assert!(!cs_bad.is_satisfied());
}

#[test]
fn test_idempotent_synthesis() {
    let assignment = example_circuit_assignment();
    let mut cs1 = TargetSystem::new();
    let mut cs2 = TargetSystem::new();
    assignment.generate_constraints(&mut cs1).unwrap();
    assignment.generate_constraints(&mut cs2).unwrap();
    assert_eq!(cs1.num_public_variables(), cs2.num_public_variables());
    assert_eq!(cs1.num_private_variables(), cs2.num_private_variables());
    assert_eq!(cs1.num_constraints(), cs2.num_constraints());
    assert_eq!(cs1.is_satisfied(), cs2.is_satisfied());
}

/// A circuit with one lookup table of three rows and one lookup constraint.
fn lookup_circuit(table_index: usize, a: u64) -> SourceR1cs {
    let rows = vec![
        (fv_u64(1), fv_u64(1), fv_u64(1)),
        (fv_u64(2), fv_u64(4), fv_u64(8)),
        (fv_u64(3), fv_u64(9), fv_u64(27)),
    ];
    SourceR1cs {
        public: vec![(0, fv_u64(1))],
        private: vec![(0, fv_u64(a))],
        constraints: vec![],
        tables: vec![LookupTable { rows }],
        lookup_constraints: vec![(
            single_term_lc(SourceVariable::Private(0, fv_u64(a))),
            constant_lc(fv_u64(4)),
            constant_lc(fv_u64(8)),
            table_index,
        )],
    }
}

#[test]
fn test_lookup_path() {
    let assignment = Assignment::from(lookup_circuit(0, 2));
    assert_eq!(assignment.num_lookup_tables(), 1);
    assert_eq!(assignment.num_lookup_constraints(), 1);
    let mut cs = TargetSystem::new();
    assignment.generate_constraints(&mut cs).unwrap();
    assert_eq!(cs.num_lookup_tables(), 1);
    assert_eq!(cs.num_lookup_constraints(), 1);
    assert_eq!(cs.num_constraints(), 1);
    // The row (2, 4, 8) is present, so the lookup is satisfied.
    assert!(cs.is_satisfied());
    // A triple absent from the table is unsatisfied.
    let mut cs_bad = TargetSystem::new();
    Assignment::from(lookup_circuit(0, 5)).generate_constraints(&mut cs_bad).unwrap();
    assert!(!cs_bad.is_satisfied());
}

#[test]
fn test_lookup_out_of_range_table_propagates_error() {
    let assignment = Assignment::from(lookup_circuit(1, 2));
    let mut cs = TargetSystem::new();
    let outcome = assignment.generate_constraints(&mut cs);
    assert_eq!(outcome, Err(SynthesisError::MissingLookupTable));
}

#[test]
fn test_addition_in_linear_combination() {
    // (a + b) * 1 = 5 over a = 2, b = 3; the sum must be computed, not
    // one term passed through.
    let circuit = |c: u64| SourceR1cs {
        public: vec![(0, fv_u64(1))],
        private: vec![(0, fv_u64(2)), (1, fv_u64(3))],
        constraints: vec![(
            SourceLinearCombination {
                constant: fv(Fr::zero()),
                terms: vec![
                    (SourceVariable::Private(0, fv_u64(2)), fv(Fr::one())),
                    (SourceVariable::Private(1, fv_u64(3)), fv(Fr::one())),
                ],
            },
            constant_lc(fv_u64(1)),
            constant_lc(fv_u64(c)),
        )],
        tables: vec![],
        lookup_constraints: vec![],
    };
    let mut cs = TargetSystem::new();
    Assignment::from(circuit(5)).generate_constraints(&mut cs).unwrap();
    assert!(cs.is_satisfied());
    let mut cs_bad = TargetSystem::new();
    Assignment::from(circuit(2)).generate_constraints(&mut cs_bad).unwrap();
    assert!(!cs_bad.is_satisfied());
}
