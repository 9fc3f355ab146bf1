use std::sync::Arc;

use r1cs_assignment::assignment::{Assignment, SourceR1cs};
use r1cs_assignment::field::FieldValue;
use r1cs_assignment::linear_combination::{AssignmentLC, SourceLinearCombination};
use r1cs_assignment::same_circuit::SameCircuitAssignment;
use r1cs_assignment::variable::SourceVariable;

use snarkvm_curves::bls12_377::Fr;
use snarkvm_fields::{One, PrimeField, Zero};

fn fv(x: Fr) -> FieldValue {
    let limbs = x.to_bigint().0;
    FieldValue { limb0: limbs[0], limb1: limbs[1], limb2: limbs[2], limb3: limbs[3] }
}

fn fv_u64(x: u64) -> FieldValue {
    fv(Fr::from_bigint(snarkvm_utilities::biginteger::BigInteger256::from(x)).unwrap())
}

fn single_term_lc(var: SourceVariable) -> SourceLinearCombination {
    SourceLinearCombination { constant: fv(Fr::zero()), terms: vec![(var, fv(Fr::one()))] }
}

fn constant_lc(c: FieldValue) -> SourceLinearCombination {
    SourceLinearCombination { constant: c, terms: vec![] }
}

/// A circuit with one public input `x = 1`, one private `a`, and the single
/// constraint `a * 1 = 2`.
fn small_circuit(a: u64) -> SourceR1cs {
    SourceR1cs {
        public: vec![(0, fv_u64(1))],
        private: vec![(0, fv_u64(a))],
        constraints: vec![(
            single_term_lc(SourceVariable::Private(0, fv_u64(a))),
            constant_lc(fv_u64(1)),
            constant_lc(fv_u64(2)),
        )],
        tables: vec![],
        lookup_constraints: vec![],
    }
}

#[test]
fn test_from_captures_counts() {
    let assignment = Assignment::from(small_circuit(2));
    assert_eq!(assignment.num_public(), 1);
    assert_eq!(assignment.num_private(), 1);
    assert_eq!(assignment.num_constraints(), 1);
    assert_eq!(assignment.num_lookup_tables(), 0);
    assert_eq!(assignment.num_lookup_constraints(), 0);
}

#[test]
fn test_input_maps_keep_insertion_order() {
    let r1cs = SourceR1cs {
        public: vec![(0, fv_u64(7)), (1, fv_u64(9))],
        private: vec![(0, fv_u64(3))],
        constraints: vec![],
        tables: vec![],
        lookup_constraints: vec![],
    };
    let assignment = Assignment::from(r1cs);
    let public = assignment.public_inputs();
    assert_eq!(public.len(), 2);
    assert_eq!(public.get_index(0), Some((&0u64, &fv_u64(7))));
    assert_eq!(public.get_index(1), Some((&1u64, &fv_u64(9))));
    assert_eq!(public.get(&1u64), Some(&fv_u64(9)));
    let private = assignment.private_inputs();
    assert_eq!(private.get_index(0), Some((&0u64, &fv_u64(3))));
}

#[test]
fn test_lc_nonzeros_with_nonzero_constant() {
    let lc = AssignmentLC::from(&SourceLinearCombination {
        constant: fv_u64(5),
        terms: vec![
            (SourceVariable::Public(0, fv_u64(1)), fv_u64(2)),
            (SourceVariable::Private(0, fv_u64(4)), fv_u64(3)),
        ],
    });
    assert_eq!(lc.num_nonzeros(), 3);
    assert_eq!(lc.constant(), fv_u64(5));
    assert_eq!(lc.terms().len(), 2);
}

#[test]
fn test_lc_nonzeros_with_zero_constant() {
    let lc = AssignmentLC::from(&SourceLinearCombination {
        constant: fv(Fr::zero()),
        terms: vec![
            (SourceVariable::Public(0, fv_u64(1)), fv_u64(2)),
            (SourceVariable::Private(0, fv_u64(4)), fv_u64(3)),
        ],
    });
    assert_eq!(lc.num_nonzeros(), 2);
}

#[test]
fn test_assignment_nonzeros_totals() {
    // Two constraints: sides with (1 term + nonzero constant, 1 term, empty
    // with nonzero constant) and (2 terms, constant-only, 1 term).
    let r1cs = SourceR1cs {
        public: vec![(0, fv_u64(1))],
        private: vec![(0, fv_u64(2)), (1, fv_u64(3))],
        constraints: vec![
            (
                SourceLinearCombination {
                    constant: fv_u64(4),
                    terms: vec![(SourceVariable::Private(0, fv_u64(2)), fv_u64(1))],
                },
                single_term_lc(SourceVariable::Private(1, fv_u64(3))),
                constant_lc(fv_u64(6)),
            ),
            (
                SourceLinearCombination {
                    constant: fv(Fr::zero()),
                    terms: vec![
                        (SourceVariable::Private(0, fv_u64(2)), fv_u64(1)),
                        (SourceVariable::Private(1, fv_u64(3)), fv_u64(1)),
                    ],
                },
                constant_lc(fv_u64(1)),
                single_term_lc(SourceVariable::Public(0, fv_u64(1))),
            ),
        ],
        tables: vec![],
        lookup_constraints: vec![],
    };
    let assignment = Assignment::from(r1cs);
    // a-sides: (1 + 1) + 2 = 4; b-sides: 1 + 1 = 2; c-sides: 1 + 1 = 2.
    assert_eq!(assignment.num_nonzeros(), (4, 2, 2));
}

#[test]
fn test_structural_sharing_reports_override_values() {
    let base = Arc::new(Assignment::from(small_circuit(2)));
    let another = Assignment::from(small_circuit(5));
    let shared = SameCircuitAssignment::create_with_base(base.clone(), another);
    // Values come from the override.
    assert_eq!(shared.num_public(), 1);
    assert_eq!(shared.num_private(), 1);
    assert_eq!(shared.private_inputs().get(&0u64), Some(&fv_u64(5)));
    assert_eq!(shared.public_inputs().get(&0u64), Some(&fv_u64(1)));
    // Structure comes from the base, unchanged.
    assert_eq!(shared.base.constraints().len(), 1);
    assert_eq!(shared.base.constraints()[0].0.constant(), fv(Fr::zero()));
    assert_eq!(base.private_inputs().get(&0u64), Some(&fv_u64(2)));
}

#[test]
fn test_single_one_reports_base_values() {
    let shared = SameCircuitAssignment::single_one(Assignment::from(small_circuit(2)));
    assert_eq!(shared.num_public(), 1);
    assert_eq!(shared.num_private(), 1);
    assert_eq!(shared.private_inputs().get(&0u64), Some(&fv_u64(2)));
}
