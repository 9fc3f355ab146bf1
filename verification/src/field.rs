//! Scalar-field values, held as canonical (non-Montgomery) little-endian
//! 64-bit limbs of the bls12-377 scalar field.
//!
//! The assignment logic itself only ever compares field values and tests them
//! for zero, which both read the limbs directly. Addition and multiplication
//! are needed solely to evaluate a synthesized system for satisfaction; they
//! are delegated to the outside field crate behind trusted wrappers.

use vstd::prelude::*;

use snarkvm_fields::PrimeField;
use snarkvm_curves::bls12_377::Fr;
use snarkvm_utilities::biginteger::BigInteger256;

verus! {

/// Limb 0 (least significant) of the bls12-377 scalar-field modulus.
pub const FR_MODULUS_LIMB_0: u64 = 725501752471715841;

/// Limb 1 of the bls12-377 scalar-field modulus.
pub const FR_MODULUS_LIMB_1: u64 = 6461107452199829505;

/// Limb 2 of the bls12-377 scalar-field modulus.
pub const FR_MODULUS_LIMB_2: u64 = 6968279316240510977;

/// Limb 3 (most significant) of the bls12-377 scalar-field modulus.
pub const FR_MODULUS_LIMB_3: u64 = 1345280370688173398;

/// A scalar-field value in canonical form: the little-endian limbs of its
/// representative in `0 .. modulus`.
#[derive(Clone, Copy, Debug, PartialEq, Eq, Hash, Structural)]
pub struct FieldValue {
    pub limb0: u64,
    pub limb1: u64,
    pub limb2: u64,
    pub limb3: u64,
}

impl View for FieldValue {
    type V = Seq<u64>;

    open spec fn view(&self) -> Seq<u64> {
        seq![self.limb0, self.limb1, self.limb2, self.limb3]
    }
}

impl FieldValue {
    /// A value is well formed when its limbs encode a canonical
    /// representative, i.e. lie strictly below the field modulus.
    pub open spec fn wf(self) -> bool {
        ||| self.limb3 < FR_MODULUS_LIMB_3
        ||| (self.limb3 == FR_MODULUS_LIMB_3 && (self.limb2 < FR_MODULUS_LIMB_2 || (
        self.limb2 == FR_MODULUS_LIMB_2 && (self.limb1 < FR_MODULUS_LIMB_1 || (self.limb1
            == FR_MODULUS_LIMB_1 && self.limb0 < FR_MODULUS_LIMB_0)))))
    }

    /// The zero of the field, in canonical form.
    pub open spec fn spec_zero() -> FieldValue {
        FieldValue { limb0: 0, limb1: 0, limb2: 0, limb3: 0 }
    }

    /// The one of the field, in canonical form.
    pub open spec fn spec_one() -> FieldValue {
        FieldValue { limb0: 1, limb1: 0, limb2: 0, limb3: 0 }
    }

    /// Returns the zero of the field.
    pub fn zero() -> (r: FieldValue)
        ensures
            r == FieldValue::spec_zero(),
            r.wf(),
    {
        FieldValue { limb0: 0, limb1: 0, limb2: 0, limb3: 0 }
    }

    /// Returns the one of the field.
    pub fn one() -> (r: FieldValue)
        ensures
            r == FieldValue::spec_one(),
            r.wf(),
    {
        FieldValue { limb0: 1, limb1: 0, limb2: 0, limb3: 0 }
    }

    /// A canonical value is zero exactly when every limb is zero.
    pub open spec fn spec_is_zero(self) -> bool {
        self == FieldValue::spec_zero()
    }

    /// Returns `true` iff this value is the zero of the field.
    pub fn is_zero(&self) -> (r: bool)
        ensures
            r == self.spec_is_zero(),
    {
        self.limb0 == 0 && self.limb1 == 0 && self.limb2 == 0 && self.limb3 == 0
    }
}

/// The value whose limbs are the first four elements of a limb sequence.
pub open spec fn value_of_limbs(s: Seq<u64>) -> FieldValue {
    FieldValue { limb0: s[0], limb1: s[1], limb2: s[2], limb3: s[3] }
}

/// A count clipped to `u64`, the saturation the count queries use.
pub open spec fn saturate_u64(n: nat) -> u64 {
    if n > u64::MAX {
        u64::MAX
    } else {
        n as u64
    }
}

/// The sum, in canonical limbs, of two field values given by canonical limbs.
pub uninterp spec fn spec_field_add(a: Seq<u64>, b: Seq<u64>) -> Seq<u64>;

/// The product, in canonical limbs, of two field values given by canonical
/// limbs.
pub uninterp spec fn spec_field_mul(a: Seq<u64>, b: Seq<u64>) -> Seq<u64>;

/// Relies on bls12-377 scalar-field addition of the outside field crate
/// (`Fp256` addition over `FrParameters`): the canonical sum depends on the
/// canonical operands alone, and is itself canonical.
#[verifier::external_body]
pub(crate) fn field_add(a: &FieldValue, b: &FieldValue) -> (r: FieldValue)
    requires
        a.wf(),
        b.wf(),
    ensures
        r@ == spec_field_add(a@, b@),
        r.wf(),
{
    let x = Fr::from_bigint(BigInteger256([a.limb0, a.limb1, a.limb2, a.limb3])).unwrap();
    let y = Fr::from_bigint(BigInteger256([b.limb0, b.limb1, b.limb2, b.limb3])).unwrap();
    let s = (x + y).to_bigint().0;
    FieldValue { limb0: s[0], limb1: s[1], limb2: s[2], limb3: s[3] }
}

/// Relies on bls12-377 scalar-field multiplication of the outside field crate
/// (`Fp256` multiplication over `FrParameters`): the canonical product depends
/// on the canonical operands alone, and is itself canonical.
#[verifier::external_body]
pub(crate) fn field_mul(a: &FieldValue, b: &FieldValue) -> (r: FieldValue)
    requires
        a.wf(),
        b.wf(),
    ensures
        r@ == spec_field_mul(a@, b@),
        r.wf(),
{
    let x = Fr::from_bigint(BigInteger256([a.limb0, a.limb1, a.limb2, a.limb3])).unwrap();
    let y = Fr::from_bigint(BigInteger256([b.limb0, b.limb1, b.limb2, b.limb3])).unwrap();
    let p = (x * y).to_bigint().0;
    FieldValue { limb0: p[0], limb1: p[1], limb2: p[2], limb3: p[3] }
}

} // verus!
