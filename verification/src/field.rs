//! The prime-field element type and its canonical-representative model.

use p3_field::PrimeField64;
use vstd::prelude::*;

verus! {

/// The prime modulus of the field: `2^64 - 2^32 + 1`.
pub const MODULUS: u64 = 0xffff_ffff_0000_0001;

/// An element of the prime field, held as its canonical unsigned integer
/// representative in `[0, MODULUS)`.
///
/// Equality of two canonical elements is exact field equality; ordering and
/// parity of an element are defined over this representative.
#[derive(Clone, Copy, PartialEq, Eq, Structural, Debug)]
pub struct Felt {
    pub value: u64,
}

/// The additive identity, doubling as the boolean `false` on the stack.
pub open spec fn felt_zero() -> Felt {
    Felt { value: 0 }
}

/// The multiplicative identity, doubling as the boolean `true` on the stack.
pub open spec fn felt_one() -> Felt {
    Felt { value: 1 }
}

/// The canonical field element of an arbitrary unsigned 64-bit integer.
pub open spec fn felt_of(v: u64) -> Felt {
    Felt { value: (v % MODULUS) as u64 }
}

/// The boolean encoding used by every comparison opcode: one for true,
/// zero for false.
pub open spec fn felt_bool(b: bool) -> Felt {
    if b {
        felt_one()
    } else {
        felt_zero()
    }
}

/// Relies on `p3_goldilocks::Goldilocks::new`, which stores any `u64` without
/// reducing it, and on `PrimeField64::as_canonical_u64` for that type, which
/// returns the canonical representative in `[0, MODULUS)` of the element's
/// residue class by one conditional subtraction of the modulus
/// `2^64 - 2^32 + 1`.
#[verifier::external_body]
fn reduce_mod_p(v: u64) -> (r: u64)
    ensures
        r == v % MODULUS,
{
    p3_goldilocks::Goldilocks::new(v).as_canonical_u64()
}

impl Felt {
    /// A field element is well-formed when it holds the canonical
    /// representative of its residue class.
    pub open spec fn inv(self) -> bool {
        self.value < MODULUS
    }

    /// The additive identity.
    pub fn zero() -> (r: Felt)
        ensures
            r == felt_zero(),
            r.inv(),
    {
        Felt { value: 0 }
    }

    /// The multiplicative identity.
    pub fn one() -> (r: Felt)
        ensures
            r == felt_one(),
            r.inv(),
    {
        Felt { value: 1 }
    }

    /// Builds the field element of an arbitrary `u64`, reducing it modulo the
    /// field prime.
    pub fn from_u64(v: u64) -> (r: Felt)
        ensures
            r == felt_of(v),
            r.inv(),
    {
        Felt { value: reduce_mod_p(v) }
    }

    /// The canonical unsigned integer representative of this element.
    pub fn as_int(&self) -> (r: u64)
        ensures
            r == self.value,
    {
        self.value
    }
}

/// Turns a computed predicate into the stack's boolean encoding.
pub fn bool_to_felt(b: bool) -> (r: Felt)
    ensures
        r == felt_bool(b),
        r.inv(),
{
    if b {
        Felt::one()
    } else {
        Felt::zero()
    }
}

} // verus!
