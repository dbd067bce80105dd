use miden_program::field::MODULUS;
use miden_program::Felt;
use winter_math::fields::f64::BaseElement;

#[test]
fn from_u64_reduces_to_the_canonical_representative() {
    assert_eq!(Felt::from_u64(0).as_int(), 0);
    assert_eq!(Felt::from_u64(3).as_int(), 3);
    assert_eq!(Felt::from_u64(MODULUS - 1).as_int(), MODULUS - 1);
    assert_eq!(Felt::from_u64(MODULUS).as_int(), 0);
    assert_eq!(Felt::from_u64(MODULUS + 5).as_int(), 5);
    assert_eq!(Felt::from_u64(u64::MAX).as_int(), u64::MAX - MODULUS);
}

#[test]
fn reduction_matches_an_independent_field_implementation() {
    for v in [0u64, 1, 5, 12345, MODULUS - 1, MODULUS, MODULUS + 123, u64::MAX] {
        assert_eq!(Felt::from_u64(v).as_int(), BaseElement::new(v).as_int());
    }
}

#[test]
fn zero_and_one_are_the_boolean_constants() {
    assert_eq!(Felt::zero().as_int(), 0);
    assert_eq!(Felt::one().as_int(), 1);
    assert_ne!(Felt::zero(), Felt::one());
}

#[test]
fn equal_representatives_are_equal_elements() {
    assert_eq!(Felt::from_u64(MODULUS + 7), Felt::from_u64(7));
    assert_ne!(Felt::from_u64(8), Felt::from_u64(7));
}
