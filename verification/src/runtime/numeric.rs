use vstd::prelude::*;

verus! {

/// The arithmetic of numbers, which the embedding program supplies.
///
/// A number is an IEEE 754 double. This crate holds it as its 64 bits and
/// computes with integers only: it tells numbers apart, negates them and
/// compares them for equality by their bits, and asks its host for whatever
/// takes floating-point arithmetic.
pub trait Numeric {
    /// The double nearest to `numeral`: digits, optionally a dot and more
    /// digits.
    fn parse(&self, numeral: &String) -> u64;

    /// `a + b`.
    fn sum(&self, a: u64, b: u64) -> u64;

    /// `a - b`.
    fn difference(&self, a: u64, b: u64) -> u64;

    /// `a * b`.
    fn product(&self, a: u64, b: u64) -> u64;

    /// `a / b`.
    fn quotient(&self, a: u64, b: u64) -> u64;

    /// The number in decimal notation.
    fn format(&self, number: u64) -> String;
}

/// The bits of a double without its sign.
pub open spec fn magnitude(bits: u64) -> u64 {
    bits & 0x7fff_ffff_ffff_ffff
}

/// Whether the bits are those of a NaN: the exponent is all ones and the
/// fraction is not zero.
pub open spec fn is_nan(bits: u64) -> bool {
    magnitude(bits) > 0x7ff0_0000_0000_0000
}

/// Whether the bits are those of zero, of either sign.
pub open spec fn is_zero(bits: u64) -> bool {
    magnitude(bits) == 0
}

/// Whether two doubles are equal as IEEE 754 has it: a NaN equals nothing,
/// the two zeros equal each other, and any other two doubles are equal
/// where their bits are.
pub open spec fn same_number(a: u64, b: u64) -> bool {
    !is_nan(a) && !is_nan(b) && (a == b || (is_zero(a) && is_zero(b)))
}

/// The double with the opposite sign.
pub open spec fn negated(bits: u64) -> u64 {
    bits ^ 0x8000_0000_0000_0000
}

pub fn numbers_equal(a: u64, b: u64) -> (equal: bool)
    ensures
        equal == same_number(a, b),
{
    let a_magnitude: u64 = a & 0x7fff_ffff_ffff_ffff;
    let b_magnitude: u64 = b & 0x7fff_ffff_ffff_ffff;
    a_magnitude <= 0x7ff0_0000_0000_0000 && b_magnitude <= 0x7ff0_0000_0000_0000 && (a == b || (
    a_magnitude == 0 && b_magnitude == 0))
}

pub fn negate(bits: u64) -> (opposite: u64)
    ensures
        opposite == negated(bits),
{
    bits ^ 0x8000_0000_0000_0000
}

/// Negating twice gives the number back, and negating changes nothing but
/// the sign.
pub proof fn negation_flips_the_sign(bits: u64)
    ensures
        negated(negated(bits)) == bits,
        magnitude(negated(bits)) == magnitude(bits),
        negated(bits) != bits,
{
    assert((bits ^ 0x8000_0000_0000_0000) ^ 0x8000_0000_0000_0000 == bits) by (bit_vector);
    assert((bits ^ 0x8000_0000_0000_0000) & 0x7fff_ffff_ffff_ffff == bits & 0x7fff_ffff_ffff_ffff)
        by (bit_vector);
    assert(bits ^ 0x8000_0000_0000_0000 != bits) by (bit_vector);
}

} // verus!
