//! Per-sample dosage extraction.
//!
//! The container stores, for each sample and marker, a 32-bit IEEE 754
//! probability value; this library handles it as its raw bit pattern.  A
//! non-finite value marks a missing dosage.  A finite value is halved --
//! the stored plane holds twice the estimated alternate-allele dosage --
//! and halving a 32-bit IEEE 754 value is exact integer work on its bits:
//! a normal value with exponent field at least 2 keeps its significand and
//! drops the exponent by one; any smaller magnitude shifts the significand
//! right by one, rounding a tie to even.

use vstd::prelude::*;

verus! {

/// A 32-bit IEEE 754 bit pattern is finite when its exponent field is not
/// all ones.
pub open spec fn is_finite_bits(b: u32) -> bool {
    (b >> 23) & 0xFF != 0xFF
}

/// Round-to-nearest-even halving of a magnitude expressed in units of the
/// smallest subnormal: drop the lowest bit, adding one back when that bit
/// was set and the remaining value is odd.
pub open spec fn round_half_even(t: u32) -> u32 {
    (((t >> 1) + ((t >> 1) & t & 1)) as u32)
}

/// The bit pattern of half the 32-bit IEEE 754 value with bit pattern `b`,
/// for finite `b`: exponents of at least 2 drop by one; values at or below
/// the smallest normal binade halve their significand with a tie rounded
/// to even.
pub open spec fn half_bits_spec(b: u32) -> u32 {
    if (b >> 23) & 0xFF >= 2 {
        ((b - 0x0080_0000) as u32)
    } else {
        (b & 0x8000_0000) | round_half_even(b & 0x7FFF_FFFF)
    }
}

/// A dosage cell: either missing (the stored value was not finite) or the
/// bit pattern of the halved stored value.
#[derive(Clone, Copy, PartialEq, Eq, Structural, Debug)]
pub enum Dosage {
    Missing,
    Halved(u32),
}

/// The dosage cell that one stored bit pattern yields.
pub open spec fn dosage_spec(b: u32) -> Dosage {
    if is_finite_bits(b) {
        Dosage::Halved(half_bits_spec(b))
    } else {
        Dosage::Missing
    }
}

/// Whether the exponent field of `b` is not all ones, that is, whether the
/// stored 32-bit value is finite.
pub fn finite_bits(b: u32) -> (r: bool)
    ensures
        r == is_finite_bits(b),
{
    ((b >> 23) & 0xFF) != 0xFF
}

/// Compute the bit pattern of half the finite 32-bit value `b`.
pub fn half_bits(b: u32) -> (r: u32)
    ensures
        r == half_bits_spec(b),
{
    let e = (b >> 23) & 0xFF;
    if e >= 2 {
        assert(b >= 0x0080_0000) by (bit_vector)
            requires
                (b >> 23) & 0xFF >= 2,
        ;
        b - 0x0080_0000
    } else {
        let t = b & 0x7FFF_FFFF;
        let q = t >> 1;
        assert(q + (q & t & 1) <= 0x4000_0000) by (bit_vector)
            requires
                t == b & 0x7FFF_FFFF && q == t >> 1,
        ;
        (b & 0x8000_0000) | (q + (q & t & 1))
    }
}

/// Half a finite value is finite.
pub proof fn lemma_half_finite(b: u32)
    requires
        is_finite_bits(b),
    ensures
        is_finite_bits(half_bits_spec(b)),
{
    assert(is_finite_bits(b) ==> is_finite_bits(half_bits_spec(b))) by (bit_vector);
}

/// Classify one stored bit pattern as a dosage cell.
pub fn dosage_of_bits(b: u32) -> (d: Dosage)
    ensures
        d == dosage_spec(b),
        d is Missing <==> !is_finite_bits(b),
{
    if finite_bits(b) {
        Dosage::Halved(half_bits(b))
    } else {
        Dosage::Missing
    }
}

} // verus!
