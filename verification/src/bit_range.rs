//! Bit ranges of a byte.
//!
//! The fields of an adapter's port byte are read and written with the `bitfield` crate's
//! `BitRange` and `BitRangeMut` impls for `u8`. This module states what those two calls do to
//! a byte and proves the few facts about them that the encoders need.

use vstd::prelude::*;

verus! {

/// The byte whose bits `lsb..=msb` are set and whose other bits are clear.
pub open spec fn field_mask(msb: u8, lsb: u8) -> u8 {
    (0xffu8 >> ((7 - msb + lsb) as u8)) << lsb
}

/// The bits `lsb..=msb` of `bits`, moved down to bit 0.
pub open spec fn field_of(bits: u8, msb: u8, lsb: u8) -> u8 {
    (bits >> lsb) & (0xffu8 >> ((7 - msb + lsb) as u8))
}

/// `bits` with its bits `lsb..=msb` replaced by the low bits of `value`.
pub open spec fn with_field(bits: u8, msb: u8, lsb: u8, value: u8) -> u8 {
    (bits & !field_mask(msb, lsb)) | ((value << lsb) & field_mask(msb, lsb))
}

/// Calls `bitfield::BitRange::<u8>::bit_range` on a `u8`.
///
/// Trusted: for `lsb <= msb < 8` the crate shifts the byte left by `7 - msb` and right by
/// `7 - msb + lsb`, which leaves the bits `lsb..=msb` at bit 0 and nothing above them. Outside
/// that range the crate's shifts overflow, so those inputs are excluded.
#[verifier::external_body]
pub(crate) fn bit_range(bits: u8, msb: usize, lsb: usize) -> (value: u8)
    requires
        lsb <= msb < 8,
    ensures
        value == field_of(bits, msb as u8, lsb as u8),
{
    bitfield::BitRange::<u8>::bit_range(&bits, msb, lsb)
}

/// Calls `bitfield::BitRangeMut::<u8>::set_bit_range` on a `u8`.
///
/// Trusted: for `lsb <= msb < 8` the crate builds the mask of the bits `lsb..=msb`, clears
/// those bits of the byte and ors in `value << lsb` cut to the mask; bits of `value` that do
/// not fit the range are dropped. Outside that range the crate's shifts overflow, so those
/// inputs are excluded.
#[verifier::external_body]
pub(crate) fn set_bit_range(bits: &mut u8, msb: usize, lsb: usize, value: u8)
    requires
        lsb <= msb < 8,
    ensures
        *final(bits) == with_field(*old(bits), msb as u8, lsb as u8, value),
{
    bitfield::BitRangeMut::<u8>::set_bit_range(bits, msb, lsb, value)
}

} // verus!
