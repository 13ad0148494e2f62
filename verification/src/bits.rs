//! Bit access on bytes, done by the `bit_field` crate.

use bit_field::BitField;
use vstd::prelude::*;

verus! {

/// Whether bit `i` of `v` is set.
pub open spec fn bit(v: u8, i: usize) -> bool {
    v & (1u8 << i) != 0
}

/// Calls `BitField::get_bit` of the `bit_field` crate on a byte. Its source
/// computes `(v & (1 << bit)) != 0` after asserting that `bit` is below 8.
#[verifier::external_body]
pub(crate) fn get_bit(v: u8, bit: usize) -> (r: bool)
    requires
        bit < 8,
    ensures
        r == self::bit(v, bit),
{
    v.get_bit(bit)
}

/// Calls `BitField::set_bit` of the `bit_field` crate on a copy of a byte and
/// returns the copy. Its source ORs in `1 << bit` for `true` and ANDs with
/// the complement for `false`, after asserting that `bit` is below 8.
#[verifier::external_body]
pub(crate) fn set_bit(v: u8, bit: usize, value: bool) -> (r: u8)
    requires
        bit < 8,
    ensures
        r == (if value { v | (1u8 << bit) } else { v & !(1u8 << bit) }),
{
    let mut out = v;
    out.set_bit(bit, value);
    out
}

/// Calls `BitField::get_bits` of the `bit_field` crate with the range
/// `start..end`. Its source asserts the bounds below, gives 0 for an empty
/// range and otherwise shifts the high bits out and then the low bits.
#[verifier::external_body]
pub(crate) fn get_bits(v: u8, start: usize, end: usize) -> (r: u8)
    requires
        start < 8,
        end <= 8,
        start <= end,
    ensures
        r == (if start == end {
            0u8
        } else {
            ((v << ((8 - end) as usize)) >> ((8 - end) as usize)) >> start
        }),
{
    v.get_bits(start..end)
}

/// Calls `BitField::set_bits` of the `bit_field` crate on a copy of a byte
/// with the range `start..end` and returns the copy. Its source asserts the
/// bounds and that `value` fits in the range, then clears the range and ORs
/// in `value << start`.
#[verifier::external_body]
pub(crate) fn set_bits(v: u8, start: usize, end: usize, value: u8) -> (r: u8)
    requires
        start < 8,
        end <= 8,
        start < end,
        (value << ((8 - (end - start)) as usize)) >> ((8 - (end - start)) as usize) == value,
    ensures
        r == ((v & !((((0xffu8 << ((8 - end) as usize)) >> ((8 - end) as usize)) >> start)
            << start)) | (value << start)),
{
    let mut out = v;
    out.set_bits(start..end, value);
    out
}

} // verus!
