//! Register words: how the bytes that a sensor puts in its output registers
//! are read as signed numbers, and how one field of a control register is
//! replaced while the rest of the byte is kept.

use vstd::prelude::*;

verus! {

/// The number that a 16-bit pattern stands for in two's complement.
pub open spec fn signed16(pattern: int) -> int {
    if pattern >= 0x8000 {
        pattern - 0x1_0000
    } else {
        pattern
    }
}

/// The number that an 8-bit pattern stands for in two's complement.
pub open spec fn signed8(pattern: int) -> int {
    if pattern >= 0x80 {
        pattern - 0x100
    } else {
        pattern
    }
}

/// The signed word whose low byte is `lo` and whose high byte is `hi`.
pub open spec fn word(lo: u8, hi: u8) -> int {
    signed16(lo + 0x100 * hi)
}

/// A word with its four least significant bits dropped, sign kept: the
/// twelve significant bits of a sample that the device left-justifies in
/// sixteen.
pub open spec fn upper12(value: int) -> int {
    value / 16
}

/// `current` with the bits under `field` replaced by `bits`.
pub open spec fn with_field(current: u8, field: u8, bits: u8) -> u8 {
    (current & !field) | bits
}

/// Reads two bytes as a signed word, low byte first.
pub fn i16_from_le(lo: u8, hi: u8) -> (value: i16)
    ensures
        value == word(lo, hi),
{
    let pattern: u16 = (hi as u16) * 0x100 + (lo as u16);
    if pattern >= 0x8000 {
        (pattern as i32 - 0x1_0000) as i16
    } else {
        pattern as i16
    }
}

/// Reads two bytes as a signed word, high byte first.
pub fn i16_from_be(hi: u8, lo: u8) -> (value: i16)
    ensures
        value == word(lo, hi),
{
    i16_from_le(lo, hi)
}

/// Reads one byte as a signed number.
pub fn i8_from_byte(byte: u8) -> (value: i8)
    ensures
        value == signed8(byte as int),
{
    if byte >= 0x80 {
        (byte as i16 - 0x100) as i8
    } else {
        byte as i8
    }
}

/// Drops the four insignificant low bits of a left-justified 12-bit sample
/// with an arithmetic shift, so that the sign survives.
pub fn sample12(value: i16) -> (sample: i16)
    ensures
        sample == upper12(value as int),
        -2048 <= sample <= 2047,
{
    let sample: i16 = value >> 4;
    assert(value >> 4 == value / 16 && -2048 <= value >> 4 <= 2047) by (bit_vector);
    sample
}

/// Replaces the bits of `current` that lie under `field` by `bits`.
pub fn replace_field(current: u8, field: u8, bits: u8) -> (updated: u8)
    ensures
        updated == with_field(current, field, bits),
{
    (current & !field) | bits
}

/// A field update touches the field and nothing else: where `bits` lies
/// inside `field`, the updated byte shows `bits` under the field and the old
/// byte everywhere outside it.
pub proof fn lemma_field_replaced(current: u8, field: u8, bits: u8)
    requires
        bits & !field == 0,
    ensures
        with_field(current, field, bits) & field == bits,
        with_field(current, field, bits) & !field == current & !field,
{
    assert(((current & !field) | bits) & field == bits) by (bit_vector)
        requires
            bits & !field == 0,
    ;
    assert(((current & !field) | bits) & !field == current & !field) by (bit_vector)
        requires
            bits & !field == 0,
    ;
}

/// Of two updates of the same field the later one wins: the byte is what
/// the later update alone would have made of the first byte.
pub proof fn law_last_write_wins(current: u8, field: u8, first: u8, second: u8)
    requires
        first & !field == 0,
    ensures
        with_field(with_field(current, field, first), field, second) == with_field(
            current,
            field,
            second,
        ),
{
    assert((((current & !field) | first) & !field) | second == (current & !field) | second)
        by (bit_vector)
        requires
            first & !field == 0,
    ;
}

} // verus!
