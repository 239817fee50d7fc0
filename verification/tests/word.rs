use stm32f411ve_disco::word::{i16_from_be, i16_from_le, i8_from_byte, replace_field, sample12};

#[test]
fn little_endian_words() {
    assert_eq!(i16_from_le(0x00, 0x00), 0);
    assert_eq!(i16_from_le(0x01, 0x00), 1);
    assert_eq!(i16_from_le(0x34, 0x12), 0x1234);
    assert_eq!(i16_from_le(0xFF, 0x7F), 32767);
    assert_eq!(i16_from_le(0x00, 0x80), -32768);
    assert_eq!(i16_from_le(0xFF, 0xFF), -1);
}

#[test]
fn big_endian_words() {
    assert_eq!(i16_from_be(0x12, 0x34), 0x1234);
    assert_eq!(i16_from_be(0x80, 0x00), -32768);
    assert_eq!(i16_from_be(0xFF, 0xFE), -2);
    assert_eq!(i16_from_be(0x00, 0xFF), 255);
}

#[test]
fn words_agree_with_the_standard_library() {
    for hi in 0..=255u8 {
        for lo in [0u8, 1, 0x7F, 0x80, 0xFE, 0xFF] {
            assert_eq!(i16_from_le(lo, hi), i16::from_le_bytes([lo, hi]));
            assert_eq!(i16_from_be(hi, lo), i16::from_be_bytes([hi, lo]));
        }
    }
}

#[test]
fn signed_bytes() {
    assert_eq!(i8_from_byte(0x00), 0);
    assert_eq!(i8_from_byte(0x19), 25);
    assert_eq!(i8_from_byte(0x7F), 127);
    assert_eq!(i8_from_byte(0x80), -128);
    assert_eq!(i8_from_byte(0xFF), -1);
}

#[test]
fn twelve_bit_samples_keep_their_sign() {
    assert_eq!(sample12(0x00F0), 15);
    assert_eq!(sample12(0x000F), 0);
    assert_eq!(sample12(0x7FFF), 2047);
    assert_eq!(sample12(-16), -1);
    assert_eq!(sample12(-1), -1);
    assert_eq!(sample12(-32768), -2048);
    for value in [-32768i16, -4097, -17, -16, -15, -1, 0, 1, 15, 16, 32767] {
        assert_eq!(sample12(value), value >> 4);
    }
}

#[test]
fn field_replacement_keeps_the_other_bits() {
    assert_eq!(replace_field(0xFF, 0x30, 0x00), 0xCF);
    assert_eq!(replace_field(0x00, 0x30, 0x20), 0x20);
    assert_eq!(replace_field(0x8F, 0xF0, 0x50), 0x5F);
    assert_eq!(replace_field(0x9C, 0x1C, 0x04), 0x84);
    for current in 0..=255u8 {
        for bits in [0x00u8, 0x10, 0x20, 0x30] {
            let updated = replace_field(current, 0x30, bits);
            assert_eq!(updated & 0x30, bits);
            assert_eq!(updated & 0xCF, current & 0xCF);
        }
    }
}
