use gb_core::utils::{
    borrow_occurred_byte, borrow_occurred_word, bytes_to_word_big_endian,
    bytes_to_word_little_endian, endianess_conversion, get_bit_of_byte, get_bits_of_byte,
    get_word_left_byte, get_word_right_byte, overflow_occured_byte, overflow_occured_word,
    set_bit_of_byte, set_word_left_byte, set_word_right_byte, word_to_bytes_big_endian,
    word_to_bytes_little_endian,
};

#[test]
fn big_endian_round_trip() {
    assert_eq!(bytes_to_word_big_endian(0x12, 0x34), 0x1234);
    assert_eq!(word_to_bytes_big_endian(0x1234), (0x12, 0x34));
    for hi in 0..=255u8 {
        assert_eq!(word_to_bytes_big_endian(bytes_to_word_big_endian(hi, 0xA5)), (hi, 0xA5));
    }
}

#[test]
fn little_endian_swaps() {
    assert_eq!(bytes_to_word_little_endian(0x12, 0x34), 0x3412);
    assert_eq!(word_to_bytes_little_endian(0x1234), (0x34, 0x12));
    assert_eq!(endianess_conversion(0x1234), 0x3412);
    assert_eq!(endianess_conversion(endianess_conversion(0xBEEF)), 0xBEEF);
}

#[test]
fn word_byte_halves() {
    assert_eq!(get_word_left_byte(0x1234), 0x12);
    assert_eq!(get_word_right_byte(0x1234), 0x34);
    assert_eq!(set_word_left_byte(0x1234, 0xAB), 0xAB34);
    assert_eq!(set_word_right_byte(0x1234, 0xAB), 0x12AB);
}

#[test]
fn bit_field_extraction() {
    // Indexes count from the left: 0b01234567.
    assert_eq!(get_bits_of_byte(0b1011_0010, 0, 8), 0b1011_0010);
    assert_eq!(get_bits_of_byte(0b1011_0010, 0, 2), 0b10);
    assert_eq!(get_bits_of_byte(0b1011_0010, 2, 4), 0b11);
    assert_eq!(get_bits_of_byte(0b1011_0010, 2, 5), 0b110);
    assert_eq!(get_bits_of_byte(0b1011_0010, 5, 8), 0b010);
}

#[test]
fn single_bits() {
    assert!(get_bit_of_byte(0b1000_0000, 0));
    assert!(!get_bit_of_byte(0b1000_0000, 7));
    assert!(get_bit_of_byte(0b0000_0001, 7));
    assert_eq!(set_bit_of_byte(0, 0, true), 0b1000_0000);
    assert_eq!(set_bit_of_byte(0, 7, true), 0b0000_0001);
    assert_eq!(set_bit_of_byte(0xFF, 3, false), 0b1110_1111);
    assert_eq!(set_bit_of_byte(0b0101_0101, 0, true), 0b1101_0101);
    assert_eq!(set_bit_of_byte(0b0101_0101, 1, true), 0b0101_0101);
}

#[test]
fn carry_predicates() {
    // 0xFF + 1 = 0x00: the XOR trace shows the carry crossing bit 4.
    assert!(overflow_occured_byte(0xFF, 0x01, 0x00, 4));
    // 0x08 + 0x07 = 0x0F: no carry out of the low nibble.
    assert!(!overflow_occured_byte(0x08, 0x07, 0x0F, 4));
    // 0x0FFF + 0x0001 = 0x1000 carries across bit 11 (position 12).
    assert!(overflow_occured_word(0x0FFF, 0x0001, 0x1000, 12));
    assert!(!overflow_occured_word(0x0F00, 0x00FF, 0x0FFF, 12));
}

#[test]
fn borrow_predicates() {
    // !0x00 & 0x10 has bit 4 set: 0x00 - 0x10 borrows past the nibble.
    assert!(borrow_occurred_byte(0x00, 0x10, 4));
    assert!(!borrow_occurred_byte(0x1F, 0x10, 4));
    assert!(borrow_occurred_word(0x0000, 0x1000, 12));
    assert!(!borrow_occurred_word(0x1000, 0x1000, 12));
}
