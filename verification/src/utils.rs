//! Byte and word utilities: endianness conversion, byte halves of a 16-bit
//! word, bit-field extraction, and the carry/borrow predicates used by the
//! flag logic.
//!
//! A 16-bit word is modelled arithmetically throughout: `word == high * 256
//! + low`, so the high byte is `word / 256` and the low byte is `word % 256`.

use vstd::prelude::*;

verus! {

/// The high 8 bits of a 16-bit word.
pub open spec fn spec_high_byte(word: u16) -> u8 {
    (word / 256) as u8
}

/// The low 8 bits of a 16-bit word.
pub open spec fn spec_low_byte(word: u16) -> u8 {
    (word % 256) as u8
}

/// The 16-bit word with the given high and low bytes.
pub open spec fn spec_word_of(high: u8, low: u8) -> u16 {
    (high * 256 + low) as u16
}

/// Splitting a word into its two bytes and recombining them gives the word
/// back.
pub proof fn lemma_word_of_split(word: u16)
    ensures
        spec_word_of(spec_high_byte(word), spec_low_byte(word)) == word,
{
}

/// The two bytes of a recombined word are the bytes that were put in.
pub proof fn lemma_word_of_parts(high: u8, low: u8)
    ensures
        spec_high_byte(spec_word_of(high, low)) == high,
        spec_low_byte(spec_word_of(high, low)) == low,
{
}

/// 0x12, 0x34 => 0x1234
pub fn bytes_to_word_big_endian(fst: u8, snd: u8) -> (r: u16)
    ensures
        r == spec_word_of(fst, snd),
{
    (fst as u16) * 256 + (snd as u16)
}

/// 0x1234 => (0x12, 0x34)
pub fn word_to_bytes_big_endian(word: u16) -> (r: (u8, u8))
    ensures
        r.0 == spec_high_byte(word),
        r.1 == spec_low_byte(word),
{
    ((word / 256) as u8, (word % 256) as u8)
}

/// 0x12, 0x34 => 0x3412
pub fn bytes_to_word_little_endian(fst: u8, snd: u8) -> (r: u16)
    ensures
        r == spec_word_of(snd, fst),
{
    bytes_to_word_big_endian(snd, fst)
}

/// 0x1234 => (0x34, 0x12)
pub fn word_to_bytes_little_endian(word: u16) -> (r: (u8, u8))
    ensures
        r.0 == spec_low_byte(word),
        r.1 == spec_high_byte(word),
{
    let (fst, snd) = word_to_bytes_big_endian(word);
    (snd, fst)
}

/// Swaps the two bytes of a word: 0x1234 => 0x3412.
pub fn endianess_conversion(word: u16) -> (r: u16)
    ensures
        r == spec_word_of(spec_low_byte(word), spec_high_byte(word)),
{
    (word % 256) * 256 + word / 256
}

/// The high byte of a word.
pub fn get_word_left_byte(word: u16) -> (r: u8)
    ensures
        r == spec_high_byte(word),
{
    (word / 256) as u8
}

/// The low byte of a word.
pub fn get_word_right_byte(word: u16) -> (r: u8)
    ensures
        r == spec_low_byte(word),
{
    (word % 256) as u8
}

/// Replaces the high byte of a word.
pub fn set_word_left_byte(word: u16, byte: u8) -> (r: u16)
    ensures
        r == spec_word_of(byte, spec_low_byte(word)),
{
    (byte as u16) * 256 + word % 256
}

/// Replaces the low byte of a word.
pub fn set_word_right_byte(word: u16, byte: u8) -> (r: u16)
    ensures
        r == spec_word_of(spec_high_byte(word), byte),
{
    (word / 256) * 256 + (byte as u16)
}

/// 2^k for the small exponents that byte-level bit fields need.
pub open spec fn pow2_small(k: usize) -> u16
    recommends
        k <= 8,
{
    if k == 0 {
        1
    } else if k == 1 {
        2
    } else if k == 2 {
        4
    } else if k == 3 {
        8
    } else if k == 4 {
        16
    } else if k == 5 {
        32
    } else if k == 6 {
        64
    } else if k == 7 {
        128
    } else {
        256
    }
}

fn pow2_table(k: usize) -> (r: u16)
    requires
        k <= 8,
    ensures
        r == pow2_small(k),
{
    if k == 0 {
        1
    } else if k == 1 {
        2
    } else if k == 2 {
        4
    } else if k == 3 {
        8
    } else if k == 4 {
        16
    } else if k == 5 {
        32
    } else if k == 6 {
        64
    } else if k == 7 {
        128
    } else {
        256
    }
}

/// Reads the bit field of interval `[from, to)` from a byte as an unsigned
/// value. Indexes are counted from the left (most significant bit first),
/// e.g. 0b01234567, so the field's value is `(byte / 2^(8-to)) % 2^(to-from)`.
pub fn get_bits_of_byte(byte: u8, from: usize, to: usize) -> (r: u8)
    requires
        from < to,
        to <= 8,
    ensures
        r as u16 == (byte as u16 / pow2_small((8 - to) as usize)) % pow2_small(
            (to - from) as usize,
        ),
{
    let d = pow2_table(8 - to);
    let m = pow2_table(to - from);
    (((byte as u16) / d) % m) as u8
}

/// Whether bit `i` of a byte is set, with `i` counted from the left
/// (0 is the most significant bit).
pub open spec fn spec_bit_of_byte(byte: u8, i: usize) -> bool
    recommends
        i < 8,
{
    byte & (0x80u8 >> (i as u8)) != 0
}

/// Reads the bit of the given index from a byte, 0 = false and 1 = true.
/// The index is counted from the left, e.g. 0b01234567.
pub fn get_bit_of_byte(byte: u8, i: usize) -> (r: bool)
    requires
        i < 8,
    ensures
        r == spec_bit_of_byte(byte, i),
{
    byte & (0x80u8 >> (i as u8)) != 0
}

/// Sets or clears the bit of the given index, leaving every other bit as it
/// was. The index is counted from the left, e.g. 0b01234567.
pub fn set_bit_of_byte(byte: u8, i: usize, bit: bool) -> (r: u8)
    requires
        i < 8,
    ensures
        spec_bit_of_byte(r, i) == bit,
        forall|j: usize| j < 8 && j != i ==> spec_bit_of_byte(r, j) == spec_bit_of_byte(byte, j),
{
    let mask: u8 = 0x80u8 >> (i as u8);
    let r: u8 = if bit {
        byte | mask
    } else {
        byte & !mask
    };
    proof {
        let iu = i as u8;
        assert forall|j: usize| j < 8 && j != i implies spec_bit_of_byte(r, j) == spec_bit_of_byte(
            byte,
            j,
        ) by {
            let ju = j as u8;
            assert(iu < 8 && ju < 8 && iu != ju ==> ((byte | (0x80u8 >> iu)) & (0x80u8 >> ju) != 0)
                == (byte & (0x80u8 >> ju) != 0)) by (bit_vector);
            assert(iu < 8 && ju < 8 && iu != ju ==> ((byte & !(0x80u8 >> iu)) & (0x80u8 >> ju) != 0)
                == (byte & (0x80u8 >> ju) != 0)) by (bit_vector);
        }
        let iu = i as u8;
        assert(iu < 8 ==> ((byte | (0x80u8 >> iu)) & (0x80u8 >> iu) != 0)) by (bit_vector);
        assert(iu < 8 ==> ((byte & !(0x80u8 >> iu)) & (0x80u8 >> iu) == 0)) by (bit_vector);
    }
    r
}

/// The carry predicate of the flag logic: whether a carry crossed into bit
/// `position` (counted from the right) when `op1` and `op2` produced
/// `result`, read off as `(op1 ^ op2 ^ result) & (1 << position)`.
pub open spec fn spec_overflow_occured_word(op1: u16, op2: u16, result: u16, position: usize) -> bool
    recommends
        position < 16,
{
    (op1 ^ op2 ^ result) & (1u16 << (position as u16)) != 0
}

/// Position is counted from the right, e.g. 0b76543210.
pub fn overflow_occured_word(op1: u16, op2: u16, result: u16, position: usize) -> (r: bool)
    requires
        position < 16,
    ensures
        r == spec_overflow_occured_word(op1, op2, result, position),
{
    (op1 ^ op2 ^ result) & (1u16 << (position as u16)) != 0
}

/// The byte-wide carry predicate; see `spec_overflow_occured_word`.
pub open spec fn spec_overflow_occured_byte(op1: u8, op2: u8, result: u8, position: usize) -> bool
    recommends
        position < 8,
{
    (op1 ^ op2 ^ result) & (1u8 << (position as u8)) != 0
}

/// Position is counted from the right, e.g. 0b76543210.
pub fn overflow_occured_byte(op1: u8, op2: u8, result: u8, position: usize) -> (r: bool)
    requires
        position < 8,
    ensures
        r == spec_overflow_occured_byte(op1, op2, result, position),
{
    (op1 ^ op2 ^ result) & (1u8 << (position as u8)) != 0
}

/// The borrow predicate `(!op1 & op2) & (1 << position)`.
pub open spec fn spec_borrow_occurred_word(op1: u16, op2: u16, position: usize) -> bool
    recommends
        position < 16,
{
    (!op1 & op2) & (1u16 << (position as u16)) != 0
}

/// Position is counted from the right, e.g. 0b76543210.
pub fn borrow_occurred_word(op1: u16, op2: u16, position: usize) -> (r: bool)
    requires
        position < 16,
    ensures
        r == spec_borrow_occurred_word(op1, op2, position),
{
    (!op1 & op2) & (1u16 << (position as u16)) != 0
}

/// The byte-wide borrow predicate; see `spec_borrow_occurred_word`.
pub open spec fn spec_borrow_occurred_byte(op1: u8, op2: u8, position: usize) -> bool
    recommends
        position < 8,
{
    (!op1 & op2) & (1u8 << (position as u8)) != 0
}

/// Position is counted from the right, e.g. 0b76543210.
pub fn borrow_occurred_byte(op1: u8, op2: u8, position: usize) -> (r: bool)
    requires
        position < 8,
    ensures
        r == spec_borrow_occurred_byte(op1, op2, position),
{
    (!op1 & op2) & (1u8 << (position as u8)) != 0
}

/// The carry predicate agrees with arithmetic: with `result` the wrapped sum
/// of `op1`, `op2` and a carry-in, the carry crossed bit 3 (position 4 of the
/// predicate) exactly when the low nibbles and the carry-in sum to 16 or
/// more.
pub proof fn lemma_overflow_byte_matches_half_carry(op1: u8, op2: u8, carry_in: u8, result: u8)
    requires
        carry_in <= 1,
        result == (op1 + op2 + carry_in) % 256,
    ensures
        spec_overflow_occured_byte(op1, op2, result, 4) == (op1 % 16 + op2 % 16 + carry_in >= 16),
{
    assert(carry_in <= 1 && result == (op1 + op2 + carry_in) % 256 ==> ((op1 ^ op2 ^ result) & (
    1u8 << 4u8) != 0) == (op1 % 16 + op2 % 16 + carry_in >= 16)) by (bit_vector);
}

/// The same predicate read over a wrapped difference: the borrow crossed bit
/// 4 exactly when the subtrahend's low nibble plus the borrow-in exceeds the
/// minuend's.
pub proof fn lemma_overflow_byte_matches_half_borrow(op1: u8, op2: u8, borrow_in: u8, result: u8)
    requires
        borrow_in <= 1,
        result == (op1 + 512 - op2 - borrow_in) % 256,
    ensures
        spec_overflow_occured_byte(op1, op2, result, 4) == (op1 % 16 < op2 % 16 + borrow_in),
{
    assert(borrow_in <= 1 && result == (op1 + 512 - op2 - borrow_in) % 256 ==> ((op1 ^ op2 ^ result)
        & (1u8 << 4u8) != 0) == (op1 % 16 < op2 % 16 + borrow_in)) by (bit_vector);
}

/// The word-wide carry predicate at position 12 is the half-carry of 16-bit
/// addition: a carry crossed bit 11 exactly when the low 12-bit halves sum
/// to 4096 or more.
pub proof fn lemma_overflow_word_matches_half_carry(op1: u16, op2: u16, result: u16)
    requires
        result == (op1 + op2) % 65536,
    ensures
        spec_overflow_occured_word(op1, op2, result, 12) == (op1 % 4096 + op2 % 4096 >= 4096),
{
    assert(result == (op1 + op2) % 65536 ==> ((op1 ^ op2 ^ result) & (1u16 << 12u16) != 0) == (op1
        % 4096 + op2 % 4096 >= 4096)) by (bit_vector);
}

} // verus!
