//! The instruction decoder: a pure function from a byte stream to a typed
//! instruction and its encoded length.
//!
//! The opcode's top two bits select one of four blocks:
//! - block 0 (`00xxxxxx`): miscellaneous, 16-bit loads, INC/DEC, rotates of
//!   A, relative jumps, STOP and the flag operations;
//! - block 1 (`01xxxxxx`): 8-bit register-to-register loads and HALT;
//! - block 2 (`10xxxxxx`): ALU of A with an 8-bit source;
//! - block 3 (`11xxxxxx`): ALU with immediate, stack operations, absolute
//!   jumps, returns, interrupt controls and high-RAM I/O.
//!
//! Immediates are little-endian: the low byte comes first. A byte that
//! matches no defined pattern decodes to `Unknown` of length 1 — a valid
//! instruction value, so the executor can tell an illegal instruction from
//! a decoder that ran out of input.

use vstd::prelude::*;

use crate::utils::spec_word_of;

verus! {

/// An 8-bit operand selector: a byte register, or the byte in memory at
/// address HL.
#[derive(Debug, Clone, Copy, PartialEq, Eq, Structural)]
pub enum R8 {
    B,
    C,
    D,
    E,
    H,
    L,
    AddrHL,
    A,
}

/// A 16-bit register selector for word loads and word arithmetic.
#[derive(Debug, Clone, Copy, PartialEq, Eq, Structural)]
pub enum R16 {
    BC,
    DE,
    HL,
    SP,
}

/// A 16-bit addressing selector: BC, DE, or HL with a post-increment or
/// post-decrement of HL.
#[derive(Debug, Clone, Copy, PartialEq, Eq, Structural)]
pub enum R16mem {
    BC,
    DE,
    IncrHL,
    DecrHL,
}

/// A 16-bit register selector for PUSH and POP; AF takes the place of SP.
#[derive(Debug, Clone, Copy, PartialEq, Eq, Structural)]
pub enum R16stk {
    BC,
    DE,
    HL,
    AF,
}

/// A branch condition: a flag and the polarity it is tested with.
#[derive(Debug, Clone, Copy, PartialEq, Eq, Structural)]
pub enum Cond {
    NotZ,
    Z,
    NotC,
    C,
}

/// A decoded instruction with its already-decoded operand selectors and
/// immediates.
#[derive(Debug, Clone, Copy, PartialEq, Eq, Structural)]
pub enum Instruction {
    Unknown(u8),
    NOP,
    RLCA,
    RRCA,
    RLA,
    RRA,
    DAA,
    CPL,
    SCF,
    CCF,
    STOP,
    HALT,
    DI,
    EI,
    LdR16Imm16(R16, u16),
    LdR16memA(R16mem),
    LdAR16mem(R16mem),
    LdAddrImm16Sp(u16),
    LdR8Imm8(R8, u8),
    LdR8R8(R8, R8),
    LdAddrImm16A(u16),
    LdAAddrImm16(u16),
    LdhAddrCA,
    LdhAAddrC,
    LdhAddrImm8A(u8),
    LdhAAddrImm8(u8),
    JrImm8(u8),
    JrCondImm8(Cond, u8),
    JpImm16(u16),
    JpCondImm16(Cond, u16),
    JpHl,
    Ret,
    Reti,
    RetCond(Cond),
    PushR16stk(R16stk),
    PopR16stk(R16stk),
    IncR8(R8),
    IncR16(R16),
    DecR8(R8),
    DecR16(R16),
    AddHlR16(R16),
    AddAR8(R8),
    AdcAR8(R8),
    SubAR8(R8),
    SbcAR8(R8),
    AndAR8(R8),
    XorAR8(R8),
    OrAR8(R8),
    CpAR8(R8),
    AddAImm8(u8),
    AdcAImm8(u8),
    SubAImm8(u8),
    SbcAImm8(u8),
    AndAImm8(u8),
    XorAImm8(u8),
    OrAImm8(u8),
    CpAImm8(u8),
}

/// What can stop the decoder: the input was empty, or the opcode needs
/// operand bytes the input does not hold.
#[derive(Debug, Clone, Copy, PartialEq, Eq, Structural)]
pub enum DisassemblyError {
    MissingOperand(u8),
    EndOfInput,
}

/// The r8 selector for an index 0 through 7.
pub open spec fn spec_r8_of(i: u8) -> R8 {
    if i == 0 {
        R8::B
    } else if i == 1 {
        R8::C
    } else if i == 2 {
        R8::D
    } else if i == 3 {
        R8::E
    } else if i == 4 {
        R8::H
    } else if i == 5 {
        R8::L
    } else if i == 6 {
        R8::AddrHL
    } else {
        R8::A
    }
}

/// The r16 selector for an index 0 through 3.
pub open spec fn spec_r16_of(i: u8) -> R16 {
    if i == 0 {
        R16::BC
    } else if i == 1 {
        R16::DE
    } else if i == 2 {
        R16::HL
    } else {
        R16::SP
    }
}

/// The r16mem selector for an index 0 through 3.
pub open spec fn spec_r16mem_of(i: u8) -> R16mem {
    if i == 0 {
        R16mem::BC
    } else if i == 1 {
        R16mem::DE
    } else if i == 2 {
        R16mem::IncrHL
    } else {
        R16mem::DecrHL
    }
}

/// The r16stk selector for an index 0 through 3.
pub open spec fn spec_r16stk_of(i: u8) -> R16stk {
    if i == 0 {
        R16stk::BC
    } else if i == 1 {
        R16stk::DE
    } else if i == 2 {
        R16stk::HL
    } else {
        R16stk::AF
    }
}

/// The condition for an index 0 through 3.
pub open spec fn spec_cond_of(i: u8) -> Cond {
    if i == 0 {
        Cond::NotZ
    } else if i == 1 {
        Cond::Z
    } else if i == 2 {
        Cond::NotC
    } else {
        Cond::C
    }
}

/// The encoded length that the opcode table fixes for each first byte:
/// 3 for the word-immediate forms, 2 for the byte-immediate forms and STOP,
/// 1 for everything else, undefined opcodes included.
pub open spec fn spec_operand_len(b0: u8) -> usize {
    if b0 < 64 {
        if b0 % 16 == 1 || b0 == 8 {
            3
        } else if b0 % 8 == 6 || b0 == 0x18 || (b0 % 8 == 0 && b0 >= 32) || b0 == 0x10 {
            2
        } else {
            1
        }
    } else if b0 < 192 {
        1
    } else {
        if b0 == 0xC3 || b0 == 0xC2 || b0 == 0xCA || b0 == 0xD2 || b0 == 0xDA || b0 == 0xEA || b0
            == 0xFA {
            3
        } else if b0 % 8 == 6 || b0 == 0xE0 || b0 == 0xF0 {
            2
        } else {
            1
        }
    }
}

/// The instruction of block 0 (`00xxxxxx`) for the first byte `b0` and its
/// operand bytes.
pub open spec fn spec_decode_block_0(b0: u8, b1: u8, b2: u8) -> Instruction {
    if b0 == 0x00 {
        Instruction::NOP
    } else if b0 == 0x07 {
        Instruction::RLCA
    } else if b0 == 0x0F {
        Instruction::RRCA
    } else if b0 == 0x17 {
        Instruction::RLA
    } else if b0 == 0x1F {
        Instruction::RRA
    } else if b0 == 0x27 {
        Instruction::DAA
    } else if b0 == 0x2F {
        Instruction::CPL
    } else if b0 == 0x37 {
        Instruction::SCF
    } else if b0 == 0x3F {
        Instruction::CCF
    } else if b0 == 0x10 {
        Instruction::STOP
    } else if b0 == 0x08 {
        Instruction::LdAddrImm16Sp(spec_word_of(b2, b1))
    } else if b0 == 0x18 {
        Instruction::JrImm8(b1)
    } else if b0 % 16 == 1 {
        Instruction::LdR16Imm16(spec_r16_of(b0 / 16), spec_word_of(b2, b1))
    } else if b0 % 16 == 2 {
        Instruction::LdR16memA(spec_r16mem_of(b0 / 16))
    } else if b0 % 16 == 10 {
        Instruction::LdAR16mem(spec_r16mem_of(b0 / 16))
    } else if b0 % 16 == 3 {
        Instruction::IncR16(spec_r16_of(b0 / 16))
    } else if b0 % 16 == 11 {
        Instruction::DecR16(spec_r16_of(b0 / 16))
    } else if b0 % 16 == 9 {
        Instruction::AddHlR16(spec_r16_of(b0 / 16))
    } else if b0 % 8 == 4 {
        Instruction::IncR8(spec_r8_of(b0 / 8))
    } else if b0 % 8 == 5 {
        Instruction::DecR8(spec_r8_of(b0 / 8))
    } else if b0 % 8 == 6 {
        Instruction::LdR8Imm8(spec_r8_of(b0 / 8), b1)
    } else {
        Instruction::JrCondImm8(spec_cond_of(b0 / 8 % 4), b1)
    }
}

/// The instruction of block 1 (`01xxxxxx`): register-to-register loads and
/// HALT in the slot that LD [HL], [HL] would take.
pub open spec fn spec_decode_block_1(b0: u8) -> Instruction {
    if b0 == 0x76 {
        Instruction::HALT
    } else {
        Instruction::LdR8R8(spec_r8_of(b0 / 8 % 8), spec_r8_of(b0 % 8))
    }
}

/// The instruction of block 2 (`10xxxxxx`): the eight ALU operations of A
/// with an 8-bit source.
pub open spec fn spec_decode_block_2(b0: u8) -> Instruction {
    let src = spec_r8_of(b0 % 8);
    let op = b0 / 8 % 8;
    if op == 0 {
        Instruction::AddAR8(src)
    } else if op == 1 {
        Instruction::AdcAR8(src)
    } else if op == 2 {
        Instruction::SubAR8(src)
    } else if op == 3 {
        Instruction::SbcAR8(src)
    } else if op == 4 {
        Instruction::AndAR8(src)
    } else if op == 5 {
        Instruction::XorAR8(src)
    } else if op == 6 {
        Instruction::OrAR8(src)
    } else {
        Instruction::CpAR8(src)
    }
}

/// The instruction of block 3 (`11xxxxxx`) for the first byte `b0` and its
/// operand bytes; bytes that match no pattern decode to `Unknown`.
pub open spec fn spec_decode_block_3(b0: u8, b1: u8, b2: u8) -> Instruction {
    if b0 == 0xC6 {
        Instruction::AddAImm8(b1)
    } else if b0 == 0xCE {
        Instruction::AdcAImm8(b1)
    } else if b0 == 0xD6 {
        Instruction::SubAImm8(b1)
    } else if b0 == 0xDE {
        Instruction::SbcAImm8(b1)
    } else if b0 == 0xE6 {
        Instruction::AndAImm8(b1)
    } else if b0 == 0xEE {
        Instruction::XorAImm8(b1)
    } else if b0 == 0xF6 {
        Instruction::OrAImm8(b1)
    } else if b0 == 0xFE {
        Instruction::CpAImm8(b1)
    } else if b0 == 0xC9 {
        Instruction::Ret
    } else if b0 == 0xD9 {
        Instruction::Reti
    } else if b0 == 0xC0 || b0 == 0xC8 || b0 == 0xD0 || b0 == 0xD8 {
        Instruction::RetCond(spec_cond_of(b0 / 8 % 4))
    } else if b0 == 0xC3 {
        Instruction::JpImm16(spec_word_of(b2, b1))
    } else if b0 == 0xC2 || b0 == 0xCA || b0 == 0xD2 || b0 == 0xDA {
        Instruction::JpCondImm16(spec_cond_of(b0 / 8 % 4), spec_word_of(b2, b1))
    } else if b0 == 0xE9 {
        Instruction::JpHl
    } else if b0 == 0xC1 || b0 == 0xD1 || b0 == 0xE1 || b0 == 0xF1 {
        Instruction::PopR16stk(spec_r16stk_of(b0 / 16 % 4))
    } else if b0 == 0xC5 || b0 == 0xD5 || b0 == 0xE5 || b0 == 0xF5 {
        Instruction::PushR16stk(spec_r16stk_of(b0 / 16 % 4))
    } else if b0 == 0xE0 {
        Instruction::LdhAddrImm8A(b1)
    } else if b0 == 0xF0 {
        Instruction::LdhAAddrImm8(b1)
    } else if b0 == 0xE2 {
        Instruction::LdhAddrCA
    } else if b0 == 0xF2 {
        Instruction::LdhAAddrC
    } else if b0 == 0xEA {
        Instruction::LdAddrImm16A(spec_word_of(b2, b1))
    } else if b0 == 0xFA {
        Instruction::LdAAddrImm16(spec_word_of(b2, b1))
    } else if b0 == 0xF3 {
        Instruction::DI
    } else if b0 == 0xFB {
        Instruction::EI
    } else {
        Instruction::Unknown(b0)
    }
}

/// The instruction encoded by a first byte and its (up to two) operand
/// bytes. Operand bytes beyond the encoded length do not matter.
pub open spec fn spec_decode(b0: u8, b1: u8, b2: u8) -> Instruction {
    if b0 < 64 {
        spec_decode_block_0(b0, b1, b2)
    } else if b0 < 128 {
        spec_decode_block_1(b0)
    } else if b0 < 192 {
        spec_decode_block_2(b0)
    } else {
        spec_decode_block_3(b0, b1, b2)
    }
}

/// The instruction at the front of a byte stream that is long enough for
/// it. Missing operand bytes read as zero; they are never reached when the
/// stream holds the encoded length.
pub open spec fn spec_decode_seq(s: Seq<u8>) -> Instruction
    recommends
        s.len() >= 1,
{
    spec_decode(
        s[0],
        if s.len() > 1 {
            s[1]
        } else {
            0
        },
        if s.len() > 2 {
            s[2]
        } else {
            0
        },
    )
}

/// The encoded length of an instruction, as the opcode table fixes it.
pub open spec fn spec_size(i: Instruction) -> usize {
    match i {
        Instruction::LdR16Imm16(_, _) => 3,
        Instruction::LdAddrImm16Sp(_) => 3,
        Instruction::LdAddrImm16A(_) => 3,
        Instruction::LdAAddrImm16(_) => 3,
        Instruction::JpImm16(_) => 3,
        Instruction::JpCondImm16(_, _) => 3,
        Instruction::LdR8Imm8(_, _) => 2,
        Instruction::JrImm8(_) => 2,
        Instruction::JrCondImm8(_, _) => 2,
        Instruction::STOP => 2,
        Instruction::AddAImm8(_) => 2,
        Instruction::AdcAImm8(_) => 2,
        Instruction::SubAImm8(_) => 2,
        Instruction::SbcAImm8(_) => 2,
        Instruction::AndAImm8(_) => 2,
        Instruction::XorAImm8(_) => 2,
        Instruction::OrAImm8(_) => 2,
        Instruction::CpAImm8(_) => 2,
        Instruction::LdhAddrImm8A(_) => 2,
        Instruction::LdhAAddrImm8(_) => 2,
        _ => 1,
    }
}

/// Every defined opcode pattern decodes to an instruction whose encoded
/// length is the length the table gives for its first byte, whatever the
/// operand bytes hold.
pub proof fn lemma_decode_length(b0: u8, b1: u8, b2: u8)
    ensures
        spec_size(spec_decode(b0, b1, b2)) == spec_operand_len(b0),
{
}

impl Instruction {
    /// The number of bytes this instruction occupies in the stream.
    pub fn get_size(&self) -> (r: usize)
        ensures
            r == spec_size(*self),
    {
        match self {
            Instruction::LdR16Imm16(_, _) => 3,
            Instruction::LdAddrImm16Sp(_) => 3,
            Instruction::LdAddrImm16A(_) => 3,
            Instruction::LdAAddrImm16(_) => 3,
            Instruction::JpImm16(_) => 3,
            Instruction::JpCondImm16(_, _) => 3,
            Instruction::LdR8Imm8(_, _) => 2,
            Instruction::JrImm8(_) => 2,
            Instruction::JrCondImm8(_, _) => 2,
            Instruction::STOP => 2,
            Instruction::AddAImm8(_) => 2,
            Instruction::AdcAImm8(_) => 2,
            Instruction::SubAImm8(_) => 2,
            Instruction::SbcAImm8(_) => 2,
            Instruction::AndAImm8(_) => 2,
            Instruction::XorAImm8(_) => 2,
            Instruction::OrAImm8(_) => 2,
            Instruction::CpAImm8(_) => 2,
            Instruction::LdhAddrImm8A(_) => 2,
            Instruction::LdhAAddrImm8(_) => 2,
            _ => 1,
        }
    }
}

fn r8_of(i: u8) -> (r: R8)
    requires
        i < 8,
    ensures
        r == spec_r8_of(i),
{
    if i == 0 {
        R8::B
    } else if i == 1 {
        R8::C
    } else if i == 2 {
        R8::D
    } else if i == 3 {
        R8::E
    } else if i == 4 {
        R8::H
    } else if i == 5 {
        R8::L
    } else if i == 6 {
        R8::AddrHL
    } else {
        R8::A
    }
}

fn r16_of(i: u8) -> (r: R16)
    requires
        i < 4,
    ensures
        r == spec_r16_of(i),
{
    if i == 0 {
        R16::BC
    } else if i == 1 {
        R16::DE
    } else if i == 2 {
        R16::HL
    } else {
        R16::SP
    }
}

fn r16mem_of(i: u8) -> (r: R16mem)
    requires
        i < 4,
    ensures
        r == spec_r16mem_of(i),
{
    if i == 0 {
        R16mem::BC
    } else if i == 1 {
        R16mem::DE
    } else if i == 2 {
        R16mem::IncrHL
    } else {
        R16mem::DecrHL
    }
}

fn r16stk_of(i: u8) -> (r: R16stk)
    requires
        i < 4,
    ensures
        r == spec_r16stk_of(i),
{
    if i == 0 {
        R16stk::BC
    } else if i == 1 {
        R16stk::DE
    } else if i == 2 {
        R16stk::HL
    } else {
        R16stk::AF
    }
}

fn cond_of(i: u8) -> (r: Cond)
    requires
        i < 4,
    ensures
        r == spec_cond_of(i),
{
    if i == 0 {
        Cond::NotZ
    } else if i == 1 {
        Cond::Z
    } else if i == 2 {
        Cond::NotC
    } else {
        Cond::C
    }
}

fn block_0(b0: u8, b1: u8, b2: u8) -> (r: Instruction)
    requires
        b0 < 64,
    ensures
        r == spec_decode_block_0(b0, b1, b2),
{
    if b0 == 0x00 {
        Instruction::NOP
    } else if b0 == 0x07 {
        Instruction::RLCA
    } else if b0 == 0x0F {
        Instruction::RRCA
    } else if b0 == 0x17 {
        Instruction::RLA
    } else if b0 == 0x1F {
        Instruction::RRA
    } else if b0 == 0x27 {
        Instruction::DAA
    } else if b0 == 0x2F {
        Instruction::CPL
    } else if b0 == 0x37 {
        Instruction::SCF
    } else if b0 == 0x3F {
        Instruction::CCF
    } else if b0 == 0x10 {
        Instruction::STOP
    } else if b0 == 0x08 {
        Instruction::LdAddrImm16Sp(crate::utils::bytes_to_word_little_endian(b1, b2))
    } else if b0 == 0x18 {
        Instruction::JrImm8(b1)
    } else if b0 % 16 == 1 {
        Instruction::LdR16Imm16(r16_of(b0 / 16), crate::utils::bytes_to_word_little_endian(b1, b2))
    } else if b0 % 16 == 2 {
        Instruction::LdR16memA(r16mem_of(b0 / 16))
    } else if b0 % 16 == 10 {
        Instruction::LdAR16mem(r16mem_of(b0 / 16))
    } else if b0 % 16 == 3 {
        Instruction::IncR16(r16_of(b0 / 16))
    } else if b0 % 16 == 11 {
        Instruction::DecR16(r16_of(b0 / 16))
    } else if b0 % 16 == 9 {
        Instruction::AddHlR16(r16_of(b0 / 16))
    } else if b0 % 8 == 4 {
        Instruction::IncR8(r8_of(b0 / 8))
    } else if b0 % 8 == 5 {
        Instruction::DecR8(r8_of(b0 / 8))
    } else if b0 % 8 == 6 {
        Instruction::LdR8Imm8(r8_of(b0 / 8), b1)
    } else {
        Instruction::JrCondImm8(cond_of(b0 / 8 % 4), b1)
    }
}

fn block_1(b0: u8) -> (r: Instruction)
    requires
        64 <= b0 < 128,
    ensures
        r == spec_decode_block_1(b0),
{
    if b0 == 0x76 {
        Instruction::HALT
    } else {
        Instruction::LdR8R8(r8_of(b0 / 8 % 8), r8_of(b0 % 8))
    }
}

fn block_2(b0: u8) -> (r: Instruction)
    requires
        128 <= b0 < 192,
    ensures
        r == spec_decode_block_2(b0),
{
    let src = r8_of(b0 % 8);
    let op = b0 / 8 % 8;
    if op == 0 {
        Instruction::AddAR8(src)
    } else if op == 1 {
        Instruction::AdcAR8(src)
    } else if op == 2 {
        Instruction::SubAR8(src)
    } else if op == 3 {
        Instruction::SbcAR8(src)
    } else if op == 4 {
        Instruction::AndAR8(src)
    } else if op == 5 {
        Instruction::XorAR8(src)
    } else if op == 6 {
        Instruction::OrAR8(src)
    } else {
        Instruction::CpAR8(src)
    }
}

fn block_3(b0: u8, b1: u8, b2: u8) -> (r: Instruction)
    requires
        192 <= b0,
    ensures
        r == spec_decode_block_3(b0, b1, b2),
{
    if b0 == 0xC6 {
        Instruction::AddAImm8(b1)
    } else if b0 == 0xCE {
        Instruction::AdcAImm8(b1)
    } else if b0 == 0xD6 {
        Instruction::SubAImm8(b1)
    } else if b0 == 0xDE {
        Instruction::SbcAImm8(b1)
    } else if b0 == 0xE6 {
        Instruction::AndAImm8(b1)
    } else if b0 == 0xEE {
        Instruction::XorAImm8(b1)
    } else if b0 == 0xF6 {
        Instruction::OrAImm8(b1)
    } else if b0 == 0xFE {
        Instruction::CpAImm8(b1)
    } else if b0 == 0xC9 {
        Instruction::Ret
    } else if b0 == 0xD9 {
        Instruction::Reti
    } else if b0 == 0xC0 || b0 == 0xC8 || b0 == 0xD0 || b0 == 0xD8 {
        Instruction::RetCond(cond_of(b0 / 8 % 4))
    } else if b0 == 0xC3 {
        Instruction::JpImm16(crate::utils::bytes_to_word_little_endian(b1, b2))
    } else if b0 == 0xC2 || b0 == 0xCA || b0 == 0xD2 || b0 == 0xDA {
        Instruction::JpCondImm16(cond_of(b0 / 8 % 4), crate::utils::bytes_to_word_little_endian(b1, b2))
    } else if b0 == 0xE9 {
        Instruction::JpHl
    } else if b0 == 0xC1 || b0 == 0xD1 || b0 == 0xE1 || b0 == 0xF1 {
        Instruction::PopR16stk(r16stk_of(b0 / 16 % 4))
    } else if b0 == 0xC5 || b0 == 0xD5 || b0 == 0xE5 || b0 == 0xF5 {
        Instruction::PushR16stk(r16stk_of(b0 / 16 % 4))
    } else if b0 == 0xE0 {
        Instruction::LdhAddrImm8A(b1)
    } else if b0 == 0xF0 {
        Instruction::LdhAAddrImm8(b1)
    } else if b0 == 0xE2 {
        Instruction::LdhAddrCA
    } else if b0 == 0xF2 {
        Instruction::LdhAAddrC
    } else if b0 == 0xEA {
        Instruction::LdAddrImm16A(crate::utils::bytes_to_word_little_endian(b1, b2))
    } else if b0 == 0xFA {
        Instruction::LdAAddrImm16(crate::utils::bytes_to_word_little_endian(b1, b2))
    } else if b0 == 0xF3 {
        Instruction::DI
    } else if b0 == 0xFB {
        Instruction::EI
    } else {
        Instruction::Unknown(b0)
    }
}

fn operand_len(b0: u8) -> (r: usize)
    ensures
        r == spec_operand_len(b0),
{
    if b0 < 64 {
        if b0 % 16 == 1 || b0 == 8 {
            3
        } else if b0 % 8 == 6 || b0 == 0x18 || (b0 % 8 == 0 && b0 >= 32) || b0 == 0x10 {
            2
        } else {
            1
        }
    } else if b0 < 192 {
        1
    } else {
        if b0 == 0xC3 || b0 == 0xC2 || b0 == 0xCA || b0 == 0xD2 || b0 == 0xDA || b0 == 0xEA || b0
            == 0xFA {
            3
        } else if b0 % 8 == 6 || b0 == 0xE0 || b0 == 0xF0 {
            2
        } else {
            1
        }
    }
}

/// Decodes the instruction at the front of `bytes`: the instruction the
/// opcode table gives when the input holds its whole encoding,
/// `MissingOperand` when the first byte asks for operand bytes the input
/// does not hold, and `EndOfInput` on an empty input.
pub fn get_instruction(bytes: &[u8]) -> (r: Result<Instruction, DisassemblyError>)
    ensures
        bytes@.len() == 0 ==> r == Err::<Instruction, DisassemblyError>(
            DisassemblyError::EndOfInput,
        ),
        bytes@.len() >= 1 && bytes@.len() < spec_operand_len(bytes@[0]) ==> r == Err::<
            Instruction,
            DisassemblyError,
        >(DisassemblyError::MissingOperand(bytes@[0])),
        bytes@.len() >= 1 && bytes@.len() >= spec_operand_len(bytes@[0]) ==> r == Ok::<
            Instruction,
            DisassemblyError,
        >(spec_decode_seq(bytes@)),
{
    if bytes.len() == 0 {
        return Err(DisassemblyError::EndOfInput);
    }
    let b0 = bytes[0];
    let need = operand_len(b0);
    if bytes.len() < need {
        return Err(DisassemblyError::MissingOperand(b0));
    }
    let b1 = if need >= 2 {
        bytes[1]
    } else {
        0
    };
    let b2 = if need >= 3 {
        bytes[2]
    } else {
        0
    };
    let i = if b0 < 64 {
        block_0(b0, b1, b2)
    } else if b0 < 128 {
        block_1(b0)
    } else if b0 < 192 {
        block_2(b0)
    } else {
        block_3(b0, b1, b2)
    };
    proof {
        lemma_decode_unused_operands(b0, b1, b2, bytes@);
    }
    Ok(i)
}

/// A decoded instruction does not depend on bytes past its encoded length:
/// decoding with the stream's own operand bytes gives the same instruction
/// as decoding with zeros in the unread places.
proof fn lemma_decode_unused_operands(b0: u8, b1: u8, b2: u8, s: Seq<u8>)
    requires
        s.len() >= 1,
        s[0] == b0,
        s.len() >= spec_operand_len(b0),
        b1 == if spec_operand_len(b0) >= 2 {
            s[1]
        } else {
            0
        },
        b2 == if spec_operand_len(b0) >= 3 {
            s[2]
        } else {
            0
        },
    ensures
        spec_decode(b0, b1, b2) == spec_decode_seq(s),
{
}

/// The recursive meaning of a whole byte stream: the instruction at the
/// front followed by the decoding of the rest, stepping by each
/// instruction's encoded length; a decode error anywhere is the error of
/// the whole stream.
pub open spec fn spec_disassemble(s: Seq<u8>) -> Result<Seq<Instruction>, DisassemblyError>
    decreases s.len(),
{
    if s.len() == 0 {
        Ok(Seq::empty())
    } else if s.len() < spec_operand_len(s[0]) {
        Err(DisassemblyError::MissingOperand(s[0]))
    } else {
        let i = spec_decode_seq(s);
        match spec_disassemble(s.skip(spec_size(i) as int)) {
            Ok(rest) => Ok(seq![i] + rest),
            Err(e) => Err(e),
        }
    }
}

/// Unfolds one step of `spec_disassemble` on a stream that holds a whole
/// first instruction.
proof fn lemma_disassemble_unfold(s: Seq<u8>)
    requires
        s.len() >= 1,
        s.len() >= spec_operand_len(s[0]),
    ensures
        ({
            let i = spec_decode_seq(s);
            spec_disassemble(s) == match spec_disassemble(s.skip(spec_size(i) as int)) {
                Ok(rest) => Ok::<Seq<Instruction>, DisassemblyError>(seq![i] + rest),
                Err(e) => Err::<Seq<Instruction>, DisassemblyError>(e),
            }
        }),
{
}

/// Decodes a whole byte stream front to back, stepping by each decoded
/// instruction's encoded length.
pub fn disassemble_program(bytes: &[u8]) -> (r: Result<Vec<Instruction>, DisassemblyError>)
    ensures
        (match r {
            Ok(v) => spec_disassemble(bytes@) == Ok::<Seq<Instruction>, DisassemblyError>(v@),
            Err(e) => spec_disassemble(bytes@) == Err::<Seq<Instruction>, DisassemblyError>(e),
        }),
{
    let mut instructions: Vec<Instruction> = Vec::new();
    let mut head: usize = 0;
    proof {
        assert(bytes@.skip(0) =~= bytes@);
        match spec_disassemble(bytes@) {
            Ok(rest) => {
                assert(instructions@ + rest =~= rest);
            },
            Err(_) => {},
        }
    }
    while head < bytes.len()
        invariant
            head <= bytes@.len(),
            (match spec_disassemble(bytes@.skip(head as int)) {
                Ok(rest) => spec_disassemble(bytes@) == Ok::<Seq<Instruction>, DisassemblyError>(
                    instructions@ + rest,
                ),
                Err(e) => spec_disassemble(bytes@) == Err::<Seq<Instruction>, DisassemblyError>(e),
            }),
        decreases bytes@.len() - head,
    {
        let rest = vstd::slice::slice_subrange(bytes, head, bytes.len());
        proof {
            assert(rest@ =~= bytes@.skip(head as int));
        }
        let instruction = match get_instruction(rest) {
            Ok(i) => i,
            Err(e) => {
                return Err(e);
            },
        };
        let size = instruction.get_size();
        let ghost prior = instructions@;
        let ghost tail = bytes@.skip(head as int);
        proof {
            assert(tail.len() >= spec_operand_len(tail[0]));
            assert(instruction == spec_decode_seq(tail));
            lemma_decode_length(
                tail[0],
                if tail.len() > 1 {
                    tail[1]
                } else {
                    0
                },
                if tail.len() > 2 {
                    tail[2]
                } else {
                    0
                },
            );
            assert(spec_size(instruction) == spec_operand_len(tail[0]));
            assert(tail.skip(size as int) =~= bytes@.skip(head + size));
            lemma_disassemble_unfold(tail);
        }
        instructions.push(instruction);
        proof {
            assert(instructions@ == prior.push(instruction));
            match spec_disassemble(bytes@.skip(head + size)) {
                Ok(rest2) => {
                    assert(spec_disassemble(tail) == Ok::<Seq<Instruction>, DisassemblyError>(
                        seq![instruction] + rest2,
                    ));
                    assert(prior + (seq![instruction] + rest2) =~= instructions@ + rest2);
                    assert(spec_disassemble(bytes@) == Ok::<Seq<Instruction>, DisassemblyError>(
                        instructions@ + rest2,
                    ));
                },
                Err(e) => {
                    assert(spec_disassemble(tail) == Err::<Seq<Instruction>, DisassemblyError>(e));
                },
            }
        }
        head = head + size;
    }
    proof {
        assert(bytes@.skip(head as int) =~= Seq::<u8>::empty());
        match spec_disassemble(bytes@.skip(head as int)) {
            Ok(rest) => {
                assert(rest.len() == 0);
                assert(instructions@ + rest =~= instructions@);
            },
            Err(_) => {},
        }
    }
    Ok(instructions)
}

} // verus!
