//! The register file: six 16-bit words (AF, BC, DE, HL, SP, PC), each of the
//! first four also addressable as two byte halves, the four flag bits of F,
//! and the interrupt-master-enable latch with its one-instruction delay.
//!
//! The flag byte F keeps Z at bit 7, N at bit 6, H at bit 5 and C at bit 4;
//! its low four bits are always zero after any write that touches F.

use vstd::prelude::*;

use crate::utils::{spec_high_byte, spec_low_byte, spec_word_of};

verus! {

/// A name for a part of the register file: a byte half, a 16-bit word, or a
/// single flag bit.
#[derive(Debug, Clone, Copy, PartialEq, Eq, Structural)]
pub enum Register {
    A,
    B,
    C,
    D,
    E,
    H,
    L,
    AF,
    BC,
    DE,
    HL,
    SP,
    PC,
    FlagZ,
    FlagN,
    FlagH,
    FlagC,
}

pub open spec fn spec_is_byte_register(r: Register) -> bool {
    r == Register::A || r == Register::B || r == Register::C || r == Register::D || r
        == Register::E || r == Register::H || r == Register::L
}

pub open spec fn spec_is_word_register(r: Register) -> bool {
    r == Register::AF || r == Register::BC || r == Register::DE || r == Register::HL || r
        == Register::SP || r == Register::PC
}

pub open spec fn spec_is_bit_register(r: Register) -> bool {
    r == Register::FlagZ || r == Register::FlagN || r == Register::FlagH || r == Register::FlagC
}

/// The CPU state: the six register words, the interrupt-master-enable latch,
/// and the pending counter that models the one-instruction delay of EI.
#[derive(Debug, Clone, Copy)]
pub struct CPU {
    pub af: u16,
    pub bc: u16,
    pub de: u16,
    pub hl: u16,
    pub sp: u16,
    pub pc: u16,
    pub ime: bool,
    pub ime_delay: Option<u8>,
}

/// The value of the flag byte with the four flags as given and the low
/// nibble zero.
pub open spec fn spec_flags_value(z: bool, n: bool, h: bool, c: bool) -> u16 {
    ((if z {
        128u16
    } else {
        0u16
    }) + (if n {
        64u16
    } else {
        0u16
    }) + (if h {
        32u16
    } else {
        0u16
    }) + (if c {
        16u16
    } else {
        0u16
    })) as u16
}

impl CPU {
    /// The low four bits of F hold no flag and stay zero.
    pub open spec fn wf(self) -> bool {
        self.af % 16 == 0
    }

    pub open spec fn spec_a(self) -> u8 {
        spec_high_byte(self.af)
    }

    pub open spec fn spec_b(self) -> u8 {
        spec_high_byte(self.bc)
    }

    pub open spec fn spec_c(self) -> u8 {
        spec_low_byte(self.bc)
    }

    pub open spec fn spec_d(self) -> u8 {
        spec_high_byte(self.de)
    }

    pub open spec fn spec_e(self) -> u8 {
        spec_low_byte(self.de)
    }

    pub open spec fn spec_h(self) -> u8 {
        spec_high_byte(self.hl)
    }

    pub open spec fn spec_l(self) -> u8 {
        spec_low_byte(self.hl)
    }

    /// Z lives at bit 7 of F, which is bit 7 of the word AF.
    pub open spec fn spec_flag_z(self) -> bool {
        (self.af / 128) % 2 == 1
    }

    /// N lives at bit 6 of F.
    pub open spec fn spec_flag_n(self) -> bool {
        (self.af / 64) % 2 == 1
    }

    /// H lives at bit 5 of F.
    pub open spec fn spec_flag_h(self) -> bool {
        (self.af / 32) % 2 == 1
    }

    /// C lives at bit 4 of F.
    pub open spec fn spec_flag_c(self) -> bool {
        (self.af / 16) % 2 == 1
    }
}

/// `c` with the word AF replaced; the low nibble of F is forced to zero.
pub open spec fn spec_with_af(c: CPU, v: u16) -> CPU {
    CPU { af: (v / 16 * 16) as u16, ..c }
}

pub open spec fn spec_with_bc(c: CPU, v: u16) -> CPU {
    CPU { bc: v, ..c }
}

pub open spec fn spec_with_de(c: CPU, v: u16) -> CPU {
    CPU { de: v, ..c }
}

pub open spec fn spec_with_hl(c: CPU, v: u16) -> CPU {
    CPU { hl: v, ..c }
}

pub open spec fn spec_with_sp(c: CPU, v: u16) -> CPU {
    CPU { sp: v, ..c }
}

pub open spec fn spec_with_pc(c: CPU, v: u16) -> CPU {
    CPU { pc: v, ..c }
}

pub open spec fn spec_with_a(c: CPU, v: u8) -> CPU {
    CPU { af: spec_word_of(v, spec_low_byte(c.af)), ..c }
}

pub open spec fn spec_with_b(c: CPU, v: u8) -> CPU {
    CPU { bc: spec_word_of(v, spec_low_byte(c.bc)), ..c }
}

pub open spec fn spec_with_c(c: CPU, v: u8) -> CPU {
    CPU { bc: spec_word_of(spec_high_byte(c.bc), v), ..c }
}

pub open spec fn spec_with_d(c: CPU, v: u8) -> CPU {
    CPU { de: spec_word_of(v, spec_low_byte(c.de)), ..c }
}

pub open spec fn spec_with_e(c: CPU, v: u8) -> CPU {
    CPU { de: spec_word_of(spec_high_byte(c.de), v), ..c }
}

pub open spec fn spec_with_h(c: CPU, v: u8) -> CPU {
    CPU { hl: spec_word_of(v, spec_low_byte(c.hl)), ..c }
}

pub open spec fn spec_with_l(c: CPU, v: u8) -> CPU {
    CPU { hl: spec_word_of(spec_high_byte(c.hl), v), ..c }
}

/// `c` with the four flags replaced and everything else, the low nibble of F
/// included, kept.
pub open spec fn spec_set_flags(c: CPU, z: bool, n: bool, h: bool, cy: bool) -> CPU {
    CPU { af: (c.af / 256 * 256 + spec_flags_value(z, n, h, cy) + c.af % 16) as u16, ..c }
}

/// Reading the flags and the byte halves back out of `spec_set_flags` gives
/// what was put in; A and the low nibble of F are untouched.
pub proof fn lemma_set_flags(c: CPU, z: bool, n: bool, h: bool, cy: bool)
    ensures
        spec_set_flags(c, z, n, h, cy).spec_flag_z() == z,
        spec_set_flags(c, z, n, h, cy).spec_flag_n() == n,
        spec_set_flags(c, z, n, h, cy).spec_flag_h() == h,
        spec_set_flags(c, z, n, h, cy).spec_flag_c() == cy,
        spec_set_flags(c, z, n, h, cy).spec_a() == c.spec_a(),
        spec_set_flags(c, z, n, h, cy).af % 16 == c.af % 16,
{
    let af = c.af;
    let zz: u16 = if z {
        1
    } else {
        0
    };
    let nn: u16 = if n {
        1
    } else {
        0
    };
    let hh: u16 = if h {
        1
    } else {
        0
    };
    let cc: u16 = if cy {
        1
    } else {
        0
    };
    let af2 = (af / 256 * 256 + (zz * 128 + nn * 64 + hh * 32 + cc * 16) + af % 16) as u16;
    assert(zz <= 1 && nn <= 1 && hh <= 1 && cc <= 1 && af2 == af / 256 * 256 + (zz * 128 + nn * 64
        + hh * 32 + cc * 16) + af % 16 ==> (af2 / 128) % 2 == zz && (af2 / 64) % 2 == nn && (af2
        / 32) % 2 == hh && (af2 / 16) % 2 == cc && af2 / 256 == af / 256 && af2 % 16 == af % 16)
        by (bit_vector);
}

/// Writing a byte half leaves the other half, and so the flags of AF, as
/// they were.
pub proof fn lemma_with_a(c: CPU, v: u8)
    ensures
        spec_with_a(c, v).spec_a() == v,
        spec_with_a(c, v).spec_flag_z() == c.spec_flag_z(),
        spec_with_a(c, v).spec_flag_n() == c.spec_flag_n(),
        spec_with_a(c, v).spec_flag_h() == c.spec_flag_h(),
        spec_with_a(c, v).spec_flag_c() == c.spec_flag_c(),
        spec_with_a(c, v).af % 16 == c.af % 16,
{
    let af = c.af;
    let af2 = spec_with_a(c, v).af;
    assert(af2 == v * 256 + af % 256 ==> (af2 / 128) % 2 == (af / 128) % 2 && (af2 / 64) % 2 == (af
        / 64) % 2 && (af2 / 32) % 2 == (af / 32) % 2 && (af2 / 16) % 2 == (af / 16) % 2 && af2 / 256
        == v && af2 % 16 == af % 16) by (bit_vector);
}

impl CPU {
    /// A fresh CPU as the boot stub leaves it: every register clear and the
    /// program counter at 0x0100.
    pub fn new() -> (r: CPU)
        ensures
            r.af == 0,
            r.bc == 0,
            r.de == 0,
            r.hl == 0,
            r.sp == 0,
            r.pc == 0x100,
            r.ime == false,
            r.ime_delay is None,
            r.wf(),
    {
        CPU { af: 0, bc: 0, de: 0, hl: 0, sp: 0, pc: 0x100, ime: false, ime_delay: None }
    }

    /// Arms the interrupt-master-enable latch; it turns on only after the
    /// next instruction has run (the delay of EI).
    pub fn enable_interupts(&mut self)
        ensures
            *final(self) == (CPU { ime_delay: Some(2u8), ..*old(self) }),
    {
        self.ime_delay = Some(2);
    }

    /// Clears the latch and any pending enable at once (DI).
    pub fn disable_interupts(&mut self)
        ensures
            *final(self) == (CPU { ime: false, ime_delay: None, ..*old(self) }),
    {
        self.ime = false;
        self.ime_delay = None;
    }

    /// One tick of the enable delay: counts a pending enable down and turns
    /// the latch on when the count runs out. Called after every instruction.
    pub fn refresh_interupt_flag(&mut self)
        ensures
            *final(self) == spec_refresh_interupt_flag(*old(self)),
    {
        match self.ime_delay {
            Some(n) => {
                if n <= 1 {
                    self.ime = true;
                    self.ime_delay = None;
                } else {
                    self.ime_delay = Some(n - 1);
                }
            },
            None => {},
        }
    }

    /// The value of a 16-bit register word.
    pub fn read_word(&self, register: &Register) -> (r: u16)
        requires
            spec_is_word_register(*register),
        ensures
            r == spec_read_word(*self, *register),
    {
        match register {
            Register::AF => self.af,
            Register::BC => self.bc,
            Register::DE => self.de,
            Register::HL => self.hl,
            Register::SP => self.sp,
            Register::PC => self.pc,
            _ => 0,
        }
    }

    /// Replaces a 16-bit register word. A write to AF forces the low four
    /// bits of F to zero, as the hardware does.
    pub fn write_word(&mut self, register: &Register, word: u16)
        requires
            spec_is_word_register(*register),
        ensures
            *final(self) == spec_write_word(*old(self), *register, word),
    {
        match register {
            Register::AF => self.af = word / 16 * 16,
            Register::BC => self.bc = word,
            Register::DE => self.de = word,
            Register::HL => self.hl = word,
            Register::SP => self.sp = word,
            Register::PC => self.pc = word,
            _ => {},
        }
    }

    /// The value of a byte half. F is not byte-addressable, so this covers
    /// A through L only.
    pub fn read_byte(&self, register: &Register) -> (r: u8)
        requires
            spec_is_byte_register(*register),
        ensures
            r == spec_read_byte(*self, *register),
    {
        match register {
            Register::A => (self.af / 256) as u8,
            Register::B => (self.bc / 256) as u8,
            Register::C => (self.bc % 256) as u8,
            Register::D => (self.de / 256) as u8,
            Register::E => (self.de % 256) as u8,
            Register::H => (self.hl / 256) as u8,
            Register::L => (self.hl % 256) as u8,
            _ => 0,
        }
    }

    /// Replaces a byte half, leaving the other half of the word as it was.
    pub fn write_byte(&mut self, register: &Register, byte: u8)
        requires
            spec_is_byte_register(*register),
        ensures
            *final(self) == spec_write_byte(*old(self), *register, byte),
    {
        match register {
            Register::A => self.af = (byte as u16) * 256 + self.af % 256,
            Register::B => self.bc = (byte as u16) * 256 + self.bc % 256,
            Register::C => self.bc = self.bc / 256 * 256 + (byte as u16),
            Register::D => self.de = (byte as u16) * 256 + self.de % 256,
            Register::E => self.de = self.de / 256 * 256 + (byte as u16),
            Register::H => self.hl = (byte as u16) * 256 + self.hl % 256,
            Register::L => self.hl = self.hl / 256 * 256 + (byte as u16),
            _ => {},
        }
    }

    /// The value of one flag bit.
    pub fn read_bit(&self, register: &Register) -> (r: bool)
        requires
            spec_is_bit_register(*register),
        ensures
            r == spec_read_bit(*self, *register),
    {
        match register {
            Register::FlagZ => (self.af / 128) % 2 == 1,
            Register::FlagN => (self.af / 64) % 2 == 1,
            Register::FlagH => (self.af / 32) % 2 == 1,
            Register::FlagC => (self.af / 16) % 2 == 1,
            _ => false,
        }
    }

    /// Replaces all four flags at once; A and the low nibble of F stay.
    pub fn set_flags(&mut self, z: bool, n: bool, h: bool, c: bool)
        ensures
            *final(self) == spec_set_flags(*old(self), z, n, h, c),
    {
        let high: u16 = self.af / 256;
        let low_nibble: u16 = self.af % 16;
        let fv: u16 = (if z {
            128
        } else {
            0
        }) + (if n {
            64
        } else {
            0
        }) + (if h {
            32
        } else {
            0
        }) + (if c {
            16
        } else {
            0
        });
        self.af = high * 256 + fv + low_nibble;
    }

    /// Replaces one flag bit, leaving the other three as they were.
    pub fn write_bit(&mut self, register: &Register, bit: bool)
        requires
            spec_is_bit_register(*register),
        ensures
            *final(self) == spec_write_bit(*old(self), *register, bit),
    {
        let z = self.read_bit(&Register::FlagZ);
        let n = self.read_bit(&Register::FlagN);
        let h = self.read_bit(&Register::FlagH);
        let c = self.read_bit(&Register::FlagC);
        match register {
            Register::FlagZ => self.set_flags(bit, n, h, c),
            Register::FlagN => self.set_flags(z, bit, h, c),
            Register::FlagH => self.set_flags(z, n, bit, c),
            Register::FlagC => self.set_flags(z, n, h, bit),
            _ => {},
        }
    }

    /// Wrapping addition on a register word.
    pub fn add_word(&mut self, register: &Register, n: u16)
        requires
            spec_is_word_register(*register),
        ensures
            *final(self) == spec_write_word(
                *old(self),
                *register,
                ((spec_read_word(*old(self), *register) + n) % 65536) as u16,
            ),
    {
        let v = self.read_word(register);
        self.write_word(register, v.wrapping_add(n));
    }

    /// Wrapping subtraction on a register word.
    pub fn sub_word(&mut self, register: &Register, n: u16)
        requires
            spec_is_word_register(*register),
        ensures
            *final(self) == spec_write_word(
                *old(self),
                *register,
                ((spec_read_word(*old(self), *register) + 65536 - n) % 65536) as u16,
            ),
    {
        let v = self.read_word(register);
        self.write_word(register, v.wrapping_sub(n));
    }

    /// Wrapping addition on a byte half.
    pub fn add_byte(&mut self, register: &Register, n: u8)
        requires
            spec_is_byte_register(*register),
        ensures
            *final(self) == spec_write_byte(
                *old(self),
                *register,
                ((spec_read_byte(*old(self), *register) + n) % 256) as u8,
            ),
    {
        let v = self.read_byte(register);
        self.write_byte(register, v.wrapping_add(n));
    }

    /// Wrapping subtraction on a byte half.
    pub fn sub_byte(&mut self, register: &Register, n: u8)
        requires
            spec_is_byte_register(*register),
        ensures
            *final(self) == spec_write_byte(
                *old(self),
                *register,
                ((spec_read_byte(*old(self), *register) + 256 - n) % 256) as u8,
            ),
    {
        let v = self.read_byte(register);
        self.write_byte(register, v.wrapping_sub(n));
    }
}

/// One tick of the EI delay, as a function on the state.
pub open spec fn spec_refresh_interupt_flag(c: CPU) -> CPU {
    match c.ime_delay {
        Some(n) => if n <= 1 {
            CPU { ime: true, ime_delay: None, ..c }
        } else {
            CPU { ime_delay: Some((n - 1) as u8), ..c }
        },
        None => c,
    }
}

pub open spec fn spec_read_word(c: CPU, r: Register) -> u16 {
    match r {
        Register::AF => c.af,
        Register::BC => c.bc,
        Register::DE => c.de,
        Register::HL => c.hl,
        Register::SP => c.sp,
        Register::PC => c.pc,
        _ => 0,
    }
}

pub open spec fn spec_write_word(c: CPU, r: Register, v: u16) -> CPU {
    match r {
        Register::AF => spec_with_af(c, v),
        Register::BC => spec_with_bc(c, v),
        Register::DE => spec_with_de(c, v),
        Register::HL => spec_with_hl(c, v),
        Register::SP => spec_with_sp(c, v),
        Register::PC => spec_with_pc(c, v),
        _ => c,
    }
}

pub open spec fn spec_read_byte(c: CPU, r: Register) -> u8 {
    match r {
        Register::A => c.spec_a(),
        Register::B => c.spec_b(),
        Register::C => c.spec_c(),
        Register::D => c.spec_d(),
        Register::E => c.spec_e(),
        Register::H => c.spec_h(),
        Register::L => c.spec_l(),
        _ => 0,
    }
}

pub open spec fn spec_write_byte(c: CPU, r: Register, v: u8) -> CPU {
    match r {
        Register::A => spec_with_a(c, v),
        Register::B => spec_with_b(c, v),
        Register::C => spec_with_c(c, v),
        Register::D => spec_with_d(c, v),
        Register::E => spec_with_e(c, v),
        Register::H => spec_with_h(c, v),
        Register::L => spec_with_l(c, v),
        _ => c,
    }
}

pub open spec fn spec_read_bit(c: CPU, r: Register) -> bool {
    match r {
        Register::FlagZ => c.spec_flag_z(),
        Register::FlagN => c.spec_flag_n(),
        Register::FlagH => c.spec_flag_h(),
        Register::FlagC => c.spec_flag_c(),
        _ => false,
    }
}

pub open spec fn spec_write_bit(c: CPU, r: Register, bit: bool) -> CPU {
    match r {
        Register::FlagZ => spec_set_flags(c, bit, c.spec_flag_n(), c.spec_flag_h(), c.spec_flag_c()),
        Register::FlagN => spec_set_flags(c, c.spec_flag_z(), bit, c.spec_flag_h(), c.spec_flag_c()),
        Register::FlagH => spec_set_flags(c, c.spec_flag_z(), c.spec_flag_n(), bit, c.spec_flag_c()),
        Register::FlagC => spec_set_flags(c, c.spec_flag_z(), c.spec_flag_n(), c.spec_flag_h(), bit),
        _ => c,
    }
}

/// Byte and word halves commute: after writing a 16-bit value to BC, the B
/// accessor reads its high byte and the C accessor its low byte.
pub proof fn lemma_word_byte_halves(c: CPU, v: u16)
    ensures
        spec_read_byte(spec_write_word(c, Register::BC, v), Register::B) == spec_high_byte(v),
        spec_read_byte(spec_write_word(c, Register::BC, v), Register::C) == spec_low_byte(v),
{
}

impl Register {
    /// Whether this name addresses a byte half (A through L).
    pub fn is_byte_register(&self) -> (r: bool)
        ensures
            r == spec_is_byte_register(*self),
    {
        matches!(
            *self,
            Register::A | Register::B | Register::C | Register::D | Register::E | Register::H
                | Register::L
        )
    }

    /// Whether this name addresses a 16-bit word.
    pub fn is_word_register(&self) -> (r: bool)
        ensures
            r == spec_is_word_register(*self),
    {
        matches!(
            *self,
            Register::AF | Register::BC | Register::DE | Register::HL | Register::SP | Register::PC
        )
    }

    /// Whether this name addresses a flag bit.
    pub fn is_bit_register(&self) -> (r: bool)
        ensures
            r == spec_is_bit_register(*self),
    {
        matches!(*self, Register::FlagZ | Register::FlagN | Register::FlagH | Register::FlagC)
    }

    /// A uniform read: a byte half as a zero-extended word, a word as is, a
    /// flag as 0 or 1.
    pub fn read(&self, cpu: &CPU) -> (r: u16)
        ensures
            spec_is_byte_register(*self) ==> r == spec_read_byte(*cpu, *self),
            spec_is_word_register(*self) ==> r == spec_read_word(*cpu, *self),
            spec_is_bit_register(*self) ==> r == (if spec_read_bit(*cpu, *self) {
                1u16
            } else {
                0u16
            }),
    {
        if self.is_byte_register() {
            cpu.read_byte(self) as u16
        } else if self.is_word_register() {
            cpu.read_word(self)
        } else {
            if cpu.read_bit(self) {
                1
            } else {
                0
            }
        }
    }

    /// A uniform write: the low byte of `data` to a byte half, the whole
    /// word to a word register, the lowest bit to a flag.
    pub fn write(&self, cpu: &mut CPU, data: u16)
        ensures
            spec_is_byte_register(*self) ==> *final(cpu) == spec_write_byte(
                *old(cpu),
                *self,
                spec_low_byte(data),
            ),
            spec_is_word_register(*self) ==> *final(cpu) == spec_write_word(*old(cpu), *self, data),
            spec_is_bit_register(*self) ==> *final(cpu) == spec_write_bit(
                *old(cpu),
                *self,
                data % 2 == 1,
            ),
    {
        if self.is_byte_register() {
            cpu.write_byte(self, (data % 256) as u8);
        } else if self.is_word_register() {
            cpu.write_word(self, data);
        } else {
            cpu.write_bit(self, data % 2 == 1);
        }
    }
}

} // verus!
