//! The instruction executor: a function from an instruction, the register
//! file and the memory map to the machine-cycle cost of the instruction,
//! mutating registers, memory and flags on the way.
//!
//! Flag semantics:
//! - Z is set exactly when the 8-bit result is zero (per-operation rules for
//!   the 16-bit forms);
//! - N is set on subtractive operations and cleared on additive and logical
//!   ones;
//! - H records a carry across bit 3 (bit 11 for ADD HL,r16), a borrow into
//!   bit 4 for subtractions;
//! - C records a carry beyond bit 7 (bit 15 for 16-bit), the rotated-out bit
//!   for rotates, and the SCF/CCF rules.

use vstd::prelude::*;
use vstd::string::StringExecFns;

use crate::cpu::{
    spec_read_byte, spec_read_word, spec_set_flags, spec_with_a, spec_with_af, spec_with_bc,
    spec_with_de, spec_with_hl, spec_with_pc, spec_with_sp, spec_write_byte, spec_write_word, CPU,
    Register,
};
use crate::decoder::{Cond, Instruction, R16, R16mem, R16stk, R8};
use crate::memory::{spec_word_at, spec_write_word_at, MemoryMap};

verus! {

/// What can stop execution: an instruction the executor does not accept
/// (with a diagnostic message), or a memory access past the end of the
/// address space.
#[derive(Debug)]
pub enum ExecutionError {
    IllegalInstructionError(Instruction, String),
    MemoryOutOfBoundsError(usize),
}

/// The register behind an r16 selector.
pub open spec fn spec_r16_register(r: R16) -> Register {
    match r {
        R16::BC => Register::BC,
        R16::DE => Register::DE,
        R16::HL => Register::HL,
        R16::SP => Register::SP,
    }
}

/// The register behind an r16stk selector; AF takes the place of SP.
pub open spec fn spec_r16stk_register(r: R16stk) -> Register {
    match r {
        R16stk::BC => Register::BC,
        R16stk::DE => Register::DE,
        R16stk::HL => Register::HL,
        R16stk::AF => Register::AF,
    }
}

/// The byte register behind an r8 selector; `[HL]` is not a register and is
/// mapped to HL only as a placeholder the executor never reads through.
pub open spec fn spec_r8_register(r: R8) -> Register {
    match r {
        R8::B => Register::B,
        R8::C => Register::C,
        R8::D => Register::D,
        R8::E => Register::E,
        R8::H => Register::H,
        R8::L => Register::L,
        R8::AddrHL => Register::HL,
        R8::A => Register::A,
    }
}

/// The value an 8-bit source selector denotes: a byte register, or the byte
/// in memory at address HL.
pub open spec fn spec_r8_value(c: CPU, m: Seq<u8>, r: R8) -> u8 {
    if r == R8::AddrHL {
        m[c.hl as int]
    } else {
        spec_read_byte(c, spec_r8_register(r))
    }
}

/// The address an r16mem selector denotes.
pub open spec fn spec_r16mem_addr(c: CPU, r: R16mem) -> u16 {
    match r {
        R16mem::BC => c.bc,
        R16mem::DE => c.de,
        R16mem::IncrHL => c.hl,
        R16mem::DecrHL => c.hl,
    }
}

/// The post-modification of an r16mem access: HL+ increments HL by one, HL-
/// decrements it, BC and DE leave everything alone.
pub open spec fn spec_r16mem_post(c: CPU, r: R16mem) -> CPU {
    match r {
        R16mem::IncrHL => spec_with_hl(c, ((c.hl + 1) % 65536) as u16),
        R16mem::DecrHL => spec_with_hl(c, ((c.hl + 65536 - 1) % 65536) as u16),
        _ => c,
    }
}

/// Whether a branch condition holds: the selected flag, with the selected
/// polarity.
pub open spec fn spec_cond_holds(c: CPU, cond: Cond) -> bool {
    match cond {
        Cond::NotZ => !c.spec_flag_z(),
        Cond::Z => c.spec_flag_z(),
        Cond::NotC => !c.spec_flag_c(),
        Cond::C => c.spec_flag_c(),
    }
}

/// The carry flag as a 0-or-1 addend.
pub open spec fn spec_cin(c: CPU) -> u8 {
    if c.spec_flag_c() {
        1u8
    } else {
        0u8
    }
}

/// 8-bit addition into A with a carry-in: A wraps modulo 256; Z from the
/// result, N clear, H when the low nibbles and the carry-in sum to 16 or
/// more, C when the whole sum passes 255.
pub open spec fn spec_alu_add(c: CPU, b: u8, cin: u8) -> CPU {
    let a = c.spec_a();
    let r = ((a + b + cin) % 256) as u8;
    spec_set_flags(spec_with_a(c, r), r == 0, false, a % 16 + b % 16 + cin > 15, a + b + cin > 255)
}

/// 8-bit subtraction from A with a borrow-in: A wraps modulo 256; Z from
/// the result, N set, H when the subtrahend's low nibble plus the borrow-in
/// exceeds A's, C when the whole subtrahend exceeds A.
pub open spec fn spec_alu_sub(c: CPU, b: u8, cin: u8) -> CPU {
    let a = c.spec_a();
    let r = ((a + 512 - b - cin) % 256) as u8;
    spec_set_flags(spec_with_a(c, r), r == 0, true, a % 16 < b % 16 + cin, a < b + cin)
}

/// CP: the flags of a subtraction, with A left untouched.
pub open spec fn spec_alu_cp(c: CPU, b: u8) -> CPU {
    let a = c.spec_a();
    let r = ((a + 512 - b) % 256) as u8;
    spec_set_flags(c, r == 0, true, a % 16 < b % 16, a < b)
}

/// AND into A: Z from the result, N clear, H set, C clear.
pub open spec fn spec_alu_and(c: CPU, b: u8) -> CPU {
    let r = c.spec_a() & b;
    spec_set_flags(spec_with_a(c, r), r == 0, false, true, false)
}

/// XOR into A: Z from the result, N, H and C clear.
pub open spec fn spec_alu_xor(c: CPU, b: u8) -> CPU {
    let r = c.spec_a() ^ b;
    spec_set_flags(spec_with_a(c, r), r == 0, false, false, false)
}

/// OR into A: Z from the result, N, H and C clear.
pub open spec fn spec_alu_or(c: CPU, b: u8) -> CPU {
    let r = c.spec_a() | b;
    spec_set_flags(spec_with_a(c, r), r == 0, false, false, false)
}

/// ADD HL,r16: HL wraps modulo 2^16; Z untouched, N clear, H on a carry
/// across bit 11, C on a carry beyond bit 15.
pub open spec fn spec_add_hl(c: CPU, v: u16) -> CPU {
    spec_set_flags(
        spec_with_hl(c, ((c.hl + v) % 65536) as u16),
        c.spec_flag_z(),
        false,
        c.hl % 4096 + v % 4096 > 4095,
        c.hl + v > 65535,
    )
}

/// The value DAA leaves in A: per the N, H and C flags and the nibbles of
/// `a`, 0x06 and 0x60 are added (N clear) or subtracted (N set), wrapping
/// modulo 256.
pub open spec fn spec_daa_value(a: u8, n: bool, h: bool, cy: bool) -> u8 {
    if !n {
        let adj = (if h || a % 16 > 9 {
            6int
        } else {
            0int
        }) + (if cy || a > 0x99 {
            0x60int
        } else {
            0int
        });
        ((a + adj) % 256) as u8
    } else {
        let adj = (if h {
            6int
        } else {
            0int
        }) + (if cy {
            0x60int
        } else {
            0int
        });
        ((a + 512 - adj) % 256) as u8
    }
}

/// The carry DAA leaves: set in the add branch when the value passed 0x99,
/// preserved in the subtract branch.
pub open spec fn spec_daa_carry(a: u8, n: bool, cy: bool) -> bool {
    if !n {
        cy || a > 0x99
    } else {
        cy
    }
}

/// DAA, the decimal adjust of A after an addition or subtraction of
/// binary-coded decimals: A takes `spec_daa_value`; Z comes from the
/// adjusted A, N is untouched, H is cleared, and C takes `spec_daa_carry`.
pub open spec fn spec_daa(c: CPU) -> CPU {
    let a = c.spec_a();
    let n = c.spec_flag_n();
    let r = spec_daa_value(a, n, c.spec_flag_h(), c.spec_flag_c());
    spec_set_flags(spec_with_a(c, r), r == 0, n, false, spec_daa_carry(a, n, c.spec_flag_c()))
}

/// CPL: A is complemented; N and H set, Z and C untouched.
pub open spec fn spec_cpl(c: CPU) -> CPU {
    spec_set_flags(spec_with_a(c, !c.spec_a()), c.spec_flag_z(), true, true, c.spec_flag_c())
}

/// SCF: C set, N and H clear, Z untouched.
pub open spec fn spec_scf(c: CPU) -> CPU {
    spec_set_flags(c, c.spec_flag_z(), false, false, true)
}

/// CCF: C toggled, N and H clear, Z untouched.
pub open spec fn spec_ccf(c: CPU) -> CPU {
    spec_set_flags(c, c.spec_flag_z(), false, false, !c.spec_flag_c())
}

/// RLCA: A rotated left by one, the old bit 7 into both bit 0 and C;
/// Z, N and H clear.
pub open spec fn spec_rlca(c: CPU) -> CPU {
    let a = c.spec_a();
    let r = ((a % 128) * 2 + a / 128) as u8;
    spec_set_flags(spec_with_a(c, r), false, false, false, a / 128 == 1)
}

/// RRCA: A rotated right by one, the old bit 0 into both bit 7 and C;
/// Z, N and H clear.
pub open spec fn spec_rrca(c: CPU) -> CPU {
    let a = c.spec_a();
    let r = ((a / 2) + (a % 2) * 128) as u8;
    spec_set_flags(spec_with_a(c, r), false, false, false, a % 2 == 1)
}

/// RLA: A rotated left through the carry: the old C into bit 0, the old
/// bit 7 into C; Z, N and H clear.
pub open spec fn spec_rla(c: CPU) -> CPU {
    let a = c.spec_a();
    let r = ((a % 128) * 2 + spec_cin(c)) as u8;
    spec_set_flags(spec_with_a(c, r), false, false, false, a / 128 == 1)
}

/// RRA: A rotated right through the carry: the old C into bit 7, the old
/// bit 0 into C; Z, N and H clear.
pub open spec fn spec_rra(c: CPU) -> CPU {
    let a = c.spec_a();
    let r = ((a / 2) + (if c.spec_flag_c() {
        128int
    } else {
        0int
    })) as u8;
    spec_set_flags(spec_with_a(c, r), false, false, false, a % 2 == 1)
}

/// The target of a relative jump: PC plus the sign-extended 8-bit offset,
/// wrapping modulo 2^16. PC has already been advanced past the instruction.
pub open spec fn spec_jr_target(pc: u16, offset: u8) -> u16 {
    if offset < 128 {
        ((pc + offset) % 65536) as u16
    } else {
        ((pc + 65536 - (256 - offset)) % 65536) as u16
    }
}

/// The instructions the executor refuses outright: undefined opcodes, and
/// the LD [HL], [HL] slot that HALT occupies in the encoding.
pub open spec fn spec_illegal(i: Instruction) -> bool {
    (i matches Instruction::Unknown(_)) || i == Instruction::LdR8R8(R8::AddrHL, R8::AddrHL)
}

/// The address a failing memory access names: the operand address of
/// LD [imm16],SP, the stack pointer for the reads of RET and POP, and the
/// top of memory for the one address PUSH can fail on.
pub open spec fn spec_fault_addr(i: Instruction, c: CPU) -> usize {
    match i {
        Instruction::LdAddrImm16Sp(a) => a as usize,
        Instruction::Ret => c.sp as usize,
        Instruction::Reti => c.sp as usize,
        Instruction::RetCond(_) => c.sp as usize,
        Instruction::PopR16stk(_) => c.sp as usize,
        Instruction::PushR16stk(_) => 65535,
        _ => 0,
    }
}

/// The meaning of one instruction: the new CPU state, the new memory and
/// the M-cycle cost, or `None` where execution faults (an illegal
/// instruction, or a 16-bit memory access that would run past the end of
/// the address space). The memory `m` covers the whole address space.
pub open spec fn spec_execute(i: Instruction, c: CPU, m: Seq<u8>) -> Option<(CPU, Seq<u8>, u32)> {
    match i {
        Instruction::Unknown(_) => None,
        Instruction::NOP => Some((c, m, 1)),
        Instruction::RLCA => Some((spec_rlca(c), m, 1)),
        Instruction::RRCA => Some((spec_rrca(c), m, 1)),
        Instruction::RLA => Some((spec_rla(c), m, 1)),
        Instruction::RRA => Some((spec_rra(c), m, 1)),
        Instruction::DAA => Some((spec_daa(c), m, 1)),
        Instruction::CPL => Some((spec_cpl(c), m, 1)),
        Instruction::SCF => Some((spec_scf(c), m, 1)),
        Instruction::CCF => Some((spec_ccf(c), m, 1)),
        Instruction::STOP => Some((c, m, 1)),
        Instruction::HALT => Some((c, m, 1)),
        Instruction::DI => Some((CPU { ime: false, ime_delay: None, ..c }, m, 1)),
        Instruction::EI => Some((CPU { ime_delay: Some(2u8), ..c }, m, 1)),
        Instruction::LdR16Imm16(dst, v) => Some(
            (spec_write_word(c, spec_r16_register(dst), v), m, 3),
        ),
        Instruction::LdR16memA(dst) => Some(
            (
                spec_r16mem_post(c, dst),
                m.update(spec_r16mem_addr(c, dst) as int, c.spec_a()),
                2,
            ),
        ),
        Instruction::LdAR16mem(src) => Some(
            (spec_r16mem_post(spec_with_a(c, m[spec_r16mem_addr(c, src) as int]), src), m, 2),
        ),
        Instruction::LdAddrImm16Sp(a) => if a < 65535 {
            Some((c, spec_write_word_at(m, a as int, c.sp), 5))
        } else {
            None
        },
        Instruction::LdR8Imm8(dst, v) => if dst == R8::AddrHL {
            Some((c, m.update(c.hl as int, v), 2))
        } else {
            Some((spec_write_byte(c, spec_r8_register(dst), v), m, 2))
        },
        Instruction::LdR8R8(dst, src) => if dst == R8::AddrHL && src == R8::AddrHL {
            None
        } else if src == R8::AddrHL {
            Some((spec_write_byte(c, spec_r8_register(dst), m[c.hl as int]), m, 1))
        } else if dst == R8::AddrHL {
            Some((c, m.update(c.hl as int, spec_read_byte(c, spec_r8_register(src))), 1))
        } else {
            Some(
                (
                    spec_write_byte(
                        c,
                        spec_r8_register(dst),
                        spec_read_byte(c, spec_r8_register(src)),
                    ),
                    m,
                    1,
                ),
            )
        },
        Instruction::LdAddrImm16A(a) => Some((c, m.update(a as int, c.spec_a()), 3)),
        Instruction::LdAAddrImm16(a) => Some((spec_with_a(c, m[a as int]), m, 2)),
        Instruction::LdhAddrCA => Some((c, m.update(0xFF00 + c.spec_c(), c.spec_a()), 2)),
        Instruction::LdhAAddrC => Some((spec_with_a(c, m[0xFF00 + c.spec_c()]), m, 2)),
        Instruction::LdhAddrImm8A(o) => Some((c, m.update(0xFF00 + o, c.spec_a()), 3)),
        Instruction::LdhAAddrImm8(o) => Some((spec_with_a(c, m[0xFF00 + o]), m, 3)),
        Instruction::IncR8(r8) => if r8 == R8::AddrHL {
            let v = m[c.hl as int];
            let res = ((v + 1) % 256) as u8;
            Some(
                (
                    spec_set_flags(c, res == 0, false, v % 16 == 15, c.spec_flag_c()),
                    m.update(c.hl as int, res),
                    3,
                ),
            )
        } else {
            let v = spec_read_byte(c, spec_r8_register(r8));
            let res = ((v + 1) % 256) as u8;
            Some(
                (
                    spec_set_flags(
                        spec_write_byte(c, spec_r8_register(r8), res),
                        res == 0,
                        false,
                        v % 16 == 15,
                        c.spec_flag_c(),
                    ),
                    m,
                    1,
                ),
            )
        },
        Instruction::DecR8(r8) => if r8 == R8::AddrHL {
            let v = m[c.hl as int];
            let res = ((v + 255) % 256) as u8;
            Some(
                (
                    spec_set_flags(c, res == 0, true, v % 16 == 0, c.spec_flag_c()),
                    m.update(c.hl as int, res),
                    3,
                ),
            )
        } else {
            let v = spec_read_byte(c, spec_r8_register(r8));
            let res = ((v + 255) % 256) as u8;
            Some(
                (
                    spec_set_flags(
                        spec_write_byte(c, spec_r8_register(r8), res),
                        res == 0,
                        true,
                        v % 16 == 0,
                        c.spec_flag_c(),
                    ),
                    m,
                    1,
                ),
            )
        },
        Instruction::IncR16(r16) => {
            let reg = spec_r16_register(r16);
            Some((spec_write_word(c, reg, ((spec_read_word(c, reg) + 1) % 65536) as u16), m, 2))
        },
        Instruction::DecR16(r16) => {
            let reg = spec_r16_register(r16);
            Some(
                (
                    spec_write_word(c, reg, ((spec_read_word(c, reg) + 65536 - 1) % 65536) as u16),
                    m,
                    2,
                ),
            )
        },
        Instruction::AddHlR16(r16) => Some(
            (spec_add_hl(c, spec_read_word(c, spec_r16_register(r16))), m, 2),
        ),
        Instruction::AddAR8(r8) => Some(
            (
                spec_alu_add(c, spec_r8_value(c, m, r8), 0),
                m,
                if r8 == R8::AddrHL {
                    2
                } else {
                    1
                },
            ),
        ),
        Instruction::AdcAR8(r8) => Some(
            (
                spec_alu_add(c, spec_r8_value(c, m, r8), spec_cin(c)),
                m,
                if r8 == R8::AddrHL {
                    2
                } else {
                    1
                },
            ),
        ),
        Instruction::SubAR8(r8) => Some(
            (
                spec_alu_sub(c, spec_r8_value(c, m, r8), 0),
                m,
                if r8 == R8::AddrHL {
                    2
                } else {
                    1
                },
            ),
        ),
        Instruction::SbcAR8(r8) => Some(
            (
                spec_alu_sub(c, spec_r8_value(c, m, r8), spec_cin(c)),
                m,
                if r8 == R8::AddrHL {
                    2
                } else {
                    1
                },
            ),
        ),
        Instruction::AndAR8(r8) => Some(
            (
                spec_alu_and(c, spec_r8_value(c, m, r8)),
                m,
                if r8 == R8::AddrHL {
                    2
                } else {
                    1
                },
            ),
        ),
        Instruction::XorAR8(r8) => Some(
            (
                spec_alu_xor(c, spec_r8_value(c, m, r8)),
                m,
                if r8 == R8::AddrHL {
                    2
                } else {
                    1
                },
            ),
        ),
        Instruction::OrAR8(r8) => Some(
            (
                spec_alu_or(c, spec_r8_value(c, m, r8)),
                m,
                if r8 == R8::AddrHL {
                    2
                } else {
                    1
                },
            ),
        ),
        Instruction::CpAR8(r8) => Some(
            (
                spec_alu_cp(c, spec_r8_value(c, m, r8)),
                m,
                if r8 == R8::AddrHL {
                    2
                } else {
                    1
                },
            ),
        ),
        Instruction::AddAImm8(b) => Some((spec_alu_add(c, b, 0), m, 2)),
        Instruction::AdcAImm8(b) => Some((spec_alu_add(c, b, spec_cin(c)), m, 2)),
        Instruction::SubAImm8(b) => Some((spec_alu_sub(c, b, 0), m, 2)),
        Instruction::SbcAImm8(b) => Some((spec_alu_sub(c, b, spec_cin(c)), m, 2)),
        Instruction::AndAImm8(b) => Some((spec_alu_and(c, b), m, 2)),
        Instruction::XorAImm8(b) => Some((spec_alu_xor(c, b), m, 2)),
        Instruction::OrAImm8(b) => Some((spec_alu_or(c, b), m, 2)),
        Instruction::CpAImm8(b) => Some((spec_alu_cp(c, b), m, 2)),
        Instruction::JrImm8(o) => Some((spec_with_pc(c, spec_jr_target(c.pc, o)), m, 2)),
        Instruction::JrCondImm8(cond, o) => if spec_cond_holds(c, cond) {
            Some((spec_with_pc(c, spec_jr_target(c.pc, o)), m, 3))
        } else {
            Some((c, m, 2))
        },
        Instruction::JpImm16(a) => Some((spec_with_pc(c, a), m, 4)),
        Instruction::JpCondImm16(cond, a) => if spec_cond_holds(c, cond) {
            Some((spec_with_pc(c, a), m, 4))
        } else {
            Some((c, m, 3))
        },
        Instruction::JpHl => Some((spec_with_pc(c, c.hl), m, 1)),
        Instruction::Ret => if c.sp < 65535 {
            Some(
                (
                    spec_with_sp(
                        spec_with_pc(c, spec_word_at(m, c.sp as int)),
                        ((c.sp + 2) % 65536) as u16,
                    ),
                    m,
                    4,
                ),
            )
        } else {
            None
        },
        Instruction::Reti => if c.sp < 65535 {
            Some(
                (
                    CPU {
                        ime: true,
                        ..spec_with_sp(
                            spec_with_pc(c, spec_word_at(m, c.sp as int)),
                            ((c.sp + 2) % 65536) as u16,
                        )
                    },
                    m,
                    4,
                ),
            )
        } else {
            None
        },
        Instruction::RetCond(cond) => if !spec_cond_holds(c, cond) {
            Some((c, m, 2))
        } else if c.sp < 65535 {
            Some(
                (
                    spec_with_sp(
                        spec_with_pc(c, spec_word_at(m, c.sp as int)),
                        ((c.sp + 2) % 65536) as u16,
                    ),
                    m,
                    5,
                ),
            )
        } else {
            None
        },
        Instruction::PushR16stk(r) => {
            let sp2 = ((c.sp + 65536 - 2) % 65536) as u16;
            if sp2 < 65535 {
                Some(
                    (
                        spec_with_sp(c, sp2),
                        spec_write_word_at(m, sp2 as int, spec_read_word(c, spec_r16stk_register(r))),
                        4,
                    ),
                )
            } else {
                None
            }
        },
        Instruction::PopR16stk(r) => if c.sp < 65535 {
            Some(
                (
                    spec_with_sp(
                        spec_write_word(c, spec_r16stk_register(r), spec_word_at(m, c.sp as int)),
                        ((c.sp + 2) % 65536) as u16,
                    ),
                    m,
                    3,
                ),
            )
        } else {
            None
        },
    }
}

fn r16_register(r: &R16) -> (reg: Register)
    ensures
        reg == spec_r16_register(*r),
{
    match r {
        R16::BC => Register::BC,
        R16::DE => Register::DE,
        R16::HL => Register::HL,
        R16::SP => Register::SP,
    }
}

fn r16stk_register(r: &R16stk) -> (reg: Register)
    ensures
        reg == spec_r16stk_register(*r),
{
    match r {
        R16stk::BC => Register::BC,
        R16stk::DE => Register::DE,
        R16stk::HL => Register::HL,
        R16stk::AF => Register::AF,
    }
}

fn r8_register(r: &R8) -> (reg: Register)
    ensures
        reg == spec_r8_register(*r),
{
    match r {
        R8::B => Register::B,
        R8::C => Register::C,
        R8::D => Register::D,
        R8::E => Register::E,
        R8::H => Register::H,
        R8::L => Register::L,
        R8::AddrHL => Register::HL,
        R8::A => Register::A,
    }
}

/// A byte read that cannot fault: every 16-bit address lies inside the
/// 64 KiB map.
fn mem_read_byte_in(mem_map: &MemoryMap, addr: u16) -> (r: u8)
    requires
        mem_map.wf(),
    ensures
        r == mem_map@[addr as int],
{
    match mem_map.read_byte(addr as usize) {
        Ok(v) => v,
        Err(_) => 0,
    }
}

/// A byte write that cannot fault.
fn mem_write_byte_in(mem_map: &mut MemoryMap, addr: u16, v: u8)
    requires
        old(mem_map).wf(),
    ensures
        final(mem_map)@ == old(mem_map)@.update(addr as int, v),
        final(mem_map).wf(),
{
    let _ = mem_map.write_byte(addr as usize, v);
}

/// Whether the branch condition holds of the current flags: the flag the
/// condition selects, with the polarity it asks for.
fn cond_holds(cpu: &CPU, cond: &Cond) -> (r: bool)
    ensures
        r == spec_cond_holds(*cpu, *cond),
{
    match cond {
        Cond::NotZ => !cpu.read_bit(&Register::FlagZ),
        Cond::Z => cpu.read_bit(&Register::FlagZ),
        Cond::NotC => !cpu.read_bit(&Register::FlagC),
        Cond::C => cpu.read_bit(&Register::FlagC),
    }
}

/// The carry flag as a 0-or-1 addend for ADC and SBC.
fn carry_in(cpu: &CPU) -> (r: u8)
    ensures
        r == spec_cin(*cpu),
{
    if cpu.read_bit(&Register::FlagC) {
        1
    } else {
        0
    }
}

/// The core of ADD and ADC: adds `b` and the carry-in into A and writes all
/// four flags.
fn alu_add(cpu: &mut CPU, b: u8, cin: u8)
    requires
        cin <= 1,
    ensures
        *final(cpu) == spec_alu_add(*old(cpu), b, cin),
{
    let a = cpu.read_byte(&Register::A);
    let sum: u16 = a as u16 + b as u16 + cin as u16;
    let res: u8 = (sum % 256) as u8;
    let half = a % 16 + b % 16 + cin > 15;
    let carry = sum > 255;
    cpu.write_byte(&Register::A, res);
    cpu.set_flags(res == 0, false, half, carry);
}

/// The core of SUB and SBC: subtracts `b` and the borrow-in from A and
/// writes all four flags.
fn alu_sub(cpu: &mut CPU, b: u8, cin: u8)
    requires
        cin <= 1,
    ensures
        *final(cpu) == spec_alu_sub(*old(cpu), b, cin),
{
    let a = cpu.read_byte(&Register::A);
    let diff: u16 = (a as u16 + 512 - b as u16 - cin as u16) % 256;
    let res: u8 = diff as u8;
    let half = (a % 16 as u8) < b % 16 + cin;
    let borrow = (a as u16) < b as u16 + cin as u16;
    cpu.write_byte(&Register::A, res);
    cpu.set_flags(res == 0, true, half, borrow);
}

fn execute_add_a_imm8(cpu: &mut CPU, byte: u8) -> (r: u32)
    ensures
        *final(cpu) == spec_alu_add(*old(cpu), byte, 0),
        r == 2,
{
    alu_add(cpu, byte, 0);
    2
}

fn execute_adc_a_imm8(cpu: &mut CPU, byte: u8) -> (r: u32)
    ensures
        *final(cpu) == spec_alu_add(*old(cpu), byte, spec_cin(*old(cpu))),
        r == 2,
{
    let cin = carry_in(cpu);
    alu_add(cpu, byte, cin);
    2
}

fn execute_sub_a_imm8(cpu: &mut CPU, byte: u8) -> (r: u32)
    ensures
        *final(cpu) == spec_alu_sub(*old(cpu), byte, 0),
        r == 2,
{
    alu_sub(cpu, byte, 0);
    2
}

fn execute_sbc_a_imm8(cpu: &mut CPU, byte: u8) -> (r: u32)
    ensures
        *final(cpu) == spec_alu_sub(*old(cpu), byte, spec_cin(*old(cpu))),
        r == 2,
{
    let cin = carry_in(cpu);
    alu_sub(cpu, byte, cin);
    2
}

fn execute_and_a_imm8(cpu: &mut CPU, byte: u8) -> (r: u32)
    ensures
        *final(cpu) == spec_alu_and(*old(cpu), byte),
        r == 2,
{
    let a = cpu.read_byte(&Register::A);
    let res = a & byte;
    cpu.write_byte(&Register::A, res);
    cpu.set_flags(res == 0, false, true, false);
    2
}

fn execute_xor_a_imm8(cpu: &mut CPU, byte: u8) -> (r: u32)
    ensures
        *final(cpu) == spec_alu_xor(*old(cpu), byte),
        r == 2,
{
    let a = cpu.read_byte(&Register::A);
    let res = a ^ byte;
    cpu.write_byte(&Register::A, res);
    cpu.set_flags(res == 0, false, false, false);
    2
}

fn execute_or_a_imm8(cpu: &mut CPU, byte: u8) -> (r: u32)
    ensures
        *final(cpu) == spec_alu_or(*old(cpu), byte),
        r == 2,
{
    let a = cpu.read_byte(&Register::A);
    let res = a | byte;
    cpu.write_byte(&Register::A, res);
    cpu.set_flags(res == 0, false, false, false);
    2
}

fn execute_cp_a_imm8(cpu: &mut CPU, byte: u8) -> (r: u32)
    ensures
        *final(cpu) == spec_alu_cp(*old(cpu), byte),
        r == 2,
{
    let a = cpu.read_byte(&Register::A);
    let diff: u16 = (a as u16 + 512 - byte as u16) % 256;
    let res: u8 = diff as u8;
    cpu.set_flags(res == 0, true, a % 16 < byte % 16, a < byte);
    2
}

/// The value of an 8-bit source: the byte register, or the byte at HL.
fn read_r8_value(mem_map: &MemoryMap, cpu: &CPU, r8: &R8) -> (r: u8)
    requires
        mem_map.wf(),
    ensures
        r == spec_r8_value(*cpu, mem_map@, *r8),
{
    if matches!(r8, R8::AddrHL) {
        mem_read_byte_in(mem_map, cpu.read_word(&Register::HL))
    } else {
        cpu.read_byte(&r8_register(r8))
    }
}

fn execute_add_a_r8(mem_map: &MemoryMap, cpu: &mut CPU, r8: &R8) -> (r: u32)
    requires
        mem_map.wf(),
    ensures
        *final(cpu) == spec_alu_add(*old(cpu), spec_r8_value(*old(cpu), mem_map@, *r8), 0),
        r == if *r8 == R8::AddrHL {
            2u32
        } else {
            1u32
        },
{
    let v = read_r8_value(mem_map, cpu, r8);
    alu_add(cpu, v, 0);
    if matches!(r8, R8::AddrHL) {
        2
    } else {
        1
    }
}

fn execute_adc_a_r8(mem_map: &MemoryMap, cpu: &mut CPU, r8: &R8) -> (r: u32)
    requires
        mem_map.wf(),
    ensures
        *final(cpu) == spec_alu_add(
            *old(cpu),
            spec_r8_value(*old(cpu), mem_map@, *r8),
            spec_cin(*old(cpu)),
        ),
        r == if *r8 == R8::AddrHL {
            2u32
        } else {
            1u32
        },
{
    let cin = carry_in(cpu);
    let v = read_r8_value(mem_map, cpu, r8);
    alu_add(cpu, v, cin);
    if matches!(r8, R8::AddrHL) {
        2
    } else {
        1
    }
}

fn execute_sub_a_r8(mem_map: &MemoryMap, cpu: &mut CPU, r8: &R8) -> (r: u32)
    requires
        mem_map.wf(),
    ensures
        *final(cpu) == spec_alu_sub(*old(cpu), spec_r8_value(*old(cpu), mem_map@, *r8), 0),
        r == if *r8 == R8::AddrHL {
            2u32
        } else {
            1u32
        },
{
    let v = read_r8_value(mem_map, cpu, r8);
    alu_sub(cpu, v, 0);
    if matches!(r8, R8::AddrHL) {
        2
    } else {
        1
    }
}

fn execute_sbc_a_r8(mem_map: &MemoryMap, cpu: &mut CPU, r8: &R8) -> (r: u32)
    requires
        mem_map.wf(),
    ensures
        *final(cpu) == spec_alu_sub(
            *old(cpu),
            spec_r8_value(*old(cpu), mem_map@, *r8),
            spec_cin(*old(cpu)),
        ),
        r == if *r8 == R8::AddrHL {
            2u32
        } else {
            1u32
        },
{
    let cin = carry_in(cpu);
    let v = read_r8_value(mem_map, cpu, r8);
    alu_sub(cpu, v, cin);
    if matches!(r8, R8::AddrHL) {
        2
    } else {
        1
    }
}

fn execute_and_a_r8(mem_map: &MemoryMap, cpu: &mut CPU, r8: &R8) -> (r: u32)
    requires
        mem_map.wf(),
    ensures
        *final(cpu) == spec_alu_and(*old(cpu), spec_r8_value(*old(cpu), mem_map@, *r8)),
        r == if *r8 == R8::AddrHL {
            2u32
        } else {
            1u32
        },
{
    let v = read_r8_value(mem_map, cpu, r8);
    execute_and_a_imm8(cpu, v);
    if matches!(r8, R8::AddrHL) {
        2
    } else {
        1
    }
}

fn execute_xor_a_r8(mem_map: &MemoryMap, cpu: &mut CPU, r8: &R8) -> (r: u32)
    requires
        mem_map.wf(),
    ensures
        *final(cpu) == spec_alu_xor(*old(cpu), spec_r8_value(*old(cpu), mem_map@, *r8)),
        r == if *r8 == R8::AddrHL {
            2u32
        } else {
            1u32
        },
{
    let v = read_r8_value(mem_map, cpu, r8);
    execute_xor_a_imm8(cpu, v);
    if matches!(r8, R8::AddrHL) {
        2
    } else {
        1
    }
}

fn execute_or_a_r8(mem_map: &MemoryMap, cpu: &mut CPU, r8: &R8) -> (r: u32)
    requires
        mem_map.wf(),
    ensures
        *final(cpu) == spec_alu_or(*old(cpu), spec_r8_value(*old(cpu), mem_map@, *r8)),
        r == if *r8 == R8::AddrHL {
            2u32
        } else {
            1u32
        },
{
    let v = read_r8_value(mem_map, cpu, r8);
    execute_or_a_imm8(cpu, v);
    if matches!(r8, R8::AddrHL) {
        2
    } else {
        1
    }
}

fn execute_cp_a_r8(mem_map: &MemoryMap, cpu: &mut CPU, r8: &R8) -> (r: u32)
    requires
        mem_map.wf(),
    ensures
        *final(cpu) == spec_alu_cp(*old(cpu), spec_r8_value(*old(cpu), mem_map@, *r8)),
        r == if *r8 == R8::AddrHL {
            2u32
        } else {
            1u32
        },
{
    let v = read_r8_value(mem_map, cpu, r8);
    execute_cp_a_imm8(cpu, v);
    if matches!(r8, R8::AddrHL) {
        2
    } else {
        1
    }
}

fn execute_daa(cpu: &mut CPU) -> (r: u32)
    ensures
        *final(cpu) == spec_daa(*old(cpu)),
        r == 1,
{
    let a = cpu.read_byte(&Register::A);
    let n = cpu.read_bit(&Register::FlagN);
    let h = cpu.read_bit(&Register::FlagH);
    let c = cpu.read_bit(&Register::FlagC);
    if !n {
        let mut adjustment: u16 = 0;
        if h || a % 16 > 9 {
            adjustment += 0x06;
        }
        let set_c = c || a > 0x99;
        if set_c {
            adjustment += 0x60;
        }
        let res = ((a as u16 + adjustment) % 256) as u8;
        cpu.write_byte(&Register::A, res);
        cpu.set_flags(res == 0, false, false, set_c);
    } else {
        let mut adjustment: u16 = 0;
        if h {
            adjustment += 0x06;
        }
        if c {
            adjustment += 0x60;
        }
        let res = ((a as u16 + 512 - adjustment) % 256) as u8;
        cpu.write_byte(&Register::A, res);
        cpu.set_flags(res == 0, true, false, c);
    }
    1
}

fn execute_cpl(cpu: &mut CPU) -> (r: u32)
    ensures
        *final(cpu) == spec_cpl(*old(cpu)),
        r == 1,
{
    let a = cpu.read_byte(&Register::A);
    let z = cpu.read_bit(&Register::FlagZ);
    let c = cpu.read_bit(&Register::FlagC);
    cpu.write_byte(&Register::A, !a);
    cpu.set_flags(z, true, true, c);
    1
}

fn execute_scf(cpu: &mut CPU) -> (r: u32)
    ensures
        *final(cpu) == spec_scf(*old(cpu)),
        r == 1,
{
    let z = cpu.read_bit(&Register::FlagZ);
    cpu.set_flags(z, false, false, true);
    1
}

fn execute_ccf(cpu: &mut CPU) -> (r: u32)
    ensures
        *final(cpu) == spec_ccf(*old(cpu)),
        r == 1,
{
    let z = cpu.read_bit(&Register::FlagZ);
    let c = cpu.read_bit(&Register::FlagC);
    cpu.set_flags(z, false, false, !c);
    1
}

fn execute_rlca(cpu: &mut CPU) -> (r: u32)
    ensures
        *final(cpu) == spec_rlca(*old(cpu)),
        r == 1,
{
    let a = cpu.read_byte(&Register::A);
    let res = (a % 128) * 2 + a / 128;
    cpu.write_byte(&Register::A, res);
    cpu.set_flags(false, false, false, a / 128 == 1);
    1
}

fn execute_rrca(cpu: &mut CPU) -> (r: u32)
    ensures
        *final(cpu) == spec_rrca(*old(cpu)),
        r == 1,
{
    let a = cpu.read_byte(&Register::A);
    let res = a / 2 + (a % 2) * 128;
    cpu.write_byte(&Register::A, res);
    cpu.set_flags(false, false, false, a % 2 == 1);
    1
}

fn execute_rla(cpu: &mut CPU) -> (r: u32)
    ensures
        *final(cpu) == spec_rla(*old(cpu)),
        r == 1,
{
    let a = cpu.read_byte(&Register::A);
    let cin = carry_in(cpu);
    let res = (a % 128) * 2 + cin;
    cpu.write_byte(&Register::A, res);
    cpu.set_flags(false, false, false, a / 128 == 1);
    1
}

fn execute_rra(cpu: &mut CPU) -> (r: u32)
    ensures
        *final(cpu) == spec_rra(*old(cpu)),
        r == 1,
{
    let a = cpu.read_byte(&Register::A);
    let c = cpu.read_bit(&Register::FlagC);
    let res = a / 2 + (if c {
        128
    } else {
        0
    });
    cpu.write_byte(&Register::A, res);
    cpu.set_flags(false, false, false, a % 2 == 1);
    1
}

fn execute_di(cpu: &mut CPU) -> (r: u32)
    ensures
        *final(cpu) == (CPU { ime: false, ime_delay: None, ..*old(cpu) }),
        r == 1,
{
    cpu.disable_interupts();
    1
}

fn execute_ei(cpu: &mut CPU) -> (r: u32)
    ensures
        *final(cpu) == (CPU { ime_delay: Some(2u8), ..*old(cpu) }),
        r == 1,
{
    cpu.enable_interupts();
    1
}

fn execute_jr(cpu: &mut CPU, offset: u8) -> (r: u32)
    ensures
        *final(cpu) == spec_with_pc(*old(cpu), spec_jr_target(old(cpu).pc, offset)),
        r == 2,
{
    if offset < 128 {
        cpu.add_word(&Register::PC, offset as u16);
    } else {
        cpu.sub_word(&Register::PC, 256 - offset as u16);
    }
    2
}

fn execute_jr_cond(cpu: &mut CPU, cond: &Cond, offset: u8) -> (r: u32)
    ensures
        spec_cond_holds(*old(cpu), *cond) ==> *final(cpu) == spec_with_pc(
            *old(cpu),
            spec_jr_target(old(cpu).pc, offset),
        ) && r == 3,
        !spec_cond_holds(*old(cpu), *cond) ==> *final(cpu) == *old(cpu) && r == 2,
{
    if cond_holds(cpu, cond) {
        let _ = execute_jr(cpu, offset);
        3
    } else {
        2
    }
}

fn execute_jp_imm16(cpu: &mut CPU, word: u16) -> (r: u32)
    ensures
        *final(cpu) == spec_with_pc(*old(cpu), word),
        r == 4,
{
    cpu.write_word(&Register::PC, word);
    4
}

fn execute_jp_cond_imm16(cpu: &mut CPU, cond: &Cond, word: u16) -> (r: u32)
    ensures
        spec_cond_holds(*old(cpu), *cond) ==> *final(cpu) == spec_with_pc(*old(cpu), word) && r
            == 4,
        !spec_cond_holds(*old(cpu), *cond) ==> *final(cpu) == *old(cpu) && r == 3,
{
    if cond_holds(cpu, cond) {
        execute_jp_imm16(cpu, word)
    } else {
        3
    }
}

fn execute_jp_hl(cpu: &mut CPU) -> (r: u32)
    ensures
        *final(cpu) == spec_with_pc(*old(cpu), old(cpu).hl),
        r == 1,
{
    let hl = cpu.read_word(&Register::HL);
    cpu.write_word(&Register::PC, hl);
    1
}

/// RET: pops the return address, little-endian, from the stack. Faults only
/// when SP sits on the very last byte of memory.
fn execute_ret(mem_map: &MemoryMap, cpu: &mut CPU) -> (r: Result<u32, ExecutionError>)
    requires
        mem_map.wf(),
    ensures
        old(cpu).sp < 65535 ==> r == Ok::<u32, ExecutionError>(4) && *final(cpu) == spec_with_sp(
            spec_with_pc(*old(cpu), spec_word_at(mem_map@, old(cpu).sp as int)),
            ((old(cpu).sp + 2) % 65536) as u16,
        ),
        old(cpu).sp == 65535 ==> r == Err::<u32, ExecutionError>(
            ExecutionError::MemoryOutOfBoundsError(old(cpu).sp as usize),
        ) && *final(cpu) == *old(cpu),
{
    let sp = cpu.read_word(&Register::SP);
    match mem_map.read_word(sp as usize) {
        Ok(value) => {
            cpu.write_word(&Register::PC, value);
            cpu.add_word(&Register::SP, 2);
            Ok(4)
        },
        Err(e) => Err(e),
    }
}

fn execute_ret_cond(mem_map: &MemoryMap, cpu: &mut CPU, cond: &Cond) -> (r: Result<
    u32,
    ExecutionError,
>)
    requires
        mem_map.wf(),
    ensures
        !spec_cond_holds(*old(cpu), *cond) ==> r == Ok::<u32, ExecutionError>(2) && *final(cpu)
            == *old(cpu),
        spec_cond_holds(*old(cpu), *cond) && old(cpu).sp < 65535 ==> r == Ok::<u32, ExecutionError>(
            5,
        ) && *final(cpu) == spec_with_sp(
            spec_with_pc(*old(cpu), spec_word_at(mem_map@, old(cpu).sp as int)),
            ((old(cpu).sp + 2) % 65536) as u16,
        ),
        spec_cond_holds(*old(cpu), *cond) && old(cpu).sp == 65535 ==> r == Err::<
            u32,
            ExecutionError,
        >(ExecutionError::MemoryOutOfBoundsError(old(cpu).sp as usize)) && *final(cpu) == *old(cpu),
{
    if cond_holds(cpu, cond) {
        match execute_ret(mem_map, cpu) {
            Ok(_) => Ok(5),
            Err(e) => Err(e),
        }
    } else {
        Ok(2)
    }
}

/// PUSH: pre-decrements SP by two, then stores the register pair
/// little-endian at the new SP. Faults only when the decremented SP lands
/// on the very last byte of memory (SP was 1).
fn execute_push_r16stk(mem_map: &mut MemoryMap, cpu: &mut CPU, r16stk: &R16stk) -> (r: Result<
    u32,
    ExecutionError,
>)
    requires
        old(mem_map).wf(),
    ensures
        final(mem_map).wf(),
        ({
            let sp2 = ((old(cpu).sp + 65536 - 2) % 65536) as u16;
            &&& sp2 < 65535 ==> r == Ok::<u32, ExecutionError>(4) && *final(cpu) == spec_with_sp(
                *old(cpu),
                sp2,
            ) && final(mem_map)@ == spec_write_word_at(
                old(mem_map)@,
                sp2 as int,
                spec_read_word(*old(cpu), spec_r16stk_register(*r16stk)),
            )
            &&& sp2 == 65535 ==> r == Err::<u32, ExecutionError>(
                ExecutionError::MemoryOutOfBoundsError(65535),
            ) && *final(cpu) == *old(cpu) && final(mem_map)@ == old(mem_map)@
        }),
{
    let value = cpu.read_word(&r16stk_register(r16stk));
    let sp2 = cpu.read_word(&Register::SP).wrapping_sub(2);
    match mem_map.write_word(sp2 as usize, value) {
        Ok(()) => {
            cpu.write_word(&Register::SP, sp2);
            Ok(4)
        },
        Err(e) => Err(e),
    }
}

/// POP: loads the register pair little-endian from SP, then post-increments
/// SP by two. A pop into AF keeps the low nibble of F zero.
fn execute_pop_r16stk(mem_map: &MemoryMap, cpu: &mut CPU, r16stk: &R16stk) -> (r: Result<
    u32,
    ExecutionError,
>)
    requires
        mem_map.wf(),
    ensures
        old(cpu).sp < 65535 ==> r == Ok::<u32, ExecutionError>(3) && *final(cpu) == spec_with_sp(
            spec_write_word(
                *old(cpu),
                spec_r16stk_register(*r16stk),
                spec_word_at(mem_map@, old(cpu).sp as int),
            ),
            ((old(cpu).sp + 2) % 65536) as u16,
        ),
        old(cpu).sp == 65535 ==> r == Err::<u32, ExecutionError>(
            ExecutionError::MemoryOutOfBoundsError(old(cpu).sp as usize),
        ) && *final(cpu) == *old(cpu),
{
    let sp = cpu.read_word(&Register::SP);
    match mem_map.read_word(sp as usize) {
        Ok(value) => {
            cpu.write_word(&r16stk_register(r16stk), value);
            cpu.add_word(&Register::SP, 2);
            Ok(3)
        },
        Err(e) => Err(e),
    }
}

fn execute_inc_r8(mem_map: &mut MemoryMap, cpu: &mut CPU, r8: &R8) -> (r: u32)
    requires
        old(mem_map).wf(),
    ensures
        final(mem_map).wf(),
        *r8 == R8::AddrHL ==> ({
            let v = old(mem_map)@[old(cpu).hl as int];
            let res = ((v + 1) % 256) as u8;
            &&& *final(cpu) == spec_set_flags(
                *old(cpu),
                res == 0,
                false,
                v % 16 == 15,
                old(cpu).spec_flag_c(),
            )
            &&& final(mem_map)@ == old(mem_map)@.update(old(cpu).hl as int, res)
            &&& r == 3
        }),
        *r8 != R8::AddrHL ==> ({
            let v = spec_read_byte(*old(cpu), spec_r8_register(*r8));
            let res = ((v + 1) % 256) as u8;
            &&& *final(cpu) == spec_set_flags(
                spec_write_byte(*old(cpu), spec_r8_register(*r8), res),
                res == 0,
                false,
                v % 16 == 15,
                old(cpu).spec_flag_c(),
            )
            &&& final(mem_map)@ == old(mem_map)@
            &&& r == 1
        }),
{
    let carry = cpu.read_bit(&Register::FlagC);
    if matches!(r8, R8::AddrHL) {
        let addr = cpu.read_word(&Register::HL);
        let v = mem_read_byte_in(mem_map, addr);
        let res = v.wrapping_add(1);
        mem_write_byte_in(mem_map, addr, res);
        cpu.set_flags(res == 0, false, v % 16 == 15, carry);
        3
    } else {
        let reg = r8_register(r8);
        let v = cpu.read_byte(&reg);
        let res = v.wrapping_add(1);
        cpu.write_byte(&reg, res);
        cpu.set_flags(res == 0, false, v % 16 == 15, carry);
        1
    }
}

fn execute_dec_r8(mem_map: &mut MemoryMap, cpu: &mut CPU, r8: &R8) -> (r: u32)
    requires
        old(mem_map).wf(),
    ensures
        final(mem_map).wf(),
        *r8 == R8::AddrHL ==> ({
            let v = old(mem_map)@[old(cpu).hl as int];
            let res = ((v + 255) % 256) as u8;
            &&& *final(cpu) == spec_set_flags(
                *old(cpu),
                res == 0,
                true,
                v % 16 == 0,
                old(cpu).spec_flag_c(),
            )
            &&& final(mem_map)@ == old(mem_map)@.update(old(cpu).hl as int, res)
            &&& r == 3
        }),
        *r8 != R8::AddrHL ==> ({
            let v = spec_read_byte(*old(cpu), spec_r8_register(*r8));
            let res = ((v + 255) % 256) as u8;
            &&& *final(cpu) == spec_set_flags(
                spec_write_byte(*old(cpu), spec_r8_register(*r8), res),
                res == 0,
                true,
                v % 16 == 0,
                old(cpu).spec_flag_c(),
            )
            &&& final(mem_map)@ == old(mem_map)@
            &&& r == 1
        }),
{
    let carry = cpu.read_bit(&Register::FlagC);
    if matches!(r8, R8::AddrHL) {
        let addr = cpu.read_word(&Register::HL);
        let v = mem_read_byte_in(mem_map, addr);
        let res = v.wrapping_sub(1);
        mem_write_byte_in(mem_map, addr, res);
        cpu.set_flags(res == 0, true, v % 16 == 0, carry);
        3
    } else {
        let reg = r8_register(r8);
        let v = cpu.read_byte(&reg);
        let res = v.wrapping_sub(1);
        cpu.write_byte(&reg, res);
        cpu.set_flags(res == 0, true, v % 16 == 0, carry);
        1
    }
}

fn execute_inc_dec_r16(cpu: &mut CPU, r16: &R16, inc: bool) -> (r: u32)
    ensures
        ({
            let reg = spec_r16_register(*r16);
            let v = spec_read_word(*old(cpu), reg);
            *final(cpu) == spec_write_word(
                *old(cpu),
                reg,
                if inc {
                    ((v + 1) % 65536) as u16
                } else {
                    ((v + 65536 - 1) % 65536) as u16
                },
            )
        }),
        r == 2,
{
    let reg = r16_register(r16);
    if inc {
        cpu.add_word(&reg, 1);
    } else {
        cpu.sub_word(&reg, 1);
    }
    2
}

fn execute_add_hl_r16(cpu: &mut CPU, r16: &R16) -> (r: u32)
    ensures
        *final(cpu) == spec_add_hl(*old(cpu), spec_read_word(*old(cpu), spec_r16_register(*r16))),
        r == 2,
{
    let v = cpu.read_word(&r16_register(r16));
    let hl = cpu.read_word(&Register::HL);
    let z = cpu.read_bit(&Register::FlagZ);
    let half = hl % 4096 + v % 4096 > 4095;
    let carry = (hl as u32) + (v as u32) > 65535;
    cpu.write_word(&Register::HL, hl.wrapping_add(v));
    cpu.set_flags(z, false, half, carry);
    2
}

/// The post-modification of an r16mem access: HL+ and HL- step HL after the
/// load; BC and DE leave it alone.
fn handle_r16mem_add_or_decr(cpu: &mut CPU, r16mem: &R16mem)
    ensures
        *final(cpu) == spec_r16mem_post(*old(cpu), *r16mem),
{
    match r16mem {
        R16mem::IncrHL => cpu.add_word(&Register::HL, 1),
        R16mem::DecrHL => cpu.sub_word(&Register::HL, 1),
        _ => {},
    }
}

/// The address an r16mem selector denotes, before any post-modification.
fn r16mem_addr(cpu: &CPU, r16mem: &R16mem) -> (r: u16)
    ensures
        r == spec_r16mem_addr(*cpu, *r16mem),
{
    match r16mem {
        R16mem::BC => cpu.read_word(&Register::BC),
        R16mem::DE => cpu.read_word(&Register::DE),
        R16mem::IncrHL => cpu.read_word(&Register::HL),
        R16mem::DecrHL => cpu.read_word(&Register::HL),
    }
}

fn execute_ld_r16_imm16(cpu: &mut CPU, dst: &R16, src: u16) -> (r: u32)
    ensures
        *final(cpu) == spec_write_word(*old(cpu), spec_r16_register(*dst), src),
        r == 3,
{
    cpu.write_word(&r16_register(dst), src);
    3
}

fn execute_ld_r16mem_a(mem_map: &mut MemoryMap, cpu: &mut CPU, dst: &R16mem) -> (r: u32)
    requires
        old(mem_map).wf(),
    ensures
        final(mem_map).wf(),
        *final(cpu) == spec_r16mem_post(*old(cpu), *dst),
        final(mem_map)@ == old(mem_map)@.update(
            spec_r16mem_addr(*old(cpu), *dst) as int,
            old(cpu).spec_a(),
        ),
        r == 2,
{
    let addr = r16mem_addr(cpu, dst);
    let a = cpu.read_byte(&Register::A);
    mem_write_byte_in(mem_map, addr, a);
    handle_r16mem_add_or_decr(cpu, dst);
    2
}

fn execute_ld_a_r16mem(mem_map: &MemoryMap, cpu: &mut CPU, src: &R16mem) -> (r: u32)
    requires
        mem_map.wf(),
    ensures
        *final(cpu) == spec_r16mem_post(
            spec_with_a(*old(cpu), mem_map@[spec_r16mem_addr(*old(cpu), *src) as int]),
            *src,
        ),
        r == 2,
{
    let addr = r16mem_addr(cpu, src);
    let v = mem_read_byte_in(mem_map, addr);
    cpu.write_byte(&Register::A, v);
    handle_r16mem_add_or_decr(cpu, src);
    2
}

/// LD [imm16],SP: stores SP little-endian at the operand address. Faults
/// only when the address is the very last byte of memory.
fn execute_ld_addrimm16_sp(mem_map: &mut MemoryMap, cpu: &CPU, dst: u16) -> (r: Result<
    u32,
    ExecutionError,
>)
    requires
        old(mem_map).wf(),
    ensures
        final(mem_map).wf(),
        dst < 65535 ==> r == Ok::<u32, ExecutionError>(5) && final(mem_map)@ == spec_write_word_at(
            old(mem_map)@,
            dst as int,
            cpu.sp,
        ),
        dst == 65535 ==> r == Err::<u32, ExecutionError>(
            ExecutionError::MemoryOutOfBoundsError(dst as usize),
        ) && final(mem_map)@ == old(mem_map)@,
{
    let sp = cpu.read_word(&Register::SP);
    match mem_map.write_word(dst as usize, sp) {
        Ok(()) => Ok(5),
        Err(e) => Err(e),
    }
}

fn execute_ld_r8_imm8(mem_map: &mut MemoryMap, cpu: &mut CPU, dst: &R8, src: u8) -> (r: u32)
    requires
        old(mem_map).wf(),
    ensures
        final(mem_map).wf(),
        *dst == R8::AddrHL ==> *final(cpu) == *old(cpu) && final(mem_map)@ == old(mem_map)@.update(
            old(cpu).hl as int,
            src,
        ),
        *dst != R8::AddrHL ==> *final(cpu) == spec_write_byte(
            *old(cpu),
            spec_r8_register(*dst),
            src,
        ) && final(mem_map)@ == old(mem_map)@,
        r == 2,
{
    if matches!(dst, R8::AddrHL) {
        let addr = cpu.read_word(&Register::HL);
        mem_write_byte_in(mem_map, addr, src);
    } else {
        cpu.write_byte(&r8_register(dst), src);
    }
    2
}

fn execute_ld_addr_imm16_a(mem_map: &mut MemoryMap, cpu: &CPU, word: u16) -> (r: u32)
    requires
        old(mem_map).wf(),
    ensures
        final(mem_map).wf(),
        final(mem_map)@ == old(mem_map)@.update(word as int, cpu.spec_a()),
        r == 3,
{
    let a = cpu.read_byte(&Register::A);
    mem_write_byte_in(mem_map, word, a);
    3
}

fn execute_ld_a_addr_imm16(mem_map: &MemoryMap, cpu: &mut CPU, word: u16) -> (r: u32)
    requires
        mem_map.wf(),
    ensures
        *final(cpu) == spec_with_a(*old(cpu), mem_map@[word as int]),
        r == 2,
{
    let v = mem_read_byte_in(mem_map, word);
    cpu.write_byte(&Register::A, v);
    2
}

fn execute_ldh_addr_c_a(mem_map: &mut MemoryMap, cpu: &CPU) -> (r: u32)
    requires
        old(mem_map).wf(),
    ensures
        final(mem_map).wf(),
        final(mem_map)@ == old(mem_map)@.update(0xFF00 + cpu.spec_c(), cpu.spec_a()),
        r == 2,
{
    let offset = cpu.read_byte(&Register::C);
    let a = cpu.read_byte(&Register::A);
    mem_write_byte_in(mem_map, 0xFF00 + offset as u16, a);
    2
}

fn execute_ldh_a_addr_c(mem_map: &MemoryMap, cpu: &mut CPU) -> (r: u32)
    requires
        mem_map.wf(),
    ensures
        *final(cpu) == spec_with_a(*old(cpu), mem_map@[0xFF00 + old(cpu).spec_c()]),
        r == 2,
{
    let offset = cpu.read_byte(&Register::C);
    let v = mem_read_byte_in(mem_map, 0xFF00 + offset as u16);
    cpu.write_byte(&Register::A, v);
    2
}

fn execute_ldh_addr_imm8_a(mem_map: &mut MemoryMap, cpu: &CPU, byte: u8) -> (r: u32)
    requires
        old(mem_map).wf(),
    ensures
        final(mem_map).wf(),
        final(mem_map)@ == old(mem_map)@.update(0xFF00 + byte, cpu.spec_a()),
        r == 3,
{
    let a = cpu.read_byte(&Register::A);
    mem_write_byte_in(mem_map, 0xFF00 + byte as u16, a);
    3
}

fn execute_ldh_a_addr_imm8(mem_map: &MemoryMap, cpu: &mut CPU, byte: u8) -> (r: u32)
    requires
        mem_map.wf(),
    ensures
        *final(cpu) == spec_with_a(*old(cpu), mem_map@[0xFF00 + byte]),
        r == 3,
{
    let v = mem_read_byte_in(mem_map, 0xFF00 + byte as u16);
    cpu.write_byte(&Register::A, v);
    3
}

fn execute_ld_r8_r8(mem_map: &mut MemoryMap, cpu: &mut CPU, dst: &R8, src: &R8) -> (r: Result<
    u32,
    ExecutionError,
>)
    requires
        old(mem_map).wf(),
        !(*dst == R8::AddrHL && *src == R8::AddrHL),
    ensures
        final(mem_map).wf(),
        r == Ok::<u32, ExecutionError>(1),
        *src == R8::AddrHL ==> *final(cpu) == spec_write_byte(
            *old(cpu),
            spec_r8_register(*dst),
            old(mem_map)@[old(cpu).hl as int],
        ) && final(mem_map)@ == old(mem_map)@,
        *dst == R8::AddrHL && *src != R8::AddrHL ==> *final(cpu) == *old(cpu) && final(mem_map)@
            == old(mem_map)@.update(
            old(cpu).hl as int,
            spec_read_byte(*old(cpu), spec_r8_register(*src)),
        ),
        *dst != R8::AddrHL && *src != R8::AddrHL ==> *final(cpu) == spec_write_byte(
            *old(cpu),
            spec_r8_register(*dst),
            spec_read_byte(*old(cpu), spec_r8_register(*src)),
        ) && final(mem_map)@ == old(mem_map)@,
{
    if matches!(src, R8::AddrHL) {
        let addr = cpu.read_word(&Register::HL);
        let v = mem_read_byte_in(mem_map, addr);
        cpu.write_byte(&r8_register(dst), v);
    } else if matches!(dst, R8::AddrHL) {
        let addr = cpu.read_word(&Register::HL);
        let v = cpu.read_byte(&r8_register(src));
        mem_write_byte_in(mem_map, addr, v);
    } else {
        let v = cpu.read_byte(&r8_register(src));
        cpu.write_byte(&r8_register(dst), v);
    }
    Ok(1)
}

fn execute_stop() -> (r: u32)
    ensures
        r == 1,
{
    1
}

/// Executes one decoded instruction against the register file and the
/// memory map, returning its cost in M-cycles. `Unknown` opcodes and the
/// LD [HL],[HL] slot fail with `IllegalInstructionError`; a 16-bit access
/// that would run past the end of memory fails with
/// `MemoryOutOfBoundsError` and leaves all state unchanged.
/// The contract all the dispatchers share: a success means the state moved
/// exactly as `spec_execute` says for the returned cycle count; a failure
/// leaves the state untouched and names the illegal instruction or the
/// faulting address.
pub open spec fn spec_execute_post(
    i: Instruction,
    c0: CPU,
    m0: Seq<u8>,
    r: Result<u32, ExecutionError>,
    c1: CPU,
    m1: Seq<u8>,
) -> bool {
    match r {
        Ok(n) => spec_execute(i, c0, m0) == Some((c1, m1, n)),
        Err(e) => spec_execute(i, c0, m0) is None && c1 == c0 && m1 == m0 && (match e {
            ExecutionError::IllegalInstructionError(j, _) => spec_illegal(i) && j == i,
            ExecutionError::MemoryOutOfBoundsError(a) => !spec_illegal(i) && a == spec_fault_addr(
                i,
                c0,
            ),
        }),
    }
}

/// The dispatcher for the miscellaneous one-byte instructions: no memory
/// access, at most A and the flags move.
#[verifier::rlimit(50)]
fn execute_misc(cpu: &mut CPU, instruction: &Instruction) -> (r: Result<u32, ExecutionError>)
    requires
        (*instruction matches Instruction::Unknown(_)) || *instruction == Instruction::NOP
            || *instruction == Instruction::RLCA || *instruction == Instruction::RRCA
            || *instruction == Instruction::RLA || *instruction == Instruction::RRA || *instruction
            == Instruction::DAA || *instruction == Instruction::CPL || *instruction
            == Instruction::SCF || *instruction == Instruction::CCF || *instruction
            == Instruction::STOP || *instruction == Instruction::HALT || *instruction
            == Instruction::DI || *instruction == Instruction::EI,
    ensures
        forall|m: Seq<u8>|
            #[trigger] spec_execute_post(*instruction, *old(cpu), m, r, *final(cpu), m),
{
    match instruction {
        Instruction::Unknown(_) => Err(
            ExecutionError::IllegalInstructionError(
                *instruction,
                String::from_str("instruction is unknown"),
            ),
        ),
        Instruction::NOP => Ok(1),
        Instruction::RLCA => Ok(execute_rlca(cpu)),
        Instruction::RRCA => Ok(execute_rrca(cpu)),
        Instruction::RLA => Ok(execute_rla(cpu)),
        Instruction::RRA => Ok(execute_rra(cpu)),
        Instruction::DAA => Ok(execute_daa(cpu)),
        Instruction::CPL => Ok(execute_cpl(cpu)),
        Instruction::SCF => Ok(execute_scf(cpu)),
        Instruction::CCF => Ok(execute_ccf(cpu)),
        Instruction::STOP => Ok(execute_stop()),
        Instruction::HALT => Ok(1),
        Instruction::DI => Ok(execute_di(cpu)),
        _ => Ok(execute_ei(cpu)),
    }
}

/// The dispatcher for the load family and the 8/16-bit INC, DEC and
/// ADD HL,r16.
#[verifier::rlimit(50)]
fn execute_load(mem_map: &mut MemoryMap, cpu: &mut CPU, instruction: &Instruction) -> (r: Result<
    u32,
    ExecutionError,
>)
    requires
        old(mem_map).wf(),
        (*instruction matches Instruction::LdR16Imm16(_, _)) || (*instruction
            matches Instruction::LdR16memA(_)) || (*instruction matches Instruction::LdAR16mem(_))
            || (*instruction matches Instruction::LdAddrImm16Sp(_)) || (*instruction
            matches Instruction::LdR8Imm8(_, _)) || (*instruction matches Instruction::LdR8R8(_, _))
            || (*instruction matches Instruction::LdAddrImm16A(_)) || (*instruction
            matches Instruction::LdAAddrImm16(_)) || *instruction == Instruction::LdhAddrCA
            || *instruction == Instruction::LdhAAddrC || (*instruction
            matches Instruction::LdhAddrImm8A(_)) || (*instruction
            matches Instruction::LdhAAddrImm8(_)) || (*instruction matches Instruction::IncR8(_))
            || (*instruction matches Instruction::IncR16(_)) || (*instruction
            matches Instruction::DecR8(_)) || (*instruction matches Instruction::DecR16(_)) || (
        *instruction matches Instruction::AddHlR16(_)),
    ensures
        final(mem_map).wf(),
        spec_execute_post(
            *instruction,
            *old(cpu),
            old(mem_map)@,
            r,
            *final(cpu),
            final(mem_map)@,
        ),
{
    match instruction {
        Instruction::LdR16Imm16(dst, src) => Ok(execute_ld_r16_imm16(cpu, dst, *src)),
        Instruction::LdR16memA(dst) => Ok(execute_ld_r16mem_a(mem_map, cpu, dst)),
        Instruction::LdAR16mem(src) => Ok(execute_ld_a_r16mem(mem_map, cpu, src)),
        Instruction::LdAddrImm16Sp(dst) => execute_ld_addrimm16_sp(mem_map, cpu, *dst),
        Instruction::LdR8Imm8(dst, src) => Ok(execute_ld_r8_imm8(mem_map, cpu, dst, *src)),
        Instruction::LdR8R8(dst, src) => {
            if matches!(dst, R8::AddrHL) && matches!(src, R8::AddrHL) {
                Err(
                    ExecutionError::IllegalInstructionError(
                        *instruction,
                        String::from_str("ld [hl], [hl] is illegal"),
                    ),
                )
            } else {
                execute_ld_r8_r8(mem_map, cpu, dst, src)
            }
        },
        Instruction::LdAddrImm16A(word) => Ok(execute_ld_addr_imm16_a(mem_map, cpu, *word)),
        Instruction::LdAAddrImm16(word) => Ok(execute_ld_a_addr_imm16(mem_map, cpu, *word)),
        Instruction::LdhAddrCA => Ok(execute_ldh_addr_c_a(mem_map, cpu)),
        Instruction::LdhAAddrC => Ok(execute_ldh_a_addr_c(mem_map, cpu)),
        Instruction::LdhAddrImm8A(byte) => Ok(execute_ldh_addr_imm8_a(mem_map, cpu, *byte)),
        Instruction::LdhAAddrImm8(byte) => Ok(execute_ldh_a_addr_imm8(mem_map, cpu, *byte)),
        Instruction::IncR8(r8) => Ok(execute_inc_r8(mem_map, cpu, r8)),
        Instruction::IncR16(r16) => Ok(execute_inc_dec_r16(cpu, r16, true)),
        Instruction::DecR8(r8) => Ok(execute_dec_r8(mem_map, cpu, r8)),
        Instruction::DecR16(r16) => Ok(execute_inc_dec_r16(cpu, r16, false)),
        _ => {
            let r16 = match instruction {
                Instruction::AddHlR16(r16) => *r16,
                _ => R16::BC,
            };
            Ok(execute_add_hl_r16(cpu, &r16))
        },
    }
}

/// The dispatcher for the eight ALU operations of A, in their register and
/// immediate forms.
#[verifier::rlimit(50)]
fn execute_alu(mem_map: &MemoryMap, cpu: &mut CPU, instruction: &Instruction) -> (r: Result<
    u32,
    ExecutionError,
>)
    requires
        mem_map.wf(),
        (*instruction matches Instruction::AddAR8(_)) || (*instruction
            matches Instruction::AdcAR8(_)) || (*instruction matches Instruction::SubAR8(_)) || (
        *instruction matches Instruction::SbcAR8(_)) || (*instruction
            matches Instruction::AndAR8(_)) || (*instruction matches Instruction::XorAR8(_)) || (
        *instruction matches Instruction::OrAR8(_)) || (*instruction matches Instruction::CpAR8(_))
            || (*instruction matches Instruction::AddAImm8(_)) || (*instruction
            matches Instruction::AdcAImm8(_)) || (*instruction matches Instruction::SubAImm8(_))
            || (*instruction matches Instruction::SbcAImm8(_)) || (*instruction
            matches Instruction::AndAImm8(_)) || (*instruction matches Instruction::XorAImm8(_))
            || (*instruction matches Instruction::OrAImm8(_)) || (*instruction
            matches Instruction::CpAImm8(_)),
    ensures
        spec_execute_post(*instruction, *old(cpu), mem_map@, r, *final(cpu), mem_map@),
{
    match instruction {
        Instruction::AddAR8(r8) => Ok(execute_add_a_r8(mem_map, cpu, r8)),
        Instruction::AdcAR8(r8) => Ok(execute_adc_a_r8(mem_map, cpu, r8)),
        Instruction::SubAR8(r8) => Ok(execute_sub_a_r8(mem_map, cpu, r8)),
        Instruction::SbcAR8(r8) => Ok(execute_sbc_a_r8(mem_map, cpu, r8)),
        Instruction::AndAR8(r8) => Ok(execute_and_a_r8(mem_map, cpu, r8)),
        Instruction::XorAR8(r8) => Ok(execute_xor_a_r8(mem_map, cpu, r8)),
        Instruction::OrAR8(r8) => Ok(execute_or_a_r8(mem_map, cpu, r8)),
        Instruction::CpAR8(r8) => Ok(execute_cp_a_r8(mem_map, cpu, r8)),
        Instruction::AddAImm8(byte) => Ok(execute_add_a_imm8(cpu, *byte)),
        Instruction::AdcAImm8(byte) => Ok(execute_adc_a_imm8(cpu, *byte)),
        Instruction::SubAImm8(byte) => Ok(execute_sub_a_imm8(cpu, *byte)),
        Instruction::SbcAImm8(byte) => Ok(execute_sbc_a_imm8(cpu, *byte)),
        Instruction::AndAImm8(byte) => Ok(execute_and_a_imm8(cpu, *byte)),
        Instruction::XorAImm8(byte) => Ok(execute_xor_a_imm8(cpu, *byte)),
        Instruction::OrAImm8(byte) => Ok(execute_or_a_imm8(cpu, *byte)),
        _ => {
            let byte = match instruction {
                Instruction::CpAImm8(byte) => *byte,
                _ => 0u8,
            };
            Ok(execute_cp_a_imm8(cpu, byte))
        },
    }
}

/// The dispatcher for jumps, returns and the stack operations.
#[verifier::rlimit(50)]
fn execute_flow(mem_map: &mut MemoryMap, cpu: &mut CPU, instruction: &Instruction) -> (r: Result<
    u32,
    ExecutionError,
>)
    requires
        old(mem_map).wf(),
        (*instruction matches Instruction::JrImm8(_)) || (*instruction
            matches Instruction::JrCondImm8(_, _)) || (*instruction matches Instruction::JpImm16(_))
            || (*instruction matches Instruction::JpCondImm16(_, _)) || *instruction
            == Instruction::JpHl || *instruction == Instruction::Ret || *instruction
            == Instruction::Reti || (*instruction matches Instruction::RetCond(_)) || (*instruction
            matches Instruction::PushR16stk(_)) || (*instruction matches Instruction::PopR16stk(_)),
    ensures
        final(mem_map).wf(),
        spec_execute_post(
            *instruction,
            *old(cpu),
            old(mem_map)@,
            r,
            *final(cpu),
            final(mem_map)@,
        ),
{
    match instruction {
        Instruction::JrImm8(offset) => Ok(execute_jr(cpu, *offset)),
        Instruction::JrCondImm8(cond, offset) => Ok(execute_jr_cond(cpu, cond, *offset)),
        Instruction::JpImm16(word) => Ok(execute_jp_imm16(cpu, *word)),
        Instruction::JpCondImm16(cond, word) => Ok(execute_jp_cond_imm16(cpu, cond, *word)),
        Instruction::JpHl => Ok(execute_jp_hl(cpu)),
        Instruction::Ret => execute_ret(mem_map, cpu),
        Instruction::Reti => {
            match execute_ret(mem_map, cpu) {
                Ok(_) => {
                    cpu.ime = true;
                    Ok(4)
                },
                Err(e) => Err(e),
            }
        },
        Instruction::RetCond(cond) => execute_ret_cond(mem_map, cpu, cond),
        Instruction::PushR16stk(r16stk) => execute_push_r16stk(mem_map, cpu, r16stk),
        _ => {
            let r16stk = match instruction {
                Instruction::PopR16stk(r16stk) => *r16stk,
                _ => R16stk::BC,
            };
            execute_pop_r16stk(mem_map, cpu, &r16stk)
        },
    }
}

/// Executes one decoded instruction against the register file and the
/// memory map, returning its cost in M-cycles. `Unknown` opcodes and the
/// LD [HL],[HL] slot fail with `IllegalInstructionError`; a 16-bit access
/// that would run past the end of memory fails with
/// `MemoryOutOfBoundsError` and leaves all state unchanged.
pub fn execute(mem_map: &mut MemoryMap, cpu: &mut CPU, instruction: &Instruction) -> (r: Result<
    u32,
    ExecutionError,
>)
    requires
        old(mem_map).wf(),
    ensures
        final(mem_map).wf(),
        spec_execute_post(
            *instruction,
            *old(cpu),
            old(mem_map)@,
            r,
            *final(cpu),
            final(mem_map)@,
        ),
{
    match instruction {
        Instruction::Unknown(_) | Instruction::NOP | Instruction::RLCA | Instruction::RRCA
            | Instruction::RLA | Instruction::RRA | Instruction::DAA | Instruction::CPL
            | Instruction::SCF | Instruction::CCF | Instruction::STOP | Instruction::HALT
            | Instruction::DI | Instruction::EI => execute_misc(cpu, instruction),
        Instruction::LdR16Imm16(_, _) | Instruction::LdR16memA(_) | Instruction::LdAR16mem(_)
            | Instruction::LdAddrImm16Sp(_) | Instruction::LdR8Imm8(_, _)
            | Instruction::LdR8R8(_, _) | Instruction::LdAddrImm16A(_)
            | Instruction::LdAAddrImm16(_) | Instruction::LdhAddrCA | Instruction::LdhAAddrC
            | Instruction::LdhAddrImm8A(_) | Instruction::LdhAAddrImm8(_) | Instruction::IncR8(_)
            | Instruction::IncR16(_) | Instruction::DecR8(_) | Instruction::DecR16(_)
            | Instruction::AddHlR16(_) => execute_load(mem_map, cpu, instruction),
        Instruction::AddAR8(_) | Instruction::AdcAR8(_) | Instruction::SubAR8(_)
            | Instruction::SbcAR8(_) | Instruction::AndAR8(_) | Instruction::XorAR8(_)
            | Instruction::OrAR8(_) | Instruction::CpAR8(_) | Instruction::AddAImm8(_)
            | Instruction::AdcAImm8(_) | Instruction::SubAImm8(_) | Instruction::SbcAImm8(_)
            | Instruction::AndAImm8(_) | Instruction::XorAImm8(_) | Instruction::OrAImm8(_)
            | Instruction::CpAImm8(_) => execute_alu(mem_map, cpu, instruction),
        Instruction::JrImm8(_) | Instruction::JrCondImm8(_, _) | Instruction::JpImm16(_)
            | Instruction::JpCondImm16(_, _) | Instruction::JpHl | Instruction::Ret
            | Instruction::Reti | Instruction::RetCond(_) | Instruction::PushR16stk(_)
            | Instruction::PopR16stk(_) => execute_flow(mem_map, cpu, instruction),
    }
}

/// For every destination r16 and every 16-bit immediate, LD r16,imm16
/// succeeds, costs 3 M-cycles, and leaves the destination word reading back
/// exactly the immediate.
pub proof fn lemma_ld_r16_imm16_reads_back(c: CPU, m: Seq<u8>, dst: R16, v: u16)
    ensures
        spec_execute(Instruction::LdR16Imm16(dst, v), c, m) matches Some(t)
            && spec_read_word(t.0, spec_r16_register(dst)) == v && t.1 == m && t.2 == 3,
{
}

/// For all bytes a and b, ADD A,b with A=a sets C exactly when a+b reaches
/// 256, H exactly when the low nibbles sum to 16 or more, Z exactly when
/// the wrapped sum is zero, and clears N; A holds the wrapped sum.
pub proof fn lemma_add_flags(c: CPU, b: u8)
    ensures
        ({
            let a = c.spec_a();
            let c1 = spec_alu_add(c, b, 0);
            &&& c1.spec_flag_c() == (a + b >= 256)
            &&& c1.spec_flag_h() == (a % 16 + b % 16 >= 16)
            &&& c1.spec_flag_z() == ((a + b) % 256 == 0)
            &&& !c1.spec_flag_n()
            &&& c1.spec_a() == ((a + b) % 256) as u8
        }),
{
    let a = c.spec_a();
    let r = ((a + b) % 256) as u8;
    crate::cpu::lemma_with_a(c, r);
    crate::cpu::lemma_set_flags(
        spec_with_a(c, r),
        r == 0,
        false,
        a % 16 + b % 16 > 15,
        a + b > 255,
    );
}

/// For all bytes a and b, SUB A,b with A=a sets C exactly when b exceeds a,
/// H exactly when b's low nibble exceeds a's, Z exactly when a equals b,
/// and sets N; A holds the wrapped difference.
pub proof fn lemma_sub_flags(c: CPU, b: u8)
    ensures
        ({
            let a = c.spec_a();
            let c1 = spec_alu_sub(c, b, 0);
            &&& c1.spec_flag_c() == (b > a)
            &&& c1.spec_flag_h() == (a % 16 < b % 16)
            &&& c1.spec_flag_z() == (a == b)
            &&& c1.spec_flag_n()
            &&& c1.spec_a() == ((a + 512 - b) % 256) as u8
        }),
{
    let a = c.spec_a();
    let r = ((a + 512 - b) % 256) as u8;
    crate::cpu::lemma_with_a(c, r);
    crate::cpu::lemma_set_flags(spec_with_a(c, r), r == 0, true, a % 16 < b % 16, a < b);
}

/// After adding two binary-coded-decimal bytes, the decimal adjust leaves a
/// valid binary-coded decimal in A: both nibbles at most 9.
pub proof fn lemma_daa_value_after_add(a: u8, b: u8)
    requires
        a % 16 <= 9,
        a / 16 <= 9,
        b % 16 <= 9,
        b / 16 <= 9,
    ensures
        ({
            let r = ((a + b) % 256) as u8;
            let v = spec_daa_value(r, false, a % 16 + b % 16 > 15, a + b > 255);
            v % 16 <= 9 && v / 16 <= 9
        }),
{
    assert((a % 16 <= 9 && a / 16 <= 9 && b % 16 <= 9 && b / 16 <= 9) ==> {
        let r = ((a + b) % 256) as u8;
        let h = a % 16 + b % 16 > 15;
        let cy = a + b > 255;
        let adj = (if h || r % 16 > 9 {
            6int
        } else {
            0int
        }) + (if cy || r > 0x99 {
            0x60int
        } else {
            0int
        });
        let v = ((r + adj) % 256) as u8;
        v % 16 <= 9 && v / 16 <= 9
    }) by (bit_vector);
}

/// After subtracting one binary-coded-decimal byte from another, the
/// decimal adjust leaves a valid binary-coded decimal in A.
pub proof fn lemma_daa_value_after_sub(a: u8, b: u8)
    requires
        a % 16 <= 9,
        a / 16 <= 9,
        b % 16 <= 9,
        b / 16 <= 9,
    ensures
        ({
            let r = ((a + 512 - b) % 256) as u8;
            let v = spec_daa_value(r, true, a % 16 < b % 16, a < b);
            v % 16 <= 9 && v / 16 <= 9
        }),
{
    assert((a % 16 <= 9 && a / 16 <= 9 && b % 16 <= 9 && b / 16 <= 9) ==> {
        let r = ((a + 512 - b) % 256) as u8;
        let h = a % 16 < b % 16;
        let cy = a < b;
        let adj = (if h {
            6int
        } else {
            0int
        }) + (if cy {
            0x60int
        } else {
            0int
        });
        let v = ((r + 512 - adj) % 256) as u8;
        v % 16 <= 9 && v / 16 <= 9
    }) by (bit_vector);
}

/// DAA applied right after ADD A,b of two binary-coded decimals yields a
/// valid binary-coded decimal in A.
pub proof fn lemma_daa_after_add(c: CPU, b: u8)
    requires
        c.spec_a() % 16 <= 9,
        c.spec_a() / 16 <= 9,
        b % 16 <= 9,
        b / 16 <= 9,
    ensures
        ({
            let c2 = spec_daa(spec_alu_add(c, b, 0));
            c2.spec_a() % 16 <= 9 && c2.spec_a() / 16 <= 9
        }),
{
    let a = c.spec_a();
    let r = ((a + b) % 256) as u8;
    let c1 = spec_alu_add(c, b, 0);
    crate::cpu::lemma_with_a(c, r);
    crate::cpu::lemma_set_flags(
        spec_with_a(c, r),
        r == 0,
        false,
        a % 16 + b % 16 > 15,
        a + b > 255,
    );
    lemma_daa_value_after_add(a, b);
    let v = spec_daa_value(r, false, a % 16 + b % 16 > 15, a + b > 255);
    crate::cpu::lemma_with_a(c1, v);
    crate::cpu::lemma_set_flags(
        spec_with_a(c1, v),
        v == 0,
        c1.spec_flag_n(),
        false,
        spec_daa_carry(r, c1.spec_flag_n(), c1.spec_flag_c()),
    );
}

/// DAA applied right after SUB A,b of two binary-coded decimals yields a
/// valid binary-coded decimal in A.
pub proof fn lemma_daa_after_sub(c: CPU, b: u8)
    requires
        c.spec_a() % 16 <= 9,
        c.spec_a() / 16 <= 9,
        b % 16 <= 9,
        b / 16 <= 9,
    ensures
        ({
            let c2 = spec_daa(spec_alu_sub(c, b, 0));
            c2.spec_a() % 16 <= 9 && c2.spec_a() / 16 <= 9
        }),
{
    let a = c.spec_a();
    let r = ((a + 512 - b) % 256) as u8;
    let c1 = spec_alu_sub(c, b, 0);
    crate::cpu::lemma_with_a(c, r);
    crate::cpu::lemma_set_flags(spec_with_a(c, r), r == 0, true, a % 16 < b % 16, a < b);
    lemma_daa_value_after_sub(a, b);
    let v = spec_daa_value(r, true, a % 16 < b % 16, a < b);
    crate::cpu::lemma_with_a(c1, v);
    crate::cpu::lemma_set_flags(
        spec_with_a(c1, v),
        v == 0,
        c1.spec_flag_n(),
        false,
        spec_daa_carry(r, c1.spec_flag_n(), c1.spec_flag_c()),
    );
}

/// On a state whose A is already a valid binary-coded decimal and whose H
/// and C flags are clear, DAA leaves A untouched and keeps C clear: a
/// second DAA after a first one is a no-op on the adjusted value once the
/// flags are cleared.
pub proof fn lemma_daa_idempotent(c: CPU)
    requires
        !c.spec_flag_h(),
        !c.spec_flag_c(),
        c.spec_a() % 16 <= 9,
        c.spec_a() / 16 <= 9,
    ensures
        spec_daa(c).spec_a() == c.spec_a(),
        !spec_daa(c).spec_flag_c(),
        !spec_daa(c).spec_flag_h(),
{
    let a = c.spec_a();
    assert(a <= 0x99) by {
        assert(a == 16 * (a / 16) + a % 16);
    }
    let v = spec_daa_value(a, c.spec_flag_n(), false, false);
    assert(v == a);
    crate::cpu::lemma_with_a(c, v);
    crate::cpu::lemma_set_flags(
        spec_with_a(c, v),
        v == 0,
        c.spec_flag_n(),
        false,
        spec_daa_carry(a, c.spec_flag_n(), false),
    );
}

} // verus!
