use gb_core::decoder::{
    disassemble_program, get_instruction, Cond, DisassemblyError, Instruction, R16, R16mem, R16stk,
    R8,
};

/// The encoded length the opcode table fixes for each first byte, written
/// out from the table itself.
fn table_length(b0: u8) -> usize {
    match b0 {
        // LD r16,imm16 and LD [imm16],SP
        0x01 | 0x11 | 0x21 | 0x31 | 0x08 => 3,
        // LD r8,imm8
        0x06 | 0x0E | 0x16 | 0x1E | 0x26 | 0x2E | 0x36 | 0x3E => 2,
        // JR and JR cond
        0x18 | 0x20 | 0x28 | 0x30 | 0x38 => 2,
        // STOP consumes its operand byte
        0x10 => 2,
        // ALU A,imm8
        0xC6 | 0xCE | 0xD6 | 0xDE | 0xE6 | 0xEE | 0xF6 | 0xFE => 2,
        // LDH with an 8-bit operand
        0xE0 | 0xF0 => 2,
        // JP imm16, JP cond,imm16, LD [imm16],A and LD A,[imm16]
        0xC3 | 0xC2 | 0xCA | 0xD2 | 0xDA | 0xEA | 0xFA => 3,
        _ => 1,
    }
}

#[test]
fn every_opcode_length_matches_the_table() {
    // For every defined opcode pattern, the decoded instruction's length
    // equals the number of bytes the table specifies.
    for b0 in 0..=255u8 {
        let bytes = [b0, 0x34, 0x12];
        let instruction = get_instruction(&bytes).unwrap();
        assert_eq!(instruction.get_size(), table_length(b0), "opcode {:#04x}", b0);
    }
}

#[test]
fn ld_bc_imm16_decodes() {
    let instruction = get_instruction(&[0x01, 0x34, 0x12]).unwrap();
    assert_eq!(instruction, Instruction::LdR16Imm16(R16::BC, 0x1234));
    assert_eq!(instruction.get_size(), 3);
}

#[test]
fn immediates_are_little_endian() {
    assert_eq!(get_instruction(&[0x31, 0xCD, 0xAB]).unwrap(), Instruction::LdR16Imm16(R16::SP, 0xABCD));
    assert_eq!(get_instruction(&[0x08, 0x00, 0x80]).unwrap(), Instruction::LdAddrImm16Sp(0x8000));
    assert_eq!(get_instruction(&[0xC3, 0x50, 0x01]).unwrap(), Instruction::JpImm16(0x0150));
    assert_eq!(get_instruction(&[0xEA, 0x00, 0xC0]).unwrap(), Instruction::LdAddrImm16A(0xC000));
    assert_eq!(get_instruction(&[0xFA, 0x01, 0xC0]).unwrap(), Instruction::LdAAddrImm16(0xC001));
}

#[test]
fn block_0_misc_decodes() {
    assert_eq!(get_instruction(&[0x00]).unwrap(), Instruction::NOP);
    assert_eq!(get_instruction(&[0x07]).unwrap(), Instruction::RLCA);
    assert_eq!(get_instruction(&[0x0F]).unwrap(), Instruction::RRCA);
    assert_eq!(get_instruction(&[0x17]).unwrap(), Instruction::RLA);
    assert_eq!(get_instruction(&[0x1F]).unwrap(), Instruction::RRA);
    assert_eq!(get_instruction(&[0x27]).unwrap(), Instruction::DAA);
    assert_eq!(get_instruction(&[0x2F]).unwrap(), Instruction::CPL);
    assert_eq!(get_instruction(&[0x37]).unwrap(), Instruction::SCF);
    assert_eq!(get_instruction(&[0x3F]).unwrap(), Instruction::CCF);
    assert_eq!(get_instruction(&[0x10, 0x00]).unwrap(), Instruction::STOP);
}

#[test]
fn block_0_selector_decodes() {
    assert_eq!(get_instruction(&[0x02]).unwrap(), Instruction::LdR16memA(R16mem::BC));
    assert_eq!(get_instruction(&[0x22]).unwrap(), Instruction::LdR16memA(R16mem::IncrHL));
    assert_eq!(get_instruction(&[0x32]).unwrap(), Instruction::LdR16memA(R16mem::DecrHL));
    assert_eq!(get_instruction(&[0x1A]).unwrap(), Instruction::LdAR16mem(R16mem::DE));
    assert_eq!(get_instruction(&[0x03]).unwrap(), Instruction::IncR16(R16::BC));
    assert_eq!(get_instruction(&[0x3B]).unwrap(), Instruction::DecR16(R16::SP));
    assert_eq!(get_instruction(&[0x29]).unwrap(), Instruction::AddHlR16(R16::HL));
    assert_eq!(get_instruction(&[0x04]).unwrap(), Instruction::IncR8(R8::B));
    assert_eq!(get_instruction(&[0x34]).unwrap(), Instruction::IncR8(R8::AddrHL));
    assert_eq!(get_instruction(&[0x3D]).unwrap(), Instruction::DecR8(R8::A));
    assert_eq!(get_instruction(&[0x2E, 0x55]).unwrap(), Instruction::LdR8Imm8(R8::L, 0x55));
    assert_eq!(get_instruction(&[0x18, 0xFE]).unwrap(), Instruction::JrImm8(0xFE));
    assert_eq!(
        get_instruction(&[0x20, 0x05]).unwrap(),
        Instruction::JrCondImm8(Cond::NotZ, 0x05)
    );
    assert_eq!(get_instruction(&[0x38, 0x05]).unwrap(), Instruction::JrCondImm8(Cond::C, 0x05));
}

#[test]
fn block_1_loads_and_halt() {
    assert_eq!(get_instruction(&[0x41]).unwrap(), Instruction::LdR8R8(R8::B, R8::C));
    assert_eq!(get_instruction(&[0x7F]).unwrap(), Instruction::LdR8R8(R8::A, R8::A));
    assert_eq!(get_instruction(&[0x46]).unwrap(), Instruction::LdR8R8(R8::B, R8::AddrHL));
    assert_eq!(get_instruction(&[0x70]).unwrap(), Instruction::LdR8R8(R8::AddrHL, R8::B));
    // 0x76 would be LD [HL],[HL]; it is HALT.
    assert_eq!(get_instruction(&[0x76]).unwrap(), Instruction::HALT);
}

#[test]
fn block_2_alu_decodes() {
    assert_eq!(get_instruction(&[0x80]).unwrap(), Instruction::AddAR8(R8::B));
    assert_eq!(get_instruction(&[0x8E]).unwrap(), Instruction::AdcAR8(R8::AddrHL));
    assert_eq!(get_instruction(&[0x97]).unwrap(), Instruction::SubAR8(R8::A));
    assert_eq!(get_instruction(&[0x99]).unwrap(), Instruction::SbcAR8(R8::C));
    assert_eq!(get_instruction(&[0xA2]).unwrap(), Instruction::AndAR8(R8::D));
    assert_eq!(get_instruction(&[0xAB]).unwrap(), Instruction::XorAR8(R8::E));
    assert_eq!(get_instruction(&[0xB4]).unwrap(), Instruction::OrAR8(R8::H));
    assert_eq!(get_instruction(&[0xBD]).unwrap(), Instruction::CpAR8(R8::L));
}

#[test]
fn block_3_decodes() {
    assert_eq!(get_instruction(&[0xC6, 0x01]).unwrap(), Instruction::AddAImm8(0x01));
    assert_eq!(get_instruction(&[0xFE, 0x90]).unwrap(), Instruction::CpAImm8(0x90));
    assert_eq!(get_instruction(&[0xC1]).unwrap(), Instruction::PopR16stk(R16stk::BC));
    assert_eq!(get_instruction(&[0xF1]).unwrap(), Instruction::PopR16stk(R16stk::AF));
    assert_eq!(get_instruction(&[0xC5]).unwrap(), Instruction::PushR16stk(R16stk::BC));
    assert_eq!(get_instruction(&[0xE5]).unwrap(), Instruction::PushR16stk(R16stk::HL));
    assert_eq!(get_instruction(&[0xC9]).unwrap(), Instruction::Ret);
    assert_eq!(get_instruction(&[0xD9]).unwrap(), Instruction::Reti);
    assert_eq!(get_instruction(&[0xC0]).unwrap(), Instruction::RetCond(Cond::NotZ));
    assert_eq!(get_instruction(&[0xD8]).unwrap(), Instruction::RetCond(Cond::C));
    assert_eq!(
        get_instruction(&[0xCA, 0x00, 0x02]).unwrap(),
        Instruction::JpCondImm16(Cond::Z, 0x0200)
    );
    assert_eq!(get_instruction(&[0xE9]).unwrap(), Instruction::JpHl);
    assert_eq!(get_instruction(&[0xE0, 0x44]).unwrap(), Instruction::LdhAddrImm8A(0x44));
    assert_eq!(get_instruction(&[0xF0, 0x44]).unwrap(), Instruction::LdhAAddrImm8(0x44));
    assert_eq!(get_instruction(&[0xE2]).unwrap(), Instruction::LdhAddrCA);
    assert_eq!(get_instruction(&[0xF2]).unwrap(), Instruction::LdhAAddrC);
    assert_eq!(get_instruction(&[0xF3]).unwrap(), Instruction::DI);
    assert_eq!(get_instruction(&[0xFB]).unwrap(), Instruction::EI);
}

#[test]
fn undefined_opcodes_are_unknown_of_length_1() {
    for b0 in [0xCBu8, 0xCD, 0xD3, 0xDB, 0xDD, 0xE3, 0xE4, 0xE8, 0xEB, 0xF4, 0xF8, 0xF9, 0xFD] {
        let instruction = get_instruction(&[b0]).unwrap();
        assert_eq!(instruction, Instruction::Unknown(b0));
        assert_eq!(instruction.get_size(), 1);
    }
}

#[test]
fn empty_input_is_end_of_input() {
    assert_eq!(get_instruction(&[]), Err(DisassemblyError::EndOfInput));
}

#[test]
fn short_input_is_missing_operand() {
    assert_eq!(get_instruction(&[0x01, 0x34]), Err(DisassemblyError::MissingOperand(0x01)));
    assert_eq!(get_instruction(&[0x3E]), Err(DisassemblyError::MissingOperand(0x3E)));
    assert_eq!(get_instruction(&[0x10]), Err(DisassemblyError::MissingOperand(0x10)));
    // A one-byte instruction needs no operand bytes.
    assert_eq!(get_instruction(&[0x00]), Ok(Instruction::NOP));
}

#[test]
fn disassemble_a_whole_program() {
    let program = [0x21, 0x00, 0xC0, 0x36, 0x7F, 0x00];
    let instructions = disassemble_program(&program).unwrap();
    assert_eq!(
        instructions,
        vec![
            Instruction::LdR16Imm16(R16::HL, 0xC000),
            Instruction::LdR8Imm8(R8::AddrHL, 0x7F),
            Instruction::NOP,
        ]
    );
}

#[test]
fn disassemble_propagates_missing_operand() {
    let program = [0x00, 0x3E];
    assert_eq!(disassemble_program(&program), Err(DisassemblyError::MissingOperand(0x3E)));
}
