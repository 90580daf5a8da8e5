use gb_core::cpu::{Register, CPU};
use gb_core::decoder::{DisassemblyError, Instruction, R16};
use gb_core::machine::EmulatorApp;
use gb_core::memory::MemoryMap;

fn app_with_program(origin: usize, program: &[u8]) -> EmulatorApp {
    let mut mem = MemoryMap::new();
    mem.write_bytes(origin, program.to_vec()).unwrap();
    EmulatorApp::new(mem, CPU::new())
}

#[test]
fn fetch_decode_execute_advances_pc() {
    // LD BC,0x1234 at the boot address: PC advances by 3 before execution,
    // BC takes the immediate, and the step costs 3 M-cycles.
    let mut app = app_with_program(0x0100, &[0x01, 0x34, 0x12]);
    let instruction = app.next_instruction().unwrap();
    assert_eq!(instruction, Instruction::LdR16Imm16(R16::BC, 0x1234));
    let cycles = app.step(&instruction).unwrap();
    assert_eq!(cycles, 3);
    assert_eq!(app.cpu.read_word(&Register::PC), 0x0103);
    assert_eq!(app.cpu.read_word(&Register::BC), 0x1234);
}

#[test]
fn relative_jump_sees_the_advanced_pc() {
    // JR -2 at 0x0100: PC advances to 0x0102 first, so the jump lands back
    // on the JR itself.
    let mut app = app_with_program(0x0100, &[0x18, 0xFE]);
    let instruction = app.next_instruction().unwrap();
    assert_eq!(instruction, Instruction::JrImm8(0xFE));
    app.step(&instruction).unwrap();
    assert_eq!(app.cpu.read_word(&Register::PC), 0x0100);
}

#[test]
fn a_small_program_runs_to_its_end() {
    // LD HL,0xC000; LD [HL],0x7F; NOP.
    let mut app = app_with_program(0x0100, &[0x21, 0x00, 0xC0, 0x36, 0x7F, 0x00]);
    for _ in 0..3 {
        let instruction = app.next_instruction().unwrap();
        app.step(&instruction).unwrap();
    }
    assert_eq!(app.cpu.read_word(&Register::PC), 0x0106);
    assert_eq!(app.mem_map.read_byte(0xC000).unwrap(), 0x7F);
    assert_eq!(app.cpu.read_word(&Register::HL), 0xC000);
}

#[test]
fn interrupt_enable_arms_after_the_next_instruction() {
    // EI; NOP; NOP: IME is still off right after EI's step, on after the
    // following instruction's step.
    let mut app = app_with_program(0x0100, &[0xFB, 0x00, 0x00]);
    let ei = app.next_instruction().unwrap();
    assert_eq!(ei, Instruction::EI);
    app.step(&ei).unwrap();
    assert!(!app.cpu.ime);
    let nop = app.next_instruction().unwrap();
    app.step(&nop).unwrap();
    assert!(app.cpu.ime);
}

#[test]
fn fetch_clamps_at_the_top_of_memory() {
    // A NOP on the very last byte still decodes.
    let mut app = app_with_program(0xFFFF, &[0x00]);
    app.cpu.write_word(&Register::PC, 0xFFFF);
    assert_eq!(app.next_instruction().unwrap(), Instruction::NOP);
    // An immediate that would run past the end is a missing operand.
    let mut app = app_with_program(0xFFFF, &[0x3E]);
    app.cpu.write_word(&Register::PC, 0xFFFF);
    assert_eq!(app.next_instruction(), Err(DisassemblyError::MissingOperand(0x3E)));
}

#[test]
fn stop_consumes_its_operand_byte() {
    // STOP is two bytes long: its padding byte is skipped by the advance.
    let mut app = app_with_program(0x0100, &[0x10, 0x00, 0x00]);
    let instruction = app.next_instruction().unwrap();
    assert_eq!(instruction, Instruction::STOP);
    let cycles = app.step(&instruction).unwrap();
    assert_eq!(cycles, 1);
    assert_eq!(app.cpu.read_word(&Register::PC), 0x0102);
}

#[test]
fn untaken_jump_just_falls_through() {
    // JR Z,+0x10 with Z clear: PC only advances past the instruction.
    let mut app = app_with_program(0x0100, &[0x28, 0x10]);
    let instruction = app.next_instruction().unwrap();
    let cycles = app.step(&instruction).unwrap();
    assert_eq!(cycles, 2);
    assert_eq!(app.cpu.read_word(&Register::PC), 0x0102);
}

#[test]
fn a_counting_loop_terminates() {
    // LD A,0x00; INC A; CP A,0x05; JR NZ,-4 — counts A up to five.
    let mut app = app_with_program(0x0100, &[0x3E, 0x00, 0x3C, 0xFE, 0x05, 0x20, 0xFB]);
    let mut steps = 0;
    loop {
        let instruction = app.next_instruction().unwrap();
        app.step(&instruction).unwrap();
        steps += 1;
        if app.cpu.read_word(&Register::PC) == 0x0107 {
            break;
        }
        assert!(steps < 100);
    }
    assert_eq!(app.cpu.read_byte(&Register::A), 0x05);
    assert!(app.cpu.read_bit(&Register::FlagZ));
}
