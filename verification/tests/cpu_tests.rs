use gb_core::cpu::{Register, CPU};

#[test]
fn new_cpu_boots_at_0x100() {
    let cpu = CPU::new();
    assert_eq!(cpu.read_word(&Register::PC), 0x0100);
    assert_eq!(cpu.read_word(&Register::AF), 0);
    assert_eq!(cpu.read_word(&Register::SP), 0);
    assert!(!cpu.read_bit(&Register::FlagZ));
}

#[test]
fn word_write_reads_back() {
    let mut cpu = CPU::new();
    for reg in [Register::BC, Register::DE, Register::HL, Register::SP, Register::PC] {
        cpu.write_word(&reg, 0xBEEF);
        assert_eq!(cpu.read_word(&reg), 0xBEEF);
    }
}

#[test]
fn word_byte_halves_commute() {
    // Byte/word halves commute: the B and C accessors read the high and
    // low bytes of what was written to BC.
    let mut cpu = CPU::new();
    cpu.write_word(&Register::BC, 0x1234);
    assert_eq!(cpu.read_byte(&Register::B), 0x12);
    assert_eq!(cpu.read_byte(&Register::C), 0x34);
    cpu.write_word(&Register::DE, 0xA55A);
    assert_eq!(cpu.read_byte(&Register::D), 0xA5);
    assert_eq!(cpu.read_byte(&Register::E), 0x5A);
    cpu.write_word(&Register::HL, 0xC0DE);
    assert_eq!(cpu.read_byte(&Register::H), 0xC0);
    assert_eq!(cpu.read_byte(&Register::L), 0xDE);
}

#[test]
fn byte_writes_leave_the_other_half() {
    let mut cpu = CPU::new();
    cpu.write_word(&Register::BC, 0x1234);
    cpu.write_byte(&Register::B, 0xAB);
    assert_eq!(cpu.read_word(&Register::BC), 0xAB34);
    cpu.write_byte(&Register::C, 0xCD);
    assert_eq!(cpu.read_word(&Register::BC), 0xABCD);
}

#[test]
fn flag_bits_are_independent() {
    let mut cpu = CPU::new();
    cpu.write_bit(&Register::FlagZ, true);
    cpu.write_bit(&Register::FlagC, true);
    assert!(cpu.read_bit(&Register::FlagZ));
    assert!(!cpu.read_bit(&Register::FlagN));
    assert!(!cpu.read_bit(&Register::FlagH));
    assert!(cpu.read_bit(&Register::FlagC));
    cpu.write_bit(&Register::FlagZ, false);
    assert!(!cpu.read_bit(&Register::FlagZ));
    assert!(cpu.read_bit(&Register::FlagC));
    // Z bit 7, N bit 6, H bit 5, C bit 4 of F.
    cpu.write_bit(&Register::FlagN, true);
    cpu.write_bit(&Register::FlagH, true);
    cpu.write_bit(&Register::FlagZ, true);
    assert_eq!(cpu.read_word(&Register::AF) & 0x00FF, 0b1111_0000);
}

#[test]
fn af_write_masks_low_nibble() {
    // The low 4 bits of F are always zero after any write that touches F.
    let mut cpu = CPU::new();
    cpu.write_word(&Register::AF, 0xABCF);
    assert_eq!(cpu.read_word(&Register::AF), 0xABC0);
    assert_eq!(cpu.read_byte(&Register::A), 0xAB);
}

#[test]
fn byte_arithmetic_wraps() {
    let mut cpu = CPU::new();
    cpu.write_byte(&Register::A, 0xFF);
    cpu.add_byte(&Register::A, 1);
    assert_eq!(cpu.read_byte(&Register::A), 0x00);
    cpu.sub_byte(&Register::A, 1);
    assert_eq!(cpu.read_byte(&Register::A), 0xFF);
}

#[test]
fn word_arithmetic_wraps() {
    let mut cpu = CPU::new();
    cpu.write_word(&Register::SP, 0xFFFF);
    cpu.add_word(&Register::SP, 2);
    assert_eq!(cpu.read_word(&Register::SP), 0x0001);
    cpu.sub_word(&Register::SP, 2);
    assert_eq!(cpu.read_word(&Register::SP), 0xFFFF);
}

#[test]
fn interrupt_enable_is_delayed() {
    let mut cpu = CPU::new();
    assert!(!cpu.ime);
    cpu.enable_interupts();
    assert!(!cpu.ime);
    cpu.refresh_interupt_flag();
    assert!(!cpu.ime);
    cpu.refresh_interupt_flag();
    assert!(cpu.ime);
}

#[test]
fn disable_interrupts_clears_pending() {
    let mut cpu = CPU::new();
    cpu.enable_interupts();
    cpu.disable_interupts();
    cpu.refresh_interupt_flag();
    cpu.refresh_interupt_flag();
    assert!(!cpu.ime);
}

#[test]
fn register_kind_predicates() {
    assert!(Register::A.is_byte_register());
    assert!(!Register::A.is_word_register());
    assert!(Register::AF.is_word_register());
    assert!(Register::FlagC.is_bit_register());
    assert!(!Register::FlagC.is_word_register());
}

#[test]
fn uniform_read_write() {
    let mut cpu = CPU::new();
    Register::BC.write(&mut cpu, 0x1234);
    assert_eq!(Register::BC.read(&cpu), 0x1234);
    assert_eq!(Register::B.read(&cpu), 0x12);
    Register::A.write(&mut cpu, 0x01AB);
    assert_eq!(Register::A.read(&cpu), 0xAB);
    Register::FlagZ.write(&mut cpu, 1);
    assert_eq!(Register::FlagZ.read(&cpu), 1);
    Register::FlagZ.write(&mut cpu, 0);
    assert_eq!(Register::FlagZ.read(&cpu), 0);
}
