use gbemu::cpu::Cpu;
use gbemu::cpu::Flag;
use gbemu::mem::Memory;

/// A ROM-only image with the given code placed at the boot entry 0x100.
fn rom_with(code: &[u8]) -> Vec<u8> {
    let mut v = vec![0u8; 0x8000];
    v[0x147] = 0x00;
    v[0x100..0x100 + code.len()].copy_from_slice(code);
    v
}

fn run(code: &[u8], steps: usize) -> (Cpu, Memory) {
    let mut mem = Memory::new(rom_with(code)).expect("known cartridge type");
    let mut cpu = Cpu::new();
    for _ in 0..steps {
        cpu.step(&mut mem).unwrap();
    }
    (cpu, mem)
}

#[test]
fn register_to_register_moves() {
    // LD B, 0x12; LD C, B.
    let (cpu, _) = run(&[0x06, 0x12, 0x48], 2);
    assert_eq!(cpu.bc(), 0x1212);
}

#[test]
fn moves_through_hl() {
    // LD HL, 0xC000; LD B, 0x7E; LD (HL), B; LD A, (HL).
    let (cpu, mut mem) = run(&[0x21, 0x00, 0xC0, 0x06, 0x7E, 0x70, 0x7E], 4);
    assert_eq!(mem.read_word(0xC000).unwrap(), 0x7E);
    assert_eq!(cpu.a(), 0x7E);
}

#[test]
fn indirect_loads_through_bc() {
    // LD BC, 0xC010; LD (BC), A; XOR A; LD A, (BC).
    let (cpu, mut mem) = run(&[0x01, 0x10, 0xC0, 0x02, 0xAF, 0x0A], 4);
    assert_eq!(mem.read_word(0xC010).unwrap(), 0x01);
    assert_eq!(cpu.a(), 0x01);
}

#[test]
fn absolute_address_loads() {
    // LD (0xC020), A; XOR A; LD A, (0xC020).
    let (cpu, mut mem) = run(&[0xEA, 0x20, 0xC0, 0xAF, 0xFA, 0x20, 0xC0], 3);
    assert_eq!(mem.read_word(0xC020).unwrap(), 0x01);
    assert_eq!(cpu.a(), 0x01);
}

#[test]
fn high_page_loads_through_c() {
    // LD A, 0x1F; LD C, 0x0F; LD (C), A lands in the interrupt-request
    // byte; XOR A; LD A, (C) reads it back.
    let (cpu, mut mem) = run(&[0x3E, 0x1F, 0x0E, 0x0F, 0xE2, 0xAF, 0xF2], 5);
    assert_eq!(mem.read_word(0xFF0F).unwrap(), 0x1F);
    assert_eq!(cpu.a(), 0x1F);
}

#[test]
fn high_page_load_reads_scan_line_stub() {
    // LDH A, (0x44) reads the stubbed scan line.
    let (cpu, _) = run(&[0xF0, 0x44], 1);
    assert_eq!(cpu.a(), 0x90);
}

#[test]
fn absolute_jump_timing() {
    let (cpu, mem) = run(&[0xC3, 0x00, 0x02], 1);
    assert_eq!(cpu.pc(), 0x0200);
    assert_eq!(mem.cycles(), 16);
}

#[test]
fn conditional_jump_taken_and_untaken() {
    // XOR A sets Z: JP NZ is not taken, JP Z is.
    let (cpu, mem) = run(&[0xAF, 0xC2, 0x00, 0x02], 2);
    assert_eq!(cpu.pc(), 0x0104);
    assert_eq!(mem.cycles(), 4 + 12);
    let (cpu, mem) = run(&[0xAF, 0xCA, 0x00, 0x02], 2);
    assert_eq!(cpu.pc(), 0x0200);
    assert_eq!(mem.cycles(), 4 + 16);
}

#[test]
fn jump_through_hl_is_one_fetch() {
    // LD HL, 0x0200; JP (HL).
    let (cpu, mem) = run(&[0x21, 0x00, 0x02, 0xE9], 2);
    assert_eq!(cpu.pc(), 0x0200);
    assert_eq!(mem.cycles(), 12 + 4);
}

#[test]
fn sp_from_hl() {
    // LD HL, 0x1234; LD SP, HL.
    let (cpu, mem) = run(&[0x21, 0x34, 0x12, 0xF9], 2);
    assert_eq!(cpu.sp(), 0x1234);
    assert_eq!(mem.cycles(), 12 + 8);
}

#[test]
fn add_sp_signed_immediate() {
    // ADD SP, +2 from the boot SP of 0xFFFE wraps to zero with both
    // carries, Z and N clear.
    let (cpu, mem) = run(&[0xE8, 0x02], 1);
    assert_eq!(cpu.sp(), 0x0000);
    assert_eq!(cpu.f_byte(), 0x30);
    assert_eq!(mem.cycles(), 8);
}

#[test]
fn ld_hl_sp_signed_immediate() {
    // LD HL, SP-2 from the boot SP of 0xFFFE.
    let (cpu, _) = run(&[0xF8, 0xFE], 1);
    assert_eq!(cpu.hl(), 0xFFFC);
    assert_eq!(cpu.sp(), 0xFFFE);
    assert_eq!(cpu.f_byte(), 0x30);
}

#[test]
fn conditional_call_taken_and_untaken() {
    // XOR A sets Z: CALL NZ falls through in 12 T-states, CALL Z takes 24.
    let (cpu, mem) = run(&[0xAF, 0xC4, 0x00, 0x02], 2);
    assert_eq!(cpu.pc(), 0x0104);
    assert_eq!(cpu.sp(), 0xFFFE);
    assert_eq!(mem.cycles(), 4 + 12);
    let (cpu, mem) = run(&[0xAF, 0xCC, 0x00, 0x02], 2);
    assert_eq!(cpu.pc(), 0x0200);
    assert_eq!(cpu.sp(), 0xFFFC);
    assert_eq!(mem.cycles(), 4 + 24);
}

#[test]
fn reti_pops_and_enables_interrupts() {
    let mut rom = rom_with(&[0xCD, 0x00, 0x02]);
    rom[0x200] = 0xD9;
    let mut mem = Memory::new(rom).unwrap();
    let mut cpu = Cpu::new();
    cpu.step(&mut mem).unwrap();
    assert!(!cpu.ime());
    let before = mem.cycles();
    cpu.step(&mut mem).unwrap();
    assert!(cpu.ime());
    assert_eq!(cpu.pc(), 0x0103);
    assert_eq!(cpu.sp(), 0xFFFE);
    assert_eq!(mem.cycles(), before + 16);
}

#[test]
fn sixteen_bit_inc_dec() {
    // INC BC then DEC BC, flags untouched, one internal cycle each.
    let (cpu, mem) = run(&[0x03], 1);
    assert_eq!(cpu.bc(), 0x0014);
    assert_eq!(cpu.f_byte(), 0xB0);
    assert_eq!(mem.cycles(), 8);
    let (cpu, _) = run(&[0x0B], 1);
    assert_eq!(cpu.bc(), 0x0012);
    // wrap-around both ways
    let (cpu, _) = run(&[0x21, 0xFF, 0xFF, 0x23], 2);
    assert_eq!(cpu.hl(), 0x0000);
    let (cpu, _) = run(&[0x21, 0x00, 0x00, 0x2B], 2);
    assert_eq!(cpu.hl(), 0xFFFF);
}

#[test]
fn daa_adjusts_bcd_difference() {
    // LD A, 0x42; SUB 0x15; DAA gives the decimal difference 0x27.
    let (cpu, _) = run(&[0x3E, 0x42, 0xD6, 0x15, 0x27], 3);
    assert_eq!(cpu.a(), 0x27);
    assert!(cpu.get_flag(Flag::N)); // DAA preserves the subtract flag
    assert!(!cpu.get_flag(Flag::C));
}

#[test]
fn add_hl_to_itself_carries_out() {
    // LD HL, 0x8000; ADD HL, HL overflows to zero with only C set; Z is
    // untouched and keeps its boot value.
    let (cpu, _) = run(&[0x21, 0x00, 0x80, 0x29], 2);
    assert_eq!(cpu.hl(), 0x0000);
    assert!(cpu.get_flag(Flag::C));
    assert!(!cpu.get_flag(Flag::H));
    assert!(!cpu.get_flag(Flag::N));
    assert!(cpu.get_flag(Flag::Z));
}

#[test]
fn inc_dec_through_hl() {
    // LD HL, 0xC000; INC (HL) turns the zeroed byte into one.
    let (_, mut mem) = run(&[0x21, 0x00, 0xC0, 0x34], 2);
    assert_eq!(mem.read_word(0xC000).unwrap(), 0x01);
    assert_eq!(mem.cycles() - 4, 12 + 12); // one read spent checking
    // DEC (HL) on a zeroed byte wraps to 0xFF with N and H.
    let (cpu, mut mem) = run(&[0x21, 0x00, 0xC0, 0x35], 2);
    assert_eq!(mem.read_word(0xC000).unwrap(), 0xFF);
    assert!(cpu.get_flag(Flag::N));
    assert!(cpu.get_flag(Flag::H));
}
