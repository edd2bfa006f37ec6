use gbemu::cpu::Cpu;
use gbemu::cpu::Flag;
use gbemu::gb::Gameboy;
use gbemu::mem::Memory;

/// A ROM-only image with the given code placed at the boot entry 0x100.
fn rom_with(code: &[u8]) -> Vec<u8> {
    let mut v = vec![0u8; 0x8000];
    v[0x147] = 0x00;
    v[0x100..0x100 + code.len()].copy_from_slice(code);
    v
}

fn machine(code: &[u8]) -> (Cpu, Memory) {
    let mem = Memory::new(rom_with(code)).expect("known cartridge type");
    (Cpu::new(), mem)
}

#[test]
fn boot_state() {
    let gb = Gameboy::new(rom_with(&[])).expect("known cartridge type");
    let cpu = gb.cpu();
    assert_eq!(cpu.a(), 0x01);
    assert_eq!(cpu.f_byte(), 0xB0);
    assert_eq!(cpu.af(), 0x01B0);
    assert_eq!(cpu.bc(), 0x0013);
    assert_eq!(cpu.de(), 0x00D8);
    assert_eq!(cpu.hl(), 0x014D);
    assert_eq!(cpu.sp(), 0xFFFE);
    assert_eq!(cpu.pc(), 0x0100);
    assert!(!cpu.ime());
    assert_eq!(gb.mem().cycles(), 0);
}

#[test]
fn nop_advances_only_pc() {
    let (mut cpu, mut mem) = machine(&[0x00]);
    cpu.step(&mut mem).unwrap();
    assert_eq!(cpu.pc(), 0x0101);
    assert_eq!(cpu.af(), 0x01B0);
    assert_eq!(cpu.bc(), 0x0013);
    assert_eq!(cpu.de(), 0x00D8);
    assert_eq!(cpu.hl(), 0x014D);
    assert_eq!(cpu.sp(), 0xFFFE);
    assert_eq!(mem.cycles(), 4);
}

#[test]
fn ld_bc_immediate() {
    let (mut cpu, mut mem) = machine(&[0x01, 0x34, 0x12]);
    cpu.step(&mut mem).unwrap();
    assert_eq!(cpu.bc(), 0x1234);
    assert_eq!(cpu.pc(), 0x0103);
    assert_eq!(mem.cycles(), 12);
}

#[test]
fn xor_a_zeroes_and_sets_z() {
    // LD A, 0x5A then XOR A.
    let (mut cpu, mut mem) = machine(&[0x3E, 0x5A, 0xAF]);
    cpu.step(&mut mem).unwrap();
    assert_eq!(cpu.a(), 0x5A);
    let pc0 = cpu.pc();
    let cy0 = mem.cycles();
    cpu.step(&mut mem).unwrap();
    assert_eq!(cpu.a(), 0x00);
    assert_eq!(cpu.f_byte(), 0x80);
    assert_eq!(cpu.pc(), pc0 + 1);
    assert_eq!(mem.cycles(), cy0 + 4);
}

#[test]
fn add_a_immediate_carries() {
    // LD A, 0x20 then ADD A, 0xF0.
    let (mut cpu, mut mem) = machine(&[0x3E, 0x20, 0xC6, 0xF0]);
    cpu.step(&mut mem).unwrap();
    let pc0 = cpu.pc();
    let cy0 = mem.cycles();
    cpu.step(&mut mem).unwrap();
    assert_eq!(cpu.a(), 0x10);
    assert_eq!(cpu.f_byte(), 0x10);
    assert!(!cpu.get_flag(Flag::Z));
    assert!(!cpu.get_flag(Flag::N));
    assert!(!cpu.get_flag(Flag::H));
    assert!(cpu.get_flag(Flag::C));
    assert_eq!(cpu.pc(), pc0 + 2);
    assert_eq!(mem.cycles(), cy0 + 8);
}

#[test]
fn call_pushes_return_address_and_ret_restores() {
    // CALL 0x0200 at 0x100; RET at 0x200.
    let mut rom = rom_with(&[0xCD, 0x00, 0x02]);
    rom[0x200] = 0xC9;
    let mut mem = Memory::new(rom).expect("known cartridge type");
    let mut cpu = Cpu::new();
    cpu.step(&mut mem).unwrap();
    assert_eq!(cpu.pc(), 0x0200);
    assert_eq!(cpu.sp(), 0xFFFC);
    assert_eq!(mem.cycles(), 24);
    assert_eq!(mem.read_word(0xFFFD).unwrap(), 0x01);
    assert_eq!(mem.read_word(0xFFFC).unwrap(), 0x03);
    let cy0 = mem.cycles();
    cpu.step(&mut mem).unwrap();
    assert_eq!(cpu.pc(), 0x0103);
    assert_eq!(cpu.sp(), 0xFFFE);
    assert_eq!(mem.cycles(), cy0 + 16);
}

#[test]
fn push_pop_through_instructions() {
    // PUSH BC then POP DE moves BC into DE and restores SP.
    let (mut cpu, mut mem) = machine(&[0xC5, 0xD1]);
    cpu.step(&mut mem).unwrap();
    assert_eq!(cpu.sp(), 0xFFFC);
    cpu.step(&mut mem).unwrap();
    assert_eq!(cpu.de(), 0x0013);
    assert_eq!(cpu.sp(), 0xFFFE);
}

#[test]
fn pop_af_masks_low_nibble() {
    // LD BC, 0x12FF; PUSH BC; POP AF: F keeps only its top nibble.
    let (mut cpu, mut mem) = machine(&[0x01, 0xFF, 0x12, 0xC5, 0xF1]);
    cpu.step(&mut mem).unwrap();
    cpu.step(&mut mem).unwrap();
    cpu.step(&mut mem).unwrap();
    assert_eq!(cpu.af(), 0x12F0);
    assert_eq!(cpu.a(), 0x12);
    assert_eq!(cpu.f_byte(), 0xF0);
}

#[test]
fn jr_taken_and_untaken_cycles() {
    // XOR A sets Z; JR NZ, +2 is not taken; JR Z, +1 is taken.
    let (mut cpu, mut mem) = machine(&[0xAF, 0x20, 0x02, 0x28, 0x01]);
    cpu.step(&mut mem).unwrap();
    let cy0 = mem.cycles();
    cpu.step(&mut mem).unwrap();
    assert_eq!(cpu.pc(), 0x0103);
    assert_eq!(mem.cycles(), cy0 + 8);
    let cy1 = mem.cycles();
    cpu.step(&mut mem).unwrap();
    assert_eq!(cpu.pc(), 0x0106);
    assert_eq!(mem.cycles(), cy1 + 12);
}

#[test]
fn jr_backwards_offset_is_signed() {
    // NOP; NOP; JR -3 lands back on the second NOP.
    let (mut cpu, mut mem) = machine(&[0x00, 0x00, 0x18, 0xFD]);
    cpu.step(&mut mem).unwrap();
    cpu.step(&mut mem).unwrap();
    cpu.step(&mut mem).unwrap();
    assert_eq!(cpu.pc(), 0x0101);
}

#[test]
fn di_and_ei_toggle_ime() {
    let (mut cpu, mut mem) = machine(&[0xFB, 0xF3]);
    assert!(!cpu.ime());
    cpu.step(&mut mem).unwrap();
    assert!(cpu.ime());
    cpu.step(&mut mem).unwrap();
    assert!(!cpu.ime());
}

#[test]
fn ld_u16p_sp_stores_little_endian() {
    // LD (0xC000), SP with the boot SP of 0xFFFE.
    let (mut cpu, mut mem) = machine(&[0x08, 0x00, 0xC0]);
    cpu.step(&mut mem).unwrap();
    assert_eq!(cpu.pc(), 0x0103);
    assert_eq!(mem.cycles(), 20);
    assert_eq!(mem.read_word(0xC000).unwrap(), 0xFE);
    assert_eq!(mem.read_word(0xC001).unwrap(), 0xFF);
}

#[test]
fn inc_dec_r8_flags() {
    // LD B, 0xFF; INC B wraps to zero with Z and H set, C untouched.
    let (mut cpu, mut mem) = machine(&[0x06, 0xFF, 0x04, 0x05]);
    cpu.step(&mut mem).unwrap();
    cpu.step(&mut mem).unwrap();
    assert_eq!(cpu.bc() >> 8, 0x00);
    assert!(cpu.get_flag(Flag::Z));
    assert!(!cpu.get_flag(Flag::N));
    assert!(cpu.get_flag(Flag::H));
    assert!(cpu.get_flag(Flag::C)); // boot carry preserved
    // DEC B: 0x00 -> 0xFF with N and H set.
    cpu.step(&mut mem).unwrap();
    assert_eq!(cpu.bc() >> 8, 0xFF);
    assert!(!cpu.get_flag(Flag::Z));
    assert!(cpu.get_flag(Flag::N));
    assert!(cpu.get_flag(Flag::H));
}

#[test]
fn add_hl_r16_half_carry() {
    // LD HL, 0x0FFF; LD BC, 0x0001; ADD HL, BC.
    let (mut cpu, mut mem) = machine(&[0x21, 0xFF, 0x0F, 0x01, 0x01, 0x00, 0x09]);
    cpu.step(&mut mem).unwrap();
    cpu.step(&mut mem).unwrap();
    let cy0 = mem.cycles();
    cpu.step(&mut mem).unwrap();
    assert_eq!(cpu.hl(), 0x1000);
    assert!(!cpu.get_flag(Flag::N));
    assert!(cpu.get_flag(Flag::H));
    assert!(!cpu.get_flag(Flag::C));
    assert_eq!(mem.cycles(), cy0 + 8);
}

#[test]
fn hl_post_increment_and_decrement() {
    // LD HL, 0xC000; LD (HL+), A; LD (HL-), A.
    let (mut cpu, mut mem) = machine(&[0x21, 0x00, 0xC0, 0x22, 0x32]);
    cpu.step(&mut mem).unwrap();
    cpu.step(&mut mem).unwrap();
    assert_eq!(cpu.hl(), 0xC001);
    cpu.step(&mut mem).unwrap();
    assert_eq!(cpu.hl(), 0xC000);
    assert_eq!(mem.read_word(0xC000).unwrap(), 0x01);
    assert_eq!(mem.read_word(0xC001).unwrap(), 0x01);
}

#[test]
fn rst_jumps_to_vector() {
    // RST 0x28 (0xEF) pushes 0x101 and jumps to 0x28.
    let (mut cpu, mut mem) = machine(&[0xEF]);
    cpu.step(&mut mem).unwrap();
    assert_eq!(cpu.pc(), 0x0028);
    assert_eq!(cpu.sp(), 0xFFFC);
    assert_eq!(mem.read_word(0xFFFD).unwrap(), 0x01);
    assert_eq!(mem.read_word(0xFFFC).unwrap(), 0x01);
}

#[test]
fn daa_adjusts_bcd_sum() {
    // LD A, 0x15; ADD A, 0x27; DAA gives the decimal sum 0x42.
    let (mut cpu, mut mem) = machine(&[0x3E, 0x15, 0xC6, 0x27, 0x27]);
    cpu.step(&mut mem).unwrap();
    cpu.step(&mut mem).unwrap();
    assert_eq!(cpu.a(), 0x3C);
    cpu.step(&mut mem).unwrap();
    assert_eq!(cpu.a(), 0x42);
    assert!(!cpu.get_flag(Flag::Z));
    assert!(!cpu.get_flag(Flag::C));
    assert!(!cpu.get_flag(Flag::H));
}
