use gbemu::cpu::Cpu;
use gbemu::cpu::Flag;
use gbemu::mem::Memory;

/// A ROM-only image with the given code placed at the boot entry 0x100.
fn rom_with(code: &[u8]) -> Vec<u8> {
    let mut v = vec![0u8; 0x8000];
    v[0x147] = 0x00;
    v[0x100..0x100 + code.len()].copy_from_slice(code);
    v
}

fn run(code: &[u8], steps: usize) -> (Cpu, Memory) {
    let mut mem = Memory::new(rom_with(code)).expect("known cartridge type");
    let mut cpu = Cpu::new();
    for _ in 0..steps {
        cpu.step(&mut mem).unwrap();
    }
    (cpu, mem)
}

#[test]
fn rlca_then_rrca_round_trips() {
    for v in [0x00u8, 0x01, 0x55, 0x80, 0xAA, 0xFF] {
        // XOR A; LD A, v; RLCA; RRCA.
        let (cpu, _) = run(&[0xAF, 0x3E, v, 0x07, 0x0F], 4);
        assert_eq!(cpu.a(), v, "round trip {v:#x}");
        // the right rotation takes its carry from bit 0 of the rotated
        // value, which is bit 7 of the original
        assert_eq!(cpu.get_flag(Flag::C), v & 0x80 != 0, "carry {v:#x}");
        assert!(!cpu.get_flag(Flag::Z));
        assert!(!cpu.get_flag(Flag::N));
        assert!(!cpu.get_flag(Flag::H));
    }
}

#[test]
fn rlca_moves_top_bit_to_carry_and_bottom() {
    let (cpu, _) = run(&[0x3E, 0x85, 0x07], 2);
    assert_eq!(cpu.a(), 0x0B);
    assert!(cpu.get_flag(Flag::C));
}

#[test]
fn rla_rotates_through_carry() {
    // XOR A clears carry; LD A, 0x80; RLA leaves A zero and sets carry;
    // a second RLA pulls the carry back into bit 0.
    let (cpu, _) = run(&[0xAF, 0x3E, 0x80, 0x17, 0x17], 4);
    assert_eq!(cpu.a(), 0x01);
    assert!(!cpu.get_flag(Flag::C));
}

#[test]
fn rra_rotates_through_carry() {
    // XOR A; LD A, 0x01; RRA gives zero with carry set; RRA again puts
    // the carry in bit 7.
    let (cpu, _) = run(&[0xAF, 0x3E, 0x01, 0x1F, 0x1F], 4);
    assert_eq!(cpu.a(), 0x80);
    assert!(!cpu.get_flag(Flag::C));
}

#[test]
fn cpl_scf_ccf() {
    // LD A, 0x0F; CPL complements and sets N and H.
    let (cpu, _) = run(&[0x3E, 0x0F, 0x2F], 2);
    assert_eq!(cpu.a(), 0xF0);
    assert!(cpu.get_flag(Flag::N));
    assert!(cpu.get_flag(Flag::H));
    // SCF sets carry, CCF flips it back.
    let (cpu, _) = run(&[0xAF, 0x37], 2);
    assert!(cpu.get_flag(Flag::C));
    let (cpu, _) = run(&[0xAF, 0x37, 0x3F], 3);
    assert!(!cpu.get_flag(Flag::C));
}

#[test]
fn swap_twice_round_trips() {
    for v in [0x00u8, 0x12, 0xF0, 0x0F, 0xAB] {
        // LD A, v; SWAP A once, then again.
        let (cpu, _) = run(&[0x3E, v, 0xCB, 0x37], 2);
        assert_eq!(cpu.a(), v.rotate_right(4), "one swap {v:#x}");
        assert_eq!(cpu.get_flag(Flag::Z), v == 0);
        let (cpu, _) = run(&[0x3E, v, 0xCB, 0x37, 0xCB, 0x37], 3);
        assert_eq!(cpu.a(), v, "two swaps {v:#x}");
        assert_eq!(cpu.get_flag(Flag::Z), v == 0);
    }
}

#[test]
fn bit_test_sets_z_from_bit_and_writes_nothing() {
    // LD A, 0x01; BIT 0, A then BIT 7, A.
    let (cpu, _) = run(&[0x3E, 0x01, 0xCB, 0x47], 2);
    assert_eq!(cpu.a(), 0x01);
    assert!(!cpu.get_flag(Flag::Z));
    assert!(!cpu.get_flag(Flag::N));
    assert!(cpu.get_flag(Flag::H));
    let (cpu, _) = run(&[0x3E, 0x01, 0xCB, 0x7F], 2);
    assert_eq!(cpu.a(), 0x01);
    assert!(cpu.get_flag(Flag::Z));
}

#[test]
fn bit_test_keeps_carry() {
    // SCF sets carry; BIT 0, A leaves it.
    let (cpu, _) = run(&[0x37, 0xCB, 0x47], 2);
    assert!(cpu.get_flag(Flag::C));
}

#[test]
fn res_and_set_rewrite_single_bits() {
    // LD A, 0xFF; RES 0, A clears bit 0.
    let (cpu, _) = run(&[0x3E, 0xFF, 0xCB, 0x87], 2);
    assert_eq!(cpu.a(), 0xFE);
    // LD A, 0x00; SET 3, A sets bit 3.
    let (cpu, _) = run(&[0x3E, 0x00, 0xCB, 0xDF], 2);
    assert_eq!(cpu.a(), 0x08);
}

#[test]
fn shifts_right_and_left() {
    // LD B, 0x81; SRL B: logical shift right.
    let (cpu, _) = run(&[0x06, 0x81, 0xCB, 0x38], 2);
    assert_eq!(cpu.bc() >> 8, 0x40);
    assert!(cpu.get_flag(Flag::C));
    // LD B, 0x81; SRA B: arithmetic shift keeps the sign bit.
    let (cpu, _) = run(&[0x06, 0x81, 0xCB, 0x28], 2);
    assert_eq!(cpu.bc() >> 8, 0xC0);
    assert!(cpu.get_flag(Flag::C));
    // LD B, 0xC0; SLA B: shift left, top bit to carry.
    let (cpu, _) = run(&[0x06, 0xC0, 0xCB, 0x20], 2);
    assert_eq!(cpu.bc() >> 8, 0x80);
    assert!(cpu.get_flag(Flag::C));
}

#[test]
fn rotate_works_through_hl() {
    // LD HL, 0xC000; LD (HL), 0x80; RLC (HL).
    let (cpu, mut mem) = run(&[0x21, 0x00, 0xC0, 0x36, 0x80, 0xCB, 0x06], 3);
    assert_eq!(mem.read_word(0xC000).unwrap(), 0x01);
    assert!(cpu.get_flag(Flag::C));
}

#[test]
fn cb_instruction_length_and_cycles() {
    // SWAP A takes two bytes and eight T-states; SWAP (HL) takes sixteen.
    let (cpu, mem) = run(&[0xCB, 0x37], 1);
    assert_eq!(cpu.pc(), 0x0102);
    assert_eq!(mem.cycles(), 8);
    let (cpu, mem) = run(&[0x21, 0x00, 0xC0, 0xCB, 0x36], 2);
    assert_eq!(cpu.pc(), 0x0105);
    assert_eq!(mem.cycles(), 12 + 16);
}
