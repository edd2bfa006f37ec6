use gbemu::cpu::Cpu;
use gbemu::mem::Memory;

/// A ROM-only image with the given code placed at the boot entry 0x100.
fn rom_with(code: &[u8]) -> Vec<u8> {
    let mut v = vec![0u8; 0x8000];
    v[0x147] = 0x00;
    v[0x100..0x100 + code.len()].copy_from_slice(code);
    v
}

/// Runs, from a clean flag state (carry as given), `LD A, a` followed by
/// the immediate form of the ALU operation, and returns (A, F).
fn run_alu(op: u8, a: u8, rhs: u8, carry_in: bool) -> (u8, u8) {
    // XOR A clears every flag; SCF then sets carry when asked.
    let mut code = vec![0xAF];
    if carry_in {
        code.push(0x37);
    }
    code.extend_from_slice(&[0x3E, a, op, rhs]);
    let instructions = if carry_in { 4 } else { 3 };
    let mut mem = Memory::new(rom_with(&code)).expect("known cartridge type");
    let mut cpu = Cpu::new();
    for _ in 0..instructions {
        cpu.step(&mut mem).unwrap();
    }
    (cpu.a(), cpu.f_byte())
}

fn pack(z: bool, n: bool, h: bool, c: bool) -> u8 {
    (if z { 0x80 } else { 0 }) | (if n { 0x40 } else { 0 }) | (if h { 0x20 } else { 0 })
        | (if c { 0x10 } else { 0 })
}

const SAMPLES: [u8; 6] = [0x00, 0x0F, 0x10, 0x7F, 0x80, 0xFF];

#[test]
fn add_flag_table() {
    for &a in SAMPLES.iter() {
        for &rhs in SAMPLES.iter() {
            let (res, f) = run_alu(0xC6, a, rhs, false);
            let sum = a as u16 + rhs as u16;
            let expect = (sum % 256) as u8;
            assert_eq!(res, expect, "ADD {a:#x},{rhs:#x}");
            let ef = pack(expect == 0, false, (a & 0xF) + (rhs & 0xF) > 0xF, sum > 0xFF);
            assert_eq!(f, ef, "ADD flags {a:#x},{rhs:#x}");
        }
    }
}

#[test]
fn adc_flag_table() {
    for carry in [false, true] {
        for &a in SAMPLES.iter() {
            for &rhs in SAMPLES.iter() {
                let (res, f) = run_alu(0xCE, a, rhs, carry);
                let cin = carry as u16;
                let sum = a as u16 + rhs as u16 + cin;
                let expect = (sum % 256) as u8;
                assert_eq!(res, expect, "ADC {a:#x},{rhs:#x},{carry}");
                let ef = pack(
                    expect == 0,
                    false,
                    (a & 0xF) as u16 + (rhs & 0xF) as u16 + cin > 0xF,
                    sum > 0xFF,
                );
                assert_eq!(f, ef, "ADC flags {a:#x},{rhs:#x},{carry}");
            }
        }
    }
}

#[test]
fn sub_flag_table() {
    for &a in SAMPLES.iter() {
        for &rhs in SAMPLES.iter() {
            let (res, f) = run_alu(0xD6, a, rhs, false);
            let expect = a.wrapping_sub(rhs);
            assert_eq!(res, expect, "SUB {a:#x},{rhs:#x}");
            let ef = pack(expect == 0, true, (a & 0xF) < (rhs & 0xF), a < rhs);
            assert_eq!(f, ef, "SUB flags {a:#x},{rhs:#x}");
        }
    }
}

#[test]
fn sbc_flag_table() {
    for carry in [false, true] {
        for &a in SAMPLES.iter() {
            for &rhs in SAMPLES.iter() {
                let (res, f) = run_alu(0xDE, a, rhs, carry);
                let cin = carry as u8;
                let expect = a.wrapping_sub(rhs).wrapping_sub(cin);
                assert_eq!(res, expect, "SBC {a:#x},{rhs:#x},{carry}");
                let ef = pack(
                    expect == 0,
                    true,
                    ((a & 0xF) as u16) < (rhs & 0xF) as u16 + cin as u16,
                    (a as u16) < rhs as u16 + cin as u16,
                );
                assert_eq!(f, ef, "SBC flags {a:#x},{rhs:#x},{carry}");
            }
        }
    }
}

#[test]
fn and_xor_or_flag_table() {
    for &a in SAMPLES.iter() {
        for &rhs in SAMPLES.iter() {
            let (res, f) = run_alu(0xE6, a, rhs, false);
            assert_eq!(res, a & rhs);
            assert_eq!(f, pack(a & rhs == 0, false, true, false), "AND {a:#x},{rhs:#x}");
            let (res, f) = run_alu(0xEE, a, rhs, false);
            assert_eq!(res, a ^ rhs);
            assert_eq!(f, pack(a ^ rhs == 0, false, false, false), "XOR {a:#x},{rhs:#x}");
            let (res, f) = run_alu(0xF6, a, rhs, false);
            assert_eq!(res, a | rhs);
            assert_eq!(f, pack(a | rhs == 0, false, false, false), "OR {a:#x},{rhs:#x}");
        }
    }
}

#[test]
fn cp_preserves_accumulator() {
    for &a in SAMPLES.iter() {
        for &rhs in SAMPLES.iter() {
            let (res, f) = run_alu(0xFE, a, rhs, false);
            assert_eq!(res, a, "CP keeps A {a:#x},{rhs:#x}");
            let diff = a.wrapping_sub(rhs);
            let ef = pack(diff == 0, true, (a & 0xF) < (rhs & 0xF), a < rhs);
            assert_eq!(f, ef, "CP flags {a:#x},{rhs:#x}");
        }
    }
}

#[test]
fn alu_register_operand_reads_through_hl() {
    // LD HL, 0xC000; store 0x0F there; LD A, 0x01; ADD A, (HL).
    let code = [0x21, 0x00, 0xC0, 0x36, 0x0F, 0x3E, 0x01, 0x86];
    let mut mem = Memory::new(rom_with(&code)).expect("known cartridge type");
    let mut cpu = Cpu::new();
    for _ in 0..4 {
        cpu.step(&mut mem).unwrap();
    }
    assert_eq!(cpu.a(), 0x10);
    assert_eq!(cpu.f_byte(), 0x20); // half-carry only
}
