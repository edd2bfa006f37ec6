use gbemu::fault::Fault;
use gbemu::gb::Gameboy;

/// A ROM-only image with the given code placed at the boot entry 0x100.
fn rom_with(code: &[u8]) -> Vec<u8> {
    let mut v = vec![0u8; 0x8000];
    v[0x147] = 0x00;
    v[0x100..0x100 + code.len()].copy_from_slice(code);
    v
}

#[test]
fn machine_streams_serial_banner() {
    // LD A,'H'; LDH (0x01),A; LD A,'i'; LDH (0x01),A
    let code = [0x3E, b'H', 0xE0, 0x01, 0x3E, b'i', 0xE0, 0x01];
    let mut gb = Gameboy::new(rom_with(&code)).unwrap();
    gb.run(4).unwrap();
    assert_eq!(gb.mem().serial().as_slice(), b"Hi");
    // two loads at 8 T-states, two high-page stores at 12
    assert_eq!(gb.mem().cycles(), 8 + 12 + 8 + 12);
}

#[test]
fn machine_run_stops_at_first_fault() {
    // one NOP, then an illegal opcode
    let mut gb = Gameboy::new(rom_with(&[0x00, 0xD3])).unwrap();
    assert_eq!(gb.run(100), Err(Fault::UnimplementedOpcode { op: 0xD3 }));
    // the faulting fetch does not advance the counter past the bad opcode
    assert_eq!(gb.cpu().pc(), 0x0101);
}

#[test]
fn machine_run_zero_steps_changes_nothing() {
    let mut gb = Gameboy::new(rom_with(&[0x00])).unwrap();
    gb.run(0).unwrap();
    assert_eq!(gb.cpu().pc(), 0x0100);
    assert_eq!(gb.mem().cycles(), 0);
}

#[test]
fn machine_single_step_equals_run_of_one() {
    let mut a = Gameboy::new(rom_with(&[0x01, 0x34, 0x12])).unwrap();
    let mut b = Gameboy::new(rom_with(&[0x01, 0x34, 0x12])).unwrap();
    a.step().unwrap();
    b.run(1).unwrap();
    assert_eq!(a.cpu().bc(), b.cpu().bc());
    assert_eq!(a.cpu().pc(), b.cpu().pc());
    assert_eq!(a.mem().cycles(), b.mem().cycles());
}

#[test]
fn cycle_counter_never_decreases_over_a_loop() {
    // a small loop: DEC B; JR NZ, -3 starting from the boot B of 0x00
    let mut gb = Gameboy::new(rom_with(&[0x05, 0x20, 0xFD])).unwrap();
    let mut last = gb.mem().cycles();
    for _ in 0..64 {
        gb.step().unwrap();
        let now = gb.mem().cycles();
        assert!(now >= last);
        // the low nibble of F stays zero after every instruction
        assert_eq!(gb.cpu().f_byte() % 16, 0);
        last = now;
    }
}

#[test]
fn conditional_return_timing() {
    // CALL 0x0200; at 0x200: RET NZ with Z clear after boot? Set flags
    // deterministically: XOR A sets Z, so RET Z returns.
    let mut rom = rom_with(&[0xAF, 0xCD, 0x00, 0x02]);
    rom[0x200] = 0xC8; // RET Z
    let mut gb = Gameboy::new(rom).unwrap();
    gb.run(2).unwrap();
    assert_eq!(gb.cpu().pc(), 0x0200);
    let before = gb.mem().cycles();
    gb.step().unwrap();
    assert_eq!(gb.cpu().pc(), 0x0104);
    assert_eq!(gb.cpu().sp(), 0xFFFE);
    // taken conditional return: fetch, two internal cycles, two pops
    assert_eq!(gb.mem().cycles(), before + 20);
}

#[test]
fn untaken_conditional_return_timing() {
    // XOR A sets Z, so RET NZ falls through.
    let mut gb = Gameboy::new(rom_with(&[0xAF, 0xC0])).unwrap();
    gb.step().unwrap();
    let before = gb.mem().cycles();
    gb.step().unwrap();
    assert_eq!(gb.cpu().pc(), 0x0102);
    assert_eq!(gb.mem().cycles(), before + 8);
}
