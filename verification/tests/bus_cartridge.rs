use gbemu::cartridge::Cartridge;
use gbemu::cpu::Cpu;
use gbemu::fault::Fault;
use gbemu::mem::Memory;

/// A ROM-only image with the given code placed at the boot entry 0x100.
fn rom_with(code: &[u8]) -> Vec<u8> {
    let mut v = vec![0u8; 0x8000];
    v[0x147] = 0x00;
    v[0x100..0x100 + code.len()].copy_from_slice(code);
    v
}

#[test]
fn unknown_header_byte_loads_nothing() {
    let mut rom = vec![0u8; 0x8000];
    rom[0x147] = 0x04; // not an enumerator
    assert!(Cartridge::load(rom.clone()).is_none());
    assert!(Memory::new(rom).is_none());
}

#[test]
fn rom_only_write_is_fatal() {
    let mut mem = Memory::new(rom_with(&[])).unwrap();
    assert_eq!(
        mem.write_word(0x1000, 0x55),
        Err(Fault::RomWrite { addr: 0x1000, val: 0x55 })
    );
}

#[test]
fn mbc1_bank_switch_redirects_reads() {
    let mut rom = vec![0u8; 0x10000]; // four banks
    rom[0x147] = 0x01;
    rom[0x2000] = 0xAA; // fixed bank
    rom[0x4000] = 0x11; // bank 1
    rom[0x8000] = 0x22; // bank 2
    rom[0xC000] = 0x33; // bank 3
    let mut mem = Memory::new(rom).unwrap();
    assert_eq!(mem.read_word(0x2000).unwrap(), 0xAA);
    assert_eq!(mem.read_word(0x4000).unwrap(), 0x11);
    mem.write_word(0x2000, 0x02).unwrap();
    assert_eq!(mem.read_word(0x4000).unwrap(), 0x22);
    assert_eq!(mem.read_word(0x2000).unwrap(), 0xAA); // fixed bank unmoved
    mem.write_word(0x3FFF, 0x03).unwrap();
    assert_eq!(mem.read_word(0x4000).unwrap(), 0x33);
    // only the low five bits of the write select the bank
    mem.write_word(0x2000, 0x22).unwrap();
    assert_eq!(mem.read_word(0x4000).unwrap(), 0x22);
}

#[test]
fn mbc1_write_outside_bank_select_is_unimplemented() {
    let mut rom = vec![0u8; 0x10000];
    rom[0x147] = 0x01;
    let mut mem = Memory::new(rom).unwrap();
    assert_eq!(
        mem.write_word(0x5000, 0x01),
        Err(Fault::UnimplementedMbcWrite { addr: 0x5000, val: 0x01 })
    );
    assert_eq!(
        mem.write_word(0xA000, 0x07),
        Err(Fault::UnimplementedMbcWrite { addr: 0xA000, val: 0x07 })
    );
}

#[test]
fn unsupported_cartridge_family_faults_on_access() {
    let mut rom = vec![0u8; 0x8000];
    rom[0x147] = 0x05; // recognized family without an implemented mapping
    let mut mem = Memory::new(rom).unwrap();
    assert_eq!(mem.read_word(0x0000), Err(Fault::UnsupportedCartType));
    assert_eq!(mem.write_word(0x2000, 1), Err(Fault::UnsupportedCartType));
    // even the opcode fetch faults
    let mut cpu = Cpu::new();
    assert_eq!(cpu.step(&mut mem), Err(Fault::UnsupportedCartType));
}

#[test]
fn echo_ram_mirrors_work_ram() {
    let mut mem = Memory::new(rom_with(&[])).unwrap();
    mem.write_word(0xC123, 0x42).unwrap();
    assert_eq!(mem.read_word(0xE123).unwrap(), 0x42);
    mem.write_word(0xE500, 0x24).unwrap();
    assert_eq!(mem.read_word(0xC500).unwrap(), 0x24);
    mem.write_word(0xF234, 0x77).unwrap(); // echo of the second bank
    assert_eq!(mem.read_word(0xD234).unwrap(), 0x77);
}

#[test]
fn reserved_ranges_read_zero_and_drop_writes() {
    let mut mem = Memory::new(rom_with(&[])).unwrap();
    mem.write_word(0xFE00, 0x99).unwrap();
    assert_eq!(mem.read_word(0xFE00).unwrap(), 0);
    mem.write_word(0xFEA0, 0x99).unwrap();
    assert_eq!(mem.read_word(0xFEA0).unwrap(), 0);
}

#[test]
fn io_registers_and_high_ram() {
    let mut mem = Memory::new(rom_with(&[])).unwrap();
    // the stubbed scan-line register always reads 0x90
    assert_eq!(mem.read_word(0xFF44).unwrap(), 0x90);
    // unhandled registers read zero and drop writes
    mem.write_word(0xFF40, 0x12).unwrap();
    assert_eq!(mem.read_word(0xFF40).unwrap(), 0);
    // the divider/timer window and the interrupt bytes store
    mem.write_word(0xFF05, 0x0A).unwrap();
    assert_eq!(mem.read_word(0xFF05).unwrap(), 0x0A);
    mem.write_word(0xFF0F, 0x1F).unwrap();
    assert_eq!(mem.read_word(0xFF0F).unwrap(), 0x1F);
    mem.write_word(0xFFFF, 0x0B).unwrap();
    assert_eq!(mem.read_word(0xFFFF).unwrap(), 0x0B);
    // high RAM and video RAM store
    mem.write_word(0xFF80, 0x5A).unwrap();
    assert_eq!(mem.read_word(0xFF80).unwrap(), 0x5A);
    mem.write_word(0x8000, 0x3C).unwrap();
    assert_eq!(mem.read_word(0x8000).unwrap(), 0x3C);
}

#[test]
fn serial_side_channel_collects_bytes() {
    let mut mem = Memory::new(rom_with(&[])).unwrap();
    mem.write_word(0xFF01, b'o').unwrap();
    mem.write_word(0xFF02, 0x81).unwrap(); // transfer-control write is a no-op
    mem.write_word(0xFF01, b'k').unwrap();
    assert_eq!(mem.serial().as_slice(), b"ok");
}

#[test]
fn every_bus_byte_access_costs_four_t_states() {
    let mut mem = Memory::new(rom_with(&[])).unwrap();
    assert_eq!(mem.cycles(), 0);
    mem.read_word(0x0000).unwrap();
    assert_eq!(mem.cycles(), 4);
    mem.write_word(0xC000, 1).unwrap();
    assert_eq!(mem.cycles(), 8);
    mem.read_word(0xFFFF).unwrap();
    assert_eq!(mem.cycles(), 12);
}

#[test]
fn illegal_opcodes_fault_with_the_opcode() {
    for op in [0xD3u8, 0xDB, 0xDD, 0xE3, 0xE4, 0xEB, 0xEC, 0xED, 0xF4, 0xFC, 0xFD] {
        let mut mem = Memory::new(rom_with(&[op])).unwrap();
        let mut cpu = Cpu::new();
        assert_eq!(cpu.step(&mut mem), Err(Fault::UnimplementedOpcode { op }), "{op:#x}");
    }
}

#[test]
fn halt_is_recognized_but_unimplemented() {
    let mut mem = Memory::new(rom_with(&[0x76])).unwrap();
    let mut cpu = Cpu::new();
    assert_eq!(cpu.step(&mut mem), Err(Fault::UnimplementedOpcode { op: 0x76 }));
}

#[test]
fn stop_skips_two_bytes() {
    let mut mem = Memory::new(rom_with(&[0x10, 0x00])).unwrap();
    let mut cpu = Cpu::new();
    cpu.step(&mut mem).unwrap();
    assert_eq!(cpu.pc(), 0x0102);
}
