use crate::cartridge::{
    cart_read_val, cart_readable, cart_wf, cart_write_fault, cart_write_ok, cart_write_val,
    spec_cart_type, CartV, Cartridge,
};
use crate::fault::Fault;
use vstd::prelude::*;

verus! {

/// The 0xFF00-0xFF7F register block: a four-byte divider/timer window, the
/// interrupt-request byte, and the serial side channel. A write to 0xFF01
/// appends one byte to the serial output stream; every other register that
/// is not listed below is read as zero and its writes are dropped.
pub struct IoRegs {
    tim_div: Vec<u8>,
    int_f: u8,
    serial_out: Vec<u8>,
}

/// Mathematical model of the register block.
#[verifier::ext_equal]
pub ghost struct IoV {
    pub tim_div: Seq<u8>,
    pub int_f: u8,
    pub serial: Seq<u8>,
}

impl View for IoRegs {
    type V = IoV;

    closed spec fn view(&self) -> IoV {
        IoV { tim_div: self.tim_div@, int_f: self.int_f, serial: self.serial_out@ }
    }
}

pub open spec fn io_wf(io: IoV) -> bool {
    io.tim_div.len() == 4
}

/// What an I/O register read returns. Register 0xFF44 is stubbed at 0x90
/// (the scan line the boot code busy-waits for); unhandled registers read
/// as zero.
pub open spec fn io_read_val(io: IoV, addr: usize) -> u8 {
    if 0xFF04 <= addr <= 0xFF07 {
        io.tim_div[addr - 0xFF04]
    } else if addr == 0xFF0F {
        io.int_f
    } else if addr == 0xFF44 {
        0x90
    } else {
        0
    }
}

/// The register block after a write; writes to unhandled registers are
/// dropped.
pub open spec fn io_write_val(io: IoV, addr: usize, val: u8) -> IoV {
    if addr == 0xFF01 {
        IoV { serial: io.serial.push(val), ..io }
    } else if 0xFF04 <= addr <= 0xFF07 {
        IoV { tim_div: io.tim_div.update(addr - 0xFF04, val), ..io }
    } else if addr == 0xFF0F {
        IoV { int_f: val, ..io }
    } else {
        io
    }
}

impl IoRegs {
    pub fn new() -> (r: IoRegs)
        ensures
            io_wf(r@),
            r@.tim_div == Seq::<u8>::empty().push(0).push(0).push(0).push(0),
            r@.int_f == 0,
            r@.serial == Seq::<u8>::empty(),
    {
        let mut tim_div: Vec<u8> = Vec::new();
        tim_div.push(0);
        tim_div.push(0);
        tim_div.push(0);
        tim_div.push(0);
        IoRegs { tim_div, int_f: 0, serial_out: Vec::new() }
    }

    pub fn read(&self, addr: usize) -> (r: u8)
        requires
            io_wf(self@),
        ensures
            r == io_read_val(self@, addr),
    {
        if 0xFF04 <= addr && addr <= 0xFF07 {
            self.tim_div[addr - 0xFF04]
        } else if addr == 0xFF0F {
            self.int_f
        } else if addr == 0xFF44 {
            0x90
        } else {
            0
        }
    }

    pub fn write(&mut self, addr: usize, val: u8)
        requires
            io_wf(old(self)@),
        ensures
            io_wf(final(self)@),
            final(self)@ == io_write_val(old(self)@, addr, val),
    {
        if addr == 0xFF01 {
            self.serial_out.push(val);
        } else if 0xFF04 <= addr && addr <= 0xFF07 {
            self.tim_div.set(addr - 0xFF04, val);
        } else if addr == 0xFF0F {
            self.int_f = val;
        }
    }

    /// The bytes streamed through the serial register so far.
    pub fn serial(&self) -> (r: &Vec<u8>)
        ensures
            r@ == self@.serial,
    {
        &self.serial_out
    }
}

/// The single 16-bit bus: cartridge, video RAM, two work-RAM banks with an
/// echo mirror, the I/O register block, high RAM, the interrupt-enable
/// byte, and the elapsed T-state counter.
pub struct Memory {
    rom: Cartridge,
    vram: Vec<u8>,
    wram_0: Vec<u8>,
    wram_n: Vec<u8>,
    io_regs: IoRegs,
    hram: Vec<u8>,
    ie: u8,
    cycles: u64,
}

/// Mathematical model of the bus.
#[verifier::ext_equal]
pub ghost struct MemV {
    pub cart: CartV,
    pub vram: Seq<u8>,
    pub wram0: Seq<u8>,
    pub wramn: Seq<u8>,
    pub io: IoV,
    pub hram: Seq<u8>,
    pub ie: u8,
    pub cycles: u64,
}

impl View for Memory {
    type V = MemV;

    closed spec fn view(&self) -> MemV {
        MemV {
            cart: self.rom@,
            vram: self.vram@,
            wram0: self.wram_0@,
            wramn: self.wram_n@,
            io: self.io_regs@,
            hram: self.hram@,
            ie: self.ie,
            cycles: self.cycles,
        }
    }
}

pub open spec fn mem_wf(m: MemV) -> bool {
    &&& m.vram.len() == 0x2000
    &&& m.wram0.len() == 0x1000
    &&& m.wramn.len() == 0x1000
    &&& m.hram.len() == 0x7F
    &&& io_wf(m.io)
    &&& cart_wf(m.cart)
}

/// One bus byte access costs one machine cycle: four T-states. The counter
/// saturates at the top of its range rather than wrap.
pub open spec fn tick4(m: MemV) -> MemV {
    MemV {
        cycles: if m.cycles <= u64::MAX - 4 {
            (m.cycles + 4) as u64
        } else {
            m.cycles
        },
        ..m
    }
}

/// The address ranges routed to the cartridge.
pub open spec fn addr_in_cart(addr: u16) -> bool {
    addr < 0x8000 || (0xA000 <= addr && addr < 0xC000)
}

/// A read faults only when it reaches a cartridge family whose mapping is
/// not implemented.
pub open spec fn mem_read_ok(m: MemV, addr: u16) -> bool {
    addr_in_cart(addr) ==> cart_readable(m.cart)
}

/// What a bus read returns, by address range. The sprite table
/// (0xFE00-0xFE9F) and the prohibited gap above it read as zero; echo RAM
/// mirrors work RAM.
pub open spec fn mem_read_val(m: MemV, addr: u16) -> u8 {
    if addr < 0x8000 {
        cart_read_val(m.cart, addr as usize)
    } else if addr < 0xA000 {
        m.vram[addr - 0x8000]
    } else if addr < 0xC000 {
        cart_read_val(m.cart, addr as usize)
    } else if addr < 0xD000 {
        m.wram0[addr - 0xC000]
    } else if addr < 0xE000 {
        m.wramn[addr - 0xD000]
    } else if addr < 0xFE00 {
        let a = (addr - 0xE000) % 0x1E00;
        if a >= 0x1000 {
            m.wramn[a - 0x1000]
        } else {
            m.wram0[a]
        }
    } else if addr < 0xFF00 {
        0
    } else if addr < 0xFF80 {
        io_read_val(m.io, addr as usize)
    } else if addr < 0xFFFF {
        m.hram[addr - 0xFF80]
    } else {
        m.ie
    }
}

/// A write faults only when the cartridge refuses it.
pub open spec fn mem_write_ok(m: MemV, addr: u16) -> bool {
    addr_in_cart(addr) ==> cart_write_ok(m.cart, addr as usize)
}

/// The diagnostic a refused write stops with.
pub open spec fn mem_write_fault(m: MemV, addr: u16, val: u8) -> Fault {
    cart_write_fault(m.cart, addr as usize, val)
}

/// The bus after a serviced write, by address range. Writes into the
/// sprite table and the prohibited gap are dropped; echo RAM writes land
/// in work RAM.
pub open spec fn mem_write_val(m: MemV, addr: u16, val: u8) -> MemV {
    if addr < 0x8000 {
        MemV { cart: cart_write_val(m.cart, addr as usize, val), ..m }
    } else if addr < 0xA000 {
        MemV { vram: m.vram.update(addr - 0x8000, val), ..m }
    } else if addr < 0xC000 {
        MemV { cart: cart_write_val(m.cart, addr as usize, val), ..m }
    } else if addr < 0xD000 {
        MemV { wram0: m.wram0.update(addr - 0xC000, val), ..m }
    } else if addr < 0xE000 {
        MemV { wramn: m.wramn.update(addr - 0xD000, val), ..m }
    } else if addr < 0xFE00 {
        let a = (addr - 0xE000) % 0x1E00;
        if a >= 0x1000 {
            MemV { wramn: m.wramn.update(a - 0x1000, val), ..m }
        } else {
            MemV { wram0: m.wram0.update(a, val), ..m }
        }
    } else if addr < 0xFF00 {
        m
    } else if addr < 0xFF80 {
        MemV { io: io_write_val(m.io, addr as usize, val), ..m }
    } else if addr < 0xFFFF {
        MemV { hram: m.hram.update(addr - 0xFF80, val), ..m }
    } else {
        MemV { ie: val, ..m }
    }
}

/// Addresses that behave as plain storage: a serviced write there reads
/// back unchanged. That is video RAM, work RAM with its echo, the
/// divider/timer window, the interrupt-request byte, high RAM and the
/// interrupt-enable byte — not the cartridge, the dropped ranges, or the
/// side-effect registers.
pub open spec fn ram_byte(addr: u16) -> bool {
    (0x8000 <= addr && addr < 0xA000) || (0xC000 <= addr && addr < 0xFE00) || (0xFF04 <= addr
        && addr <= 0xFF07) || addr == 0xFF0F || 0xFF80 <= addr
}

/// The storage cell an address names; the echo range folds onto work RAM,
/// so two different addresses can name one cell.
pub open spec fn cell_of(addr: u16) -> int {
    if 0xE000 <= addr && addr < 0xFE00 {
        let a = (addr - 0xE000) % 0x1E00;
        if a >= 0x1000 {
            0xD000 + (a - 0x1000)
        } else {
            0xC000 + a
        }
    } else {
        addr as int
    }
}

/// A write to a storage byte is serviced and reads back unchanged.
pub proof fn lemma_read_after_write(m: MemV, addr: u16, val: u8)
    requires
        mem_wf(m),
        ram_byte(addr),
    ensures
        mem_write_ok(m, addr),
        mem_wf(mem_write_val(m, addr, val)),
        mem_read_ok(mem_write_val(m, addr, val), addr),
        mem_read_val(mem_write_val(m, addr, val), addr) == val,
{
}

/// A write to a storage byte leaves every other storage cell's reading
/// alone.
pub proof fn lemma_write_other(m: MemV, addr: u16, val: u8, other: u16)
    requires
        mem_wf(m),
        ram_byte(addr),
        cell_of(addr) != cell_of(other),
    ensures
        mem_read_ok(mem_write_val(m, addr, val), other) == mem_read_ok(m, other),
        mem_read_val(mem_write_val(m, addr, val), other) == mem_read_val(m, other),
{
}

/// Ticking the counter changes no reading and no serviceability.
pub proof fn lemma_tick_reads(m: MemV, addr: u16)
    ensures
        mem_read_ok(tick4(m), addr) == mem_read_ok(m, addr),
        mem_read_val(tick4(m), addr) == mem_read_val(m, addr),
        mem_write_ok(tick4(m), addr) == mem_write_ok(m, addr),
        mem_wf(tick4(m)) == mem_wf(m),
{
}

/// A vector of `n` zero bytes.
fn zeroed(n: usize) -> (v: Vec<u8>)
    ensures
        v@.len() == n,
        forall|i: int| 0 <= i < n ==> v@[i] == 0,
{
    let mut v: Vec<u8> = Vec::new();
    let mut k: usize = 0;
    while k < n
        invariant
            k <= n,
            v@.len() == k,
            forall|i: int| 0 <= i < k ==> v@[i] == 0,
        decreases n - k,
    {
        v.push(0);
        k = k + 1;
    }
    v
}

/// The bus as construction leaves it: the given image loaded with bank 1
/// selected, every RAM byte and register zero, the counter at zero, the
/// serial stream empty.
pub open spec fn mem_boot(m: MemV, rom: Seq<u8>) -> bool {
    &&& mem_wf(m)
    &&& spec_cart_type(rom[0x147]) == Some(m.cart.kind)
    &&& m.cart.bytes == rom
    &&& m.cart.bank == 1
    &&& m.cycles == 0
    &&& m.ie == 0
    &&& m.io.int_f == 0
    &&& m.io.serial == Seq::<u8>::empty()
    &&& (forall|i: int| 0 <= i < 4 ==> m.io.tim_div[i] == 0)
    &&& (forall|i: int| 0 <= i < 0x2000 ==> m.vram[i] == 0)
    &&& (forall|i: int| 0 <= i < 0x1000 ==> m.wram0[i] == 0 && m.wramn[i] == 0)
    &&& (forall|i: int| 0 <= i < 0x7F ==> m.hram[i] == 0)
}

impl Memory {
    /// A fresh bus around the given image: RAM zeroed, counter at zero,
    /// serial stream empty. `None` if the image header names no known
    /// cartridge family.
    pub fn new(rom: Vec<u8>) -> (r: Option<Memory>)
        requires
            rom@.len() >= 0x150,
        ensures
            match r {
                Some(m) => mem_boot(m@, rom@),
                None => spec_cart_type(rom@[0x147]) is None,
            },
    {
        match Cartridge::load(rom) {
            Some(cart) => Some(
                Memory {
                    rom: cart,
                    vram: zeroed(0x2000),
                    wram_0: zeroed(0x1000),
                    wram_n: zeroed(0x1000),
                    io_regs: IoRegs::new(),
                    hram: zeroed(0x7F),
                    ie: 0,
                    cycles: 0,
                },
            ),
            None => None,
        }
    }

    /// Advances the T-state counter by one machine cycle without a bus
    /// access: the internal delays some instructions take.
    pub fn tick(&mut self)
        requires
            mem_wf(old(self)@),
        ensures
            mem_wf(final(self)@),
            final(self)@ == tick4(old(self)@),
    {
        if self.cycles <= u64::MAX - 4 {
            self.cycles = self.cycles + 4;
        }
    }

    /// The T-states elapsed over all bus accesses and internal delays.
    pub fn cycles(&self) -> (r: u64)
        ensures
            r == self@.cycles,
    {
        self.cycles
    }

    /// The bytes streamed through the serial register so far.
    pub fn serial(&self) -> (r: &Vec<u8>)
        ensures
            r@ == self@.io.serial,
    {
        self.io_regs.serial()
    }

    /// One bus byte read: routes by address range and costs four T-states.
    /// Faults when it reaches an unimplemented cartridge family, leaving
    /// the bus unchanged.
    pub fn read_word(&mut self, addr: u16) -> (r: Result<u8, Fault>)
        requires
            mem_wf(old(self)@),
        ensures
            mem_wf(final(self)@),
            mem_read_ok(old(self)@, addr) ==> r == Ok::<u8, Fault>(
                mem_read_val(old(self)@, addr),
            ) && final(self)@ == tick4(old(self)@),
            !mem_read_ok(old(self)@, addr) ==> r == Err::<u8, Fault>(Fault::UnsupportedCartType)
                && final(self)@ == old(self)@,
    {
        let a = addr as usize;
        let val: u8;
        if a < 0x8000 {
            match self.rom.read(a) {
                Ok(v) => {
                    val = v;
                },
                Err(f) => {
                    return Err(f);
                },
            }
        } else if a < 0xA000 {
            val = self.vram[a - 0x8000];
        } else if a < 0xC000 {
            match self.rom.read(a) {
                Ok(v) => {
                    val = v;
                },
                Err(f) => {
                    return Err(f);
                },
            }
        } else if a < 0xD000 {
            val = self.wram_0[a - 0xC000];
        } else if a < 0xE000 {
            val = self.wram_n[a - 0xD000];
        } else if a < 0xFE00 {
            let e = (a - 0xE000) % 0x1E00;
            if e >= 0x1000 {
                val = self.wram_n[e - 0x1000];
            } else {
                val = self.wram_0[e];
            }
        } else if a < 0xFF00 {
            val = 0;
        } else if a < 0xFF80 {
            val = self.io_regs.read(a);
        } else if a < 0xFFFF {
            val = self.hram[a - 0xFF80];
        } else {
            val = self.ie;
        }
        self.tick();
        Ok(val)
    }

    /// One bus byte write: routes by address range and costs four
    /// T-states. Faults when the cartridge refuses it, leaving the bus
    /// unchanged.
    pub fn write_word(&mut self, addr: u16, val: u8) -> (r: Result<(), Fault>)
        requires
            mem_wf(old(self)@),
        ensures
            mem_wf(final(self)@),
            mem_write_ok(old(self)@, addr) ==> r == Ok::<(), Fault>(()) && final(self)@ == tick4(
                mem_write_val(old(self)@, addr, val),
            ),
            !mem_write_ok(old(self)@, addr) ==> r == Err::<(), Fault>(
                mem_write_fault(old(self)@, addr, val),
            ) && final(self)@ == old(self)@,
    {
        let a = addr as usize;
        if a < 0x8000 {
            match self.rom.write(a, val) {
                Ok(()) => {},
                Err(f) => {
                    return Err(f);
                },
            }
        } else if a < 0xA000 {
            self.vram.set(a - 0x8000, val);
        } else if a < 0xC000 {
            match self.rom.write(a, val) {
                Ok(()) => {},
                Err(f) => {
                    return Err(f);
                },
            }
        } else if a < 0xD000 {
            self.wram_0.set(a - 0xC000, val);
        } else if a < 0xE000 {
            self.wram_n.set(a - 0xD000, val);
        } else if a < 0xFE00 {
            let e = (a - 0xE000) % 0x1E00;
            if e >= 0x1000 {
                self.wram_n.set(e - 0x1000, val);
            } else {
                self.wram_0.set(e, val);
            }
        } else if a < 0xFF00 {
            // writes into the sprite table and the prohibited gap are dropped
        } else if a < 0xFF80 {
            self.io_regs.write(a, val);
        } else if a < 0xFFFF {
            self.hram.set(a - 0xFF80, val);
        } else {
            self.ie = val;
        }
        self.tick();
        Ok(())
    }
}

} // verus!
