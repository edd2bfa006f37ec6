use crate::fault::Fault;
use vstd::prelude::*;

verus! {

/// Cartridge hardware families, as named by the header byte at offset 0x0147.
/// Only the ROM-only and first bank-controller families are serviced; the
/// rest are recognized at load and fault when a bus access reaches them.
#[derive(Clone, Copy, Debug, PartialEq, Eq, Structural)]
pub enum CartridgeType {
    RomOnly,
    Mbc1,
    Mbc1Ram,
    Mbc1RamBattery,
    Mbc2,
    Mbc2Battery,
    RomRam,
    RomRamBattery,
    Mmm01,
    Mmm01Ram,
    Mmm01RamBattery,
    Mbc3TimerBattery,
    Mbc3TimerRamBattery,
    Mbc3,
    Mbc3Ram,
    Mbc3RamBattery,
    Mbc5,
    Mbc5Ram,
    Mbc5RamBattery,
    Mbc5Rumble,
    MbcRumbleRam,
    MbcRumbleRamBattery,
    Mbc6,
    Mbc7SensorRumbleRamBattery,
    PocketCamera,
    BandaiTama5,
    HuC3,
    HuC1RamBattery,
}

/// The family a header type byte names; `None` for an unknown byte.
pub open spec fn spec_cart_type(b: u8) -> Option<CartridgeType> {
    if b == 0x00 {
        Some(CartridgeType::RomOnly)
    } else if b == 0x01 {
        Some(CartridgeType::Mbc1)
    } else if b == 0x02 {
        Some(CartridgeType::Mbc1Ram)
    } else if b == 0x03 {
        Some(CartridgeType::Mbc1RamBattery)
    } else if b == 0x05 {
        Some(CartridgeType::Mbc2)
    } else if b == 0x06 {
        Some(CartridgeType::Mbc2Battery)
    } else if b == 0x08 {
        Some(CartridgeType::RomRam)
    } else if b == 0x09 {
        Some(CartridgeType::RomRamBattery)
    } else if b == 0x0B {
        Some(CartridgeType::Mmm01)
    } else if b == 0x0C {
        Some(CartridgeType::Mmm01Ram)
    } else if b == 0x0D {
        Some(CartridgeType::Mmm01RamBattery)
    } else if b == 0x0F {
        Some(CartridgeType::Mbc3TimerBattery)
    } else if b == 0x10 {
        Some(CartridgeType::Mbc3TimerRamBattery)
    } else if b == 0x11 {
        Some(CartridgeType::Mbc3)
    } else if b == 0x12 {
        Some(CartridgeType::Mbc3Ram)
    } else if b == 0x13 {
        Some(CartridgeType::Mbc3RamBattery)
    } else if b == 0x19 {
        Some(CartridgeType::Mbc5)
    } else if b == 0x1A {
        Some(CartridgeType::Mbc5Ram)
    } else if b == 0x1B {
        Some(CartridgeType::Mbc5RamBattery)
    } else if b == 0x1C {
        Some(CartridgeType::Mbc5Rumble)
    } else if b == 0x1D {
        Some(CartridgeType::MbcRumbleRam)
    } else if b == 0x1E {
        Some(CartridgeType::MbcRumbleRamBattery)
    } else if b == 0x20 {
        Some(CartridgeType::Mbc6)
    } else if b == 0x22 {
        Some(CartridgeType::Mbc7SensorRumbleRamBattery)
    } else if b == 0xFC {
        Some(CartridgeType::PocketCamera)
    } else if b == 0xFD {
        Some(CartridgeType::BandaiTama5)
    } else if b == 0xFE {
        Some(CartridgeType::HuC3)
    } else if b == 0xFF {
        Some(CartridgeType::HuC1RamBattery)
    } else {
        None
    }
}

/// Decodes the header type byte.
pub fn cart_type_of(b: u8) -> (r: Option<CartridgeType>)
    ensures
        r == spec_cart_type(b),
{
    match b {
        0x00 => Some(CartridgeType::RomOnly),
        0x01 => Some(CartridgeType::Mbc1),
        0x02 => Some(CartridgeType::Mbc1Ram),
        0x03 => Some(CartridgeType::Mbc1RamBattery),
        0x05 => Some(CartridgeType::Mbc2),
        0x06 => Some(CartridgeType::Mbc2Battery),
        0x08 => Some(CartridgeType::RomRam),
        0x09 => Some(CartridgeType::RomRamBattery),
        0x0B => Some(CartridgeType::Mmm01),
        0x0C => Some(CartridgeType::Mmm01Ram),
        0x0D => Some(CartridgeType::Mmm01RamBattery),
        0x0F => Some(CartridgeType::Mbc3TimerBattery),
        0x10 => Some(CartridgeType::Mbc3TimerRamBattery),
        0x11 => Some(CartridgeType::Mbc3),
        0x12 => Some(CartridgeType::Mbc3Ram),
        0x13 => Some(CartridgeType::Mbc3RamBattery),
        0x19 => Some(CartridgeType::Mbc5),
        0x1A => Some(CartridgeType::Mbc5Ram),
        0x1B => Some(CartridgeType::Mbc5RamBattery),
        0x1C => Some(CartridgeType::Mbc5Rumble),
        0x1D => Some(CartridgeType::MbcRumbleRam),
        0x1E => Some(CartridgeType::MbcRumbleRamBattery),
        0x20 => Some(CartridgeType::Mbc6),
        0x22 => Some(CartridgeType::Mbc7SensorRumbleRamBattery),
        0xFC => Some(CartridgeType::PocketCamera),
        0xFD => Some(CartridgeType::BandaiTama5),
        0xFE => Some(CartridgeType::HuC3),
        0xFF => Some(CartridgeType::HuC1RamBattery),
        _ => None,
    }
}

/// The cartridge: the immutable image, its detected family, and the
/// currently selected switchable bank (1 after loading).
pub struct Cartridge {
    cart_type: CartridgeType,
    bytes: Vec<u8>,
    bank_idx: usize,
}

/// Mathematical model of a cartridge.
#[verifier::ext_equal]
pub ghost struct CartV {
    pub kind: CartridgeType,
    pub bytes: Seq<u8>,
    pub bank: int,
}

impl View for Cartridge {
    type V = CartV;

    closed spec fn view(&self) -> CartV {
        CartV { kind: self.cart_type, bytes: self.bytes@, bank: self.bank_idx as int }
    }
}

/// The bank index stays below 32: it is 1 after loading and every
/// bank-select write keeps only the low five bits.
pub open spec fn cart_wf(c: CartV) -> bool {
    0 <= c.bank < 32
}

/// A byte of the image, or zero outside it.
pub open spec fn byte_at(bytes: Seq<u8>, i: int) -> u8 {
    if 0 <= i < bytes.len() {
        bytes[i]
    } else {
        0
    }
}

/// Families whose bus reads are serviced.
pub open spec fn cart_readable(c: CartV) -> bool {
    c.kind == CartridgeType::RomOnly || c.kind == CartridgeType::Mbc1
}

/// What a cartridge read returns: a direct lookup for ROM-only; for the
/// first bank-controller family the fixed bank serves addresses below
/// 0x4000 and the switched bank the remainder.
pub open spec fn cart_read_val(c: CartV, addr: usize) -> u8 {
    match c.kind {
        CartridgeType::RomOnly => byte_at(c.bytes, addr as int),
        CartridgeType::Mbc1 => if addr <= 0x3FFF {
            byte_at(c.bytes, addr as int)
        } else {
            byte_at(c.bytes, addr + 0x4000 * (c.bank - 1))
        },
        _ => 0,
    }
}

/// Whether a cartridge write is serviced: only a bank-select write of the
/// first bank-controller family is.
pub open spec fn cart_write_ok(c: CartV, addr: usize) -> bool {
    c.kind == CartridgeType::Mbc1 && 0x2000 <= addr <= 0x3FFF
}

/// The diagnostic a refused cartridge write stops with.
pub open spec fn cart_write_fault(c: CartV, addr: usize, val: u8) -> Fault {
    if c.kind == CartridgeType::RomOnly {
        Fault::RomWrite { addr, val }
    } else if c.kind == CartridgeType::Mbc1 {
        Fault::UnimplementedMbcWrite { addr, val }
    } else {
        Fault::UnsupportedCartType
    }
}

/// The state after a serviced cartridge write: the bank index is set from
/// the low five bits of the value.
pub open spec fn cart_write_val(c: CartV, addr: usize, val: u8) -> CartV {
    if cart_write_ok(c, addr) {
        CartV { bank: (val % 32) as int, ..c }
    } else {
        c
    }
}

impl Cartridge {
    /// Decodes the image header; `None` if the type byte at 0x0147 names no
    /// known family. A fresh cartridge has bank 1 selected.
    pub fn load(bytes: Vec<u8>) -> (r: Option<Cartridge>)
        requires
            bytes@.len() >= 0x150,
        ensures
            match r {
                Some(c) => spec_cart_type(bytes@[0x147]) == Some(c@.kind) && c@.bytes == bytes@
                    && c@.bank == 1 && cart_wf(c@),
                None => spec_cart_type(bytes@[0x147]) is None,
            },
    {
        match cart_type_of(bytes[0x147]) {
            Some(t) => Some(Cartridge { cart_type: t, bytes, bank_idx: 1 }),
            None => None,
        }
    }

    /// Serves a bus read; faults for families whose mapping is not
    /// implemented.
    pub fn read(&self, addr: usize) -> (r: Result<u8, Fault>)
        requires
            addr < 0x10000,
            cart_wf(self@),
        ensures
            cart_readable(self@) ==> r == Ok::<u8, Fault>(cart_read_val(self@, addr)),
            !cart_readable(self@) ==> r == Err::<u8, Fault>(Fault::UnsupportedCartType),
    {
        match self.cart_type {
            CartridgeType::RomOnly => {
                if addr < self.bytes.len() {
                    Ok(self.bytes[addr])
                } else {
                    Ok(0)
                }
            },
            CartridgeType::Mbc1 => {
                if addr <= 0x3FFF {
                    if addr < self.bytes.len() {
                        Ok(self.bytes[addr])
                    } else {
                        Ok(0)
                    }
                } else {
                    let idx: usize = if self.bank_idx >= 1 {
                        addr + 0x4000 * (self.bank_idx - 1)
                    } else {
                        addr - 0x4000
                    };
                    if idx < self.bytes.len() {
                        Ok(self.bytes[idx])
                    } else {
                        Ok(0)
                    }
                }
            },
            _ => Err(Fault::UnsupportedCartType),
        }
    }

    /// Serves a bus write: a bank-select write switches the bank; anything
    /// else is a fatal diagnostic, and the cartridge is left unchanged.
    pub fn write(&mut self, addr: usize, val: u8) -> (r: Result<(), Fault>)
        requires
            cart_wf(old(self)@),
        ensures
            cart_wf(final(self)@),
            cart_write_ok(old(self)@, addr) ==> r == Ok::<(), Fault>(()) && final(self)@
                == cart_write_val(old(self)@, addr, val),
            !cart_write_ok(old(self)@, addr) ==> r == Err::<(), Fault>(
                cart_write_fault(old(self)@, addr, val),
            ) && final(self)@ == old(self)@,
    {
        match self.cart_type {
            CartridgeType::RomOnly => Err(Fault::RomWrite { addr, val }),
            CartridgeType::Mbc1 => {
                if 0x2000 <= addr && addr <= 0x3FFF {
                    self.bank_idx = (val % 32) as usize;
                    Ok(())
                } else {
                    Err(Fault::UnimplementedMbcWrite { addr, val })
                }
            },
            _ => Err(Fault::UnsupportedCartType),
        }
    }
}

} // verus!
