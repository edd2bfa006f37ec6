use vstd::prelude::*;

verus! {

/// A fatal diagnostic. The interpreter either makes forward progress or
/// stops with one of these; there is no recovery.
#[derive(Clone, Copy, Debug, PartialEq, Eq, Structural)]
pub enum Fault {
    /// A bus access reached a cartridge whose memory-bank controller
    /// family is recognized in the header but not implemented.
    UnsupportedCartType,
    /// A write landed in the read-only range of a ROM-only cartridge.
    RomWrite { addr: usize, val: u8 },
    /// A cartridge write outside the bank-select range of the first
    /// memory-bank controller family.
    UnimplementedMbcWrite { addr: usize, val: u8 },
    /// The fetched opcode is illegal or deliberately unimplemented.
    UnimplementedOpcode { op: u8 },
}

} // verus!
