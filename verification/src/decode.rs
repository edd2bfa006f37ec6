use vstd::prelude::*;

verus! {

/// The instruction families the dispatcher recognizes, one per group of
/// opcodes that share an execution path.
#[derive(Clone, Copy, Debug, PartialEq, Eq, Structural)]
pub enum Family {
    Nop,
    LdU16pSp,
    Stop,
    Jr,
    JrCond,
    LdR16U16,
    AddHlR16,
    LdR16pA,
    LdAR16p,
    IncR16,
    DecR16,
    IncR8,
    DecR8,
    LdR8U8,
    AfRow,
    Halt,
    LdR8R8,
    AluAR8,
    RetCond,
    LdIoU8A,
    AddSpI8,
    LdAIoU8,
    LdHlSpI8,
    PopR16,
    Ret,
    Reti,
    JpHl,
    LdSpHl,
    JpCond,
    LdIoCA,
    LdU16pA,
    LdAIoC,
    LdAU16p,
    JpU16,
    CbPrefix,
    Di,
    Ei,
    CallCond,
    PushR16,
    CallU16,
    AluAU8,
    Rst,
    Illegal,
}

/// Maps an opcode's two nibbles to its family by pattern on the nibbles.
/// The halt opcode is carved out of the register-to-register load block;
/// what no arm claims is illegal.
pub open spec fn spec_decode(hi: u8, lo: u8) -> Family {
    if hi == 0x0 && lo == 0x0 {
        Family::Nop
    } else if hi == 0x0 && lo == 0x8 {
        Family::LdU16pSp
    } else if hi == 0x1 && lo == 0x0 {
        Family::Stop
    } else if hi == 0x1 && lo == 0x8 {
        Family::Jr
    } else if (hi == 0x2 || hi == 0x3) && (lo == 0x0 || lo == 0x8) {
        Family::JrCond
    } else if hi <= 0x3 && lo == 0x1 {
        Family::LdR16U16
    } else if hi <= 0x3 && lo == 0x9 {
        Family::AddHlR16
    } else if hi <= 0x3 && lo == 0x2 {
        Family::LdR16pA
    } else if hi <= 0x3 && lo == 0xA {
        Family::LdAR16p
    } else if hi <= 0x3 && lo == 0x3 {
        Family::IncR16
    } else if hi <= 0x3 && lo == 0xB {
        Family::DecR16
    } else if hi <= 0x3 && (lo == 0x4 || lo == 0xC) {
        Family::IncR8
    } else if hi <= 0x3 && (lo == 0x5 || lo == 0xD) {
        Family::DecR8
    } else if hi <= 0x3 && (lo == 0x6 || lo == 0xE) {
        Family::LdR8U8
    } else if hi <= 0x3 && (lo == 0x7 || lo == 0xF) {
        Family::AfRow
    } else if hi == 0x7 && lo == 0x6 {
        Family::Halt
    } else if 0x4 <= hi <= 0x7 {
        Family::LdR8R8
    } else if 0x8 <= hi <= 0xB {
        Family::AluAR8
    } else if (hi == 0xC || hi == 0xD) && (lo == 0x0 || lo == 0x8) {
        Family::RetCond
    } else if hi == 0xE && lo == 0x0 {
        Family::LdIoU8A
    } else if hi == 0xE && lo == 0x8 {
        Family::AddSpI8
    } else if hi == 0xF && lo == 0x0 {
        Family::LdAIoU8
    } else if hi == 0xF && lo == 0x8 {
        Family::LdHlSpI8
    } else if lo == 0x1 {
        Family::PopR16
    } else if hi == 0xC && lo == 0x9 {
        Family::Ret
    } else if hi == 0xD && lo == 0x9 {
        Family::Reti
    } else if hi == 0xE && lo == 0x9 {
        Family::JpHl
    } else if hi == 0xF && lo == 0x9 {
        Family::LdSpHl
    } else if (hi == 0xC || hi == 0xD) && (lo == 0x2 || lo == 0xA) {
        Family::JpCond
    } else if hi == 0xE && lo == 0x2 {
        Family::LdIoCA
    } else if hi == 0xE && lo == 0xA {
        Family::LdU16pA
    } else if hi == 0xF && lo == 0x2 {
        Family::LdAIoC
    } else if hi == 0xF && lo == 0xA {
        Family::LdAU16p
    } else if hi == 0xC && lo == 0x3 {
        Family::JpU16
    } else if hi == 0xC && lo == 0xB {
        Family::CbPrefix
    } else if hi == 0xF && lo == 0x3 {
        Family::Di
    } else if hi == 0xF && lo == 0xB {
        Family::Ei
    } else if (hi == 0xC || hi == 0xD) && (lo == 0x4 || lo == 0xC) {
        Family::CallCond
    } else if lo == 0x5 {
        Family::PushR16
    } else if hi == 0xC && lo == 0xD {
        Family::CallU16
    } else if lo == 0x6 || lo == 0xE {
        Family::AluAU8
    } else if lo == 0x7 || lo == 0xF {
        Family::Rst
    } else {
        Family::Illegal
    }
}

/// Dispatches an opcode's nibbles to its family.
pub fn decode(hi: u8, lo: u8) -> (r: Family)
    requires
        hi < 16,
        lo < 16,
    ensures
        r == spec_decode(hi, lo),
{
    if hi == 0x0 && lo == 0x0 {
        Family::Nop
    } else if hi == 0x0 && lo == 0x8 {
        Family::LdU16pSp
    } else if hi == 0x1 && lo == 0x0 {
        Family::Stop
    } else if hi == 0x1 && lo == 0x8 {
        Family::Jr
    } else if (hi == 0x2 || hi == 0x3) && (lo == 0x0 || lo == 0x8) {
        Family::JrCond
    } else if hi <= 0x3 && lo == 0x1 {
        Family::LdR16U16
    } else if hi <= 0x3 && lo == 0x9 {
        Family::AddHlR16
    } else if hi <= 0x3 && lo == 0x2 {
        Family::LdR16pA
    } else if hi <= 0x3 && lo == 0xA {
        Family::LdAR16p
    } else if hi <= 0x3 && lo == 0x3 {
        Family::IncR16
    } else if hi <= 0x3 && lo == 0xB {
        Family::DecR16
    } else if hi <= 0x3 && (lo == 0x4 || lo == 0xC) {
        Family::IncR8
    } else if hi <= 0x3 && (lo == 0x5 || lo == 0xD) {
        Family::DecR8
    } else if hi <= 0x3 && (lo == 0x6 || lo == 0xE) {
        Family::LdR8U8
    } else if hi <= 0x3 && (lo == 0x7 || lo == 0xF) {
        Family::AfRow
    } else if hi == 0x7 && lo == 0x6 {
        Family::Halt
    } else if 0x4 <= hi && hi <= 0x7 {
        Family::LdR8R8
    } else if 0x8 <= hi && hi <= 0xB {
        Family::AluAR8
    } else if (hi == 0xC || hi == 0xD) && (lo == 0x0 || lo == 0x8) {
        Family::RetCond
    } else if hi == 0xE && lo == 0x0 {
        Family::LdIoU8A
    } else if hi == 0xE && lo == 0x8 {
        Family::AddSpI8
    } else if hi == 0xF && lo == 0x0 {
        Family::LdAIoU8
    } else if hi == 0xF && lo == 0x8 {
        Family::LdHlSpI8
    } else if lo == 0x1 {
        Family::PopR16
    } else if hi == 0xC && lo == 0x9 {
        Family::Ret
    } else if hi == 0xD && lo == 0x9 {
        Family::Reti
    } else if hi == 0xE && lo == 0x9 {
        Family::JpHl
    } else if hi == 0xF && lo == 0x9 {
        Family::LdSpHl
    } else if (hi == 0xC || hi == 0xD) && (lo == 0x2 || lo == 0xA) {
        Family::JpCond
    } else if hi == 0xE && lo == 0x2 {
        Family::LdIoCA
    } else if hi == 0xE && lo == 0xA {
        Family::LdU16pA
    } else if hi == 0xF && lo == 0x2 {
        Family::LdAIoC
    } else if hi == 0xF && lo == 0xA {
        Family::LdAU16p
    } else if hi == 0xC && lo == 0x3 {
        Family::JpU16
    } else if hi == 0xC && lo == 0xB {
        Family::CbPrefix
    } else if hi == 0xF && lo == 0x3 {
        Family::Di
    } else if hi == 0xF && lo == 0xB {
        Family::Ei
    } else if (hi == 0xC || hi == 0xD) && (lo == 0x4 || lo == 0xC) {
        Family::CallCond
    } else if lo == 0x5 {
        Family::PushR16
    } else if hi == 0xC && lo == 0xD {
        Family::CallU16
    } else if lo == 0x6 || lo == 0xE {
        Family::AluAU8
    } else if lo == 0x7 || lo == 0xF {
        Family::Rst
    } else {
        Family::Illegal
    }
}

} // verus!
