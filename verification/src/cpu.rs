use crate::fault::Fault;
use crate::mem::{
    mem_read_ok, mem_read_val, mem_wf, mem_write_fault, mem_write_ok, mem_write_val, tick4, MemV,
    Memory,
};
use crate::ops::{flag_c, flag_h, flag_n, flag_z};
use vstd::prelude::*;

verus! {

// ---------------------------------------------------------------------
// Sixteen-bit words and their byte halves.
// ---------------------------------------------------------------------
/// The high byte of a word.
pub open spec fn hi8(v: u16) -> u8 {
    (v / 256) as u8
}

/// The low byte of a word.
pub open spec fn lo8(v: u16) -> u8 {
    (v % 256) as u8
}

/// The word with its high byte replaced.
pub open spec fn with_hi(v: u16, x: u8) -> u16 {
    (x * 256 + v % 256) as u16
}

/// The word with its low byte replaced.
pub open spec fn with_lo(v: u16, x: u8) -> u16 {
    ((v / 256) * 256 + x) as u16
}

/// The word two bytes make, high first.
pub open spec fn word(h: u8, l: u8) -> u16 {
    (h * 256 + l) as u16
}

/// Sixteen-bit wrap-around: the word a possibly out-of-range count names.
pub open spec fn w16(x: int) -> u16 {
    (x % 0x10000) as u16
}

/// One signed byte, sign-extended to a word.
pub open spec fn sext(b: u8) -> u16 {
    if b < 128 {
        b as u16
    } else {
        (b + 0xFF00) as u16
    }
}

/// Wrapping differs from true arithmetic by a multiple of the modulus.
pub proof fn lemma_w16_shift(x: int, y: int)
    ensures
        w16(w16(x) + y) == w16(x + y),
{
    vstd::arithmetic::div_mod::lemma_fundamental_div_mod(x, 0x10000);
    vstd::arithmetic::div_mod::lemma_mod_multiples_vanish(x / 0x10000, x % 0x10000 + y, 0x10000);
}

/// Replacing one byte half leaves the other, and a word is its halves.
pub proof fn lemma_byte_halves(v: u16, x: u8)
    ensures
        hi8(with_lo(v, x)) == hi8(v),
        lo8(with_lo(v, x)) == x,
        hi8(with_hi(v, x)) == x,
        lo8(with_hi(v, x)) == lo8(v),
        word(hi8(v), lo8(v)) == v,
        hi8(word(x, lo8(v))) == x,
        lo8(word(hi8(v), x)) == x,
{
    vstd::arithmetic::div_mod::lemma_fundamental_div_mod(v as int, 256);
    vstd::arithmetic::div_mod::lemma_fundamental_div_mod_converse(
        (v / 256) as int * 256 + x,
        256,
        (v / 256) as int,
        x as int,
    );
    vstd::arithmetic::div_mod::lemma_fundamental_div_mod_converse(
        x as int * 256 + (v % 256),
        256,
        x as int,
        (v % 256) as int,
    );
}

/// Wrapping addition of words.
pub fn wadd(a: u16, b: u16) -> (r: u16)
    ensures
        r == w16(a + b),
{
    ((a as u32 + b as u32) % 0x10000) as u16
}

/// Wrapping subtraction of words.
pub fn wsub(a: u16, b: u16) -> (r: u16)
    ensures
        r == w16(a - b),
{
    proof {
        vstd::arithmetic::div_mod::lemma_mod_multiples_vanish(1, a - b, 0x10000);
    }
    (((a as u32 + 0x10000) - b as u32) % 0x10000) as u16
}

/// The high byte of a word.
pub fn hi_of(v: u16) -> (r: u8)
    ensures
        r == hi8(v),
{
    (v / 256) as u8
}

/// The low byte of a word.
pub fn lo_of(v: u16) -> (r: u8)
    ensures
        r == lo8(v),
{
    (v % 256) as u8
}

/// Sign-extends one byte.
pub fn sext_of(b: u8) -> (r: u16)
    ensures
        r == sext(b),
{
    if b < 128 {
        b as u16
    } else {
        b as u16 + 0xFF00
    }
}

// ---------------------------------------------------------------------
// The register file.
// ---------------------------------------------------------------------
/// One 16-bit register pair with two 8-bit views; the high half is the
/// first sub-register. The indexing is logical, independent of host byte
/// order.
pub struct Register {
    v: u16,
}

impl View for Register {
    type V = u16;

    closed spec fn view(&self) -> u16 {
        self.v
    }
}

impl Register {
    pub fn new(v: u16) -> (r: Register)
        ensures
            r@ == v,
    {
        Register { v }
    }

    pub fn get(&self) -> (r: u16)
        ensures
            r == self@,
    {
        self.v
    }

    pub fn put(&mut self, v: u16)
        ensures
            final(self)@ == v,
    {
        self.v = v;
    }

    pub fn hi(&self) -> (r: u8)
        ensures
            r == hi8(self@),
    {
        (self.v / 256) as u8
    }

    pub fn lo(&self) -> (r: u8)
        ensures
            r == lo8(self@),
    {
        (self.v % 256) as u8
    }

    pub fn set_hi(&mut self, x: u8)
        ensures
            final(self)@ == with_hi(old(self)@, x),
    {
        self.v = (x as u16) * 256 + self.v % 256;
    }

    pub fn set_lo(&mut self, x: u8)
        ensures
            final(self)@ == with_lo(old(self)@, x),
    {
        self.v = (self.v / 256) * 256 + x as u16;
    }
}

// ---------------------------------------------------------------------
// The processor state and its mathematical model.
// ---------------------------------------------------------------------
/// Mathematical model of the processor: the four register pairs, the
/// stack pointer, the program counter, the interrupt master enable, and
/// the two nibbles of the opcode being executed.
#[verifier::ext_equal]
pub ghost struct CpuV {
    pub af: u16,
    pub bc: u16,
    pub de: u16,
    pub hl: u16,
    pub sp: u16,
    pub pc: u16,
    pub ime: bool,
    pub ihi: u8,
    pub ilo: u8,
}

/// The processor invariant: the low nibble of F is always zero, and the
/// cached opcode halves are nibbles.
pub open spec fn cpu_wf(c: CpuV) -> bool {
    &&& c.af % 16 == 0
    &&& c.ihi < 16
    &&& c.ilo < 16
}

/// The processor: registers, interrupt enable, and the nibbles of the
/// opcode under execution (cached so operand selectors need no re-fetch).
pub struct Cpu {
    af: Register,
    bc: Register,
    de: Register,
    hl: Register,
    sp: u16,
    pc: u16,
    ime: bool,
    ihi: u8,
    ilo: u8,
}

impl View for Cpu {
    type V = CpuV;

    closed spec fn view(&self) -> CpuV {
        CpuV {
            af: self.af@,
            bc: self.bc@,
            de: self.de@,
            hl: self.hl@,
            sp: self.sp,
            pc: self.pc,
            ime: self.ime,
            ihi: self.ihi,
            ilo: self.ilo,
        }
    }
}

/// The four condition flags, named.
#[derive(Clone, Copy, Debug, PartialEq, Eq, Structural)]
pub enum Flag {
    Z,
    N,
    H,
    C,
}

/// Reads one flag out of a flag byte.
pub open spec fn spec_flag(f: u8, which: Flag) -> bool {
    match which {
        Flag::Z => flag_z(f),
        Flag::N => flag_n(f),
        Flag::H => flag_h(f),
        Flag::C => flag_c(f),
    }
}

// ---------------------------------------------------------------------
// Operand selectors, recomputed from the cached opcode nibbles.
// ---------------------------------------------------------------------
/// The selector held in opcode bits 5-3: destination of the increment,
/// decrement and load-immediate rows, kind of an accumulator operation,
/// and bit index or row of the prefixed family.
pub open spec fn high_bits(c: CpuV) -> u8 {
    ((c.ihi % 4) * 2 + c.ilo / 8) as u8
}

/// Whether the condition the opcode encodes (NZ, Z, NC, C) holds.
pub open spec fn cond_holds(c: CpuV) -> bool {
    let b = (c.ihi % 2) * 2 + c.ilo / 8;
    if b == 0 {
        !flag_z(lo8(c.af))
    } else if b == 1 {
        flag_z(lo8(c.af))
    } else if b == 2 {
        !flag_c(lo8(c.af))
    } else {
        flag_c(lo8(c.af))
    }
}

/// The 8-bit register an r8 selector names (6, the indirect access
/// through HL, is handled by the callers).
pub open spec fn get_r8(c: CpuV, bits: u8) -> u8 {
    if bits == 0 {
        hi8(c.bc)
    } else if bits == 1 {
        lo8(c.bc)
    } else if bits == 2 {
        hi8(c.de)
    } else if bits == 3 {
        lo8(c.de)
    } else if bits == 4 {
        hi8(c.hl)
    } else if bits == 5 {
        lo8(c.hl)
    } else {
        hi8(c.af)
    }
}

/// The processor with the named 8-bit register replaced.
pub open spec fn set_r8(c: CpuV, bits: u8, v: u8) -> CpuV {
    if bits == 0 {
        CpuV { bc: with_hi(c.bc, v), ..c }
    } else if bits == 1 {
        CpuV { bc: with_lo(c.bc, v), ..c }
    } else if bits == 2 {
        CpuV { de: with_hi(c.de, v), ..c }
    } else if bits == 3 {
        CpuV { de: with_lo(c.de, v), ..c }
    } else if bits == 4 {
        CpuV { hl: with_hi(c.hl, v), ..c }
    } else if bits == 5 {
        CpuV { hl: with_lo(c.hl, v), ..c }
    } else {
        CpuV { af: with_hi(c.af, v), ..c }
    }
}

/// The first 16-bit selector group: BC, DE, HL, SP.
pub open spec fn get_r16_1(c: CpuV, sel: u8) -> u16 {
    if sel == 0 {
        c.bc
    } else if sel == 1 {
        c.de
    } else if sel == 2 {
        c.hl
    } else {
        c.sp
    }
}

/// The processor with a register of the first 16-bit group replaced.
pub open spec fn set_r16_1(c: CpuV, sel: u8, v: u16) -> CpuV {
    if sel == 0 {
        CpuV { bc: v, ..c }
    } else if sel == 1 {
        CpuV { de: v, ..c }
    } else if sel == 2 {
        CpuV { hl: v, ..c }
    } else {
        CpuV { sp: v, ..c }
    }
}

/// The second 16-bit group names an address: BC, DE, or HL with a
/// post-increment or post-decrement side effect on HL.
pub open spec fn take_r16_2(c: CpuV) -> (u16, CpuV) {
    let sel = c.ihi % 4;
    if sel == 0 {
        (c.bc, c)
    } else if sel == 1 {
        (c.de, c)
    } else if sel == 2 {
        (c.hl, CpuV { hl: w16(c.hl + 1), ..c })
    } else {
        (c.hl, CpuV { hl: w16(c.hl - 1), ..c })
    }
}

/// The third 16-bit selector group, used by push and pop: BC, DE, HL, AF.
pub open spec fn get_r16_3(c: CpuV, sel: u8) -> u16 {
    if sel == 0 {
        c.bc
    } else if sel == 1 {
        c.de
    } else if sel == 2 {
        c.hl
    } else {
        c.af
    }
}

/// The processor with a register of the third 16-bit group replaced.
pub open spec fn set_r16_3(c: CpuV, sel: u8, v: u16) -> CpuV {
    if sel == 0 {
        CpuV { bc: v, ..c }
    } else if sel == 1 {
        CpuV { de: v, ..c }
    } else if sel == 2 {
        CpuV { hl: v, ..c }
    } else {
        CpuV { af: v, ..c }
    }
}

// ---------------------------------------------------------------------
// Bus access, composed at the specification level.
// ---------------------------------------------------------------------
/// One byte read: the value and the bus a machine cycle later, or the
/// fault that stops the machine.
pub open spec fn spec_rd(m: MemV, addr: u16) -> Result<(u8, MemV), Fault> {
    if mem_read_ok(m, addr) {
        Ok((mem_read_val(m, addr), tick4(m)))
    } else {
        Err(Fault::UnsupportedCartType)
    }
}

/// One byte write: the bus a machine cycle later, or the fault.
pub open spec fn spec_wr(m: MemV, addr: u16, val: u8) -> Result<MemV, Fault> {
    if mem_write_ok(m, addr) {
        Ok(tick4(mem_write_val(m, addr, val)))
    } else {
        Err(mem_write_fault(m, addr, val))
    }
}

/// A 16-bit read: the high byte at `addr + 1` first, then the low byte at
/// `addr`, little-endian in memory.
pub open spec fn spec_rd16(m: MemV, addr: u16) -> Result<(u16, MemV), Fault> {
    match spec_rd(m, w16(addr + 1)) {
        Err(f) => Err(f),
        Ok((h, m1)) => match spec_rd(m1, addr) {
            Err(f) => Err(f),
            Ok((l, m2)) => Ok((word(h, l), m2)),
        },
    }
}

/// A 16-bit write: the low byte at `addr` first, then the high byte at
/// `addr + 1`.
pub open spec fn spec_wr16(m: MemV, addr: u16, val: u16) -> Result<MemV, Fault> {
    match spec_wr(m, addr, lo8(val)) {
        Err(f) => Err(f),
        Ok(m1) => spec_wr(m1, w16(addr + 1), hi8(val)),
    }
}

/// The stack discipline of a push: the high byte goes to SP-1, the low
/// byte to SP-2, and SP ends two lower.
pub open spec fn spec_push(c: CpuV, m: MemV, v: u16) -> Result<(CpuV, MemV), Fault> {
    let a1 = w16(c.sp - 1);
    let a2 = w16(c.sp - 2);
    match spec_wr(m, a1, hi8(v)) {
        Err(f) => Err(f),
        Ok(m1) => match spec_wr(m1, a2, lo8(v)) {
            Err(f) => Err(f),
            Ok(m2) => Ok((CpuV { sp: a2, ..c }, m2)),
        },
    }
}

/// The stack discipline of a pop: the low byte comes from SP, the high
/// byte from SP+1, and SP ends two higher.
pub open spec fn spec_pop(c: CpuV, m: MemV) -> Result<(u16, CpuV, MemV), Fault> {
    match spec_rd(m, c.sp) {
        Err(f) => Err(f),
        Ok((l, m1)) => match spec_rd(m1, w16(c.sp + 1)) {
            Err(f) => Err(f),
            Ok((h, m2)) => Ok((word(h, l), CpuV { sp: w16(c.sp + 2), ..c }, m2)),
        },
    }
}

/// An 8-bit operand read through an r8 selector: a register, or one bus
/// read through HL for selector six.
pub open spec fn spec_r8_read(c: CpuV, m: MemV, bits: u8) -> Result<(u8, MemV), Fault> {
    if bits == 6 {
        spec_rd(m, c.hl)
    } else {
        Ok((get_r8(c, bits), m))
    }
}

/// An 8-bit operand write through an r8 selector: a register, or one bus
/// write through HL for selector six.
pub open spec fn spec_r8_write(c: CpuV, m: MemV, bits: u8, v: u8) -> Result<(CpuV, MemV), Fault> {
    if bits == 6 {
        match spec_wr(m, c.hl, v) {
            Err(f) => Err(f),
            Ok(m1) => Ok((c, m1)),
        }
    } else {
        Ok((set_r8(c, bits, v), m))
    }
}

// ---------------------------------------------------------------------
// Executable processor pieces.
// ---------------------------------------------------------------------
/// The documented post-boot register state.
pub open spec fn cpu_boot() -> CpuV {
    CpuV {
        af: 0x01B0,
        bc: 0x0013,
        de: 0x00D8,
        hl: 0x014D,
        sp: 0xFFFE,
        pc: 0x100,
        ime: false,
        ihi: 0,
        ilo: 0,
    }
}

impl Cpu {
    /// A freshly booted processor, in the documented post-boot state.
    pub fn new() -> (r: Cpu)
        ensures
            r@ == cpu_boot(),
            cpu_wf(r@),
    {
        Cpu {
            af: Register::new(0x01B0),
            bc: Register::new(0x0013),
            de: Register::new(0x00D8),
            hl: Register::new(0x014D),
            sp: 0xFFFE,
            pc: 0x100,
            ime: false,
            ihi: 0,
            ilo: 0,
        }
    }

    pub fn af(&self) -> (r: u16)
        ensures
            r == self@.af,
    {
        self.af.get()
    }

    pub fn bc(&self) -> (r: u16)
        ensures
            r == self@.bc,
    {
        self.bc.get()
    }

    pub fn de(&self) -> (r: u16)
        ensures
            r == self@.de,
    {
        self.de.get()
    }

    pub fn hl(&self) -> (r: u16)
        ensures
            r == self@.hl,
    {
        self.hl.get()
    }

    pub fn sp(&self) -> (r: u16)
        ensures
            r == self@.sp,
    {
        self.sp
    }

    pub fn pc(&self) -> (r: u16)
        ensures
            r == self@.pc,
    {
        self.pc
    }

    pub fn ime(&self) -> (r: bool)
        ensures
            r == self@.ime,
    {
        self.ime
    }

    /// The accumulator.
    pub fn a(&self) -> (r: u8)
        ensures
            r == hi8(self@.af),
    {
        self.af.hi()
    }

    /// The flag byte.
    pub fn f_byte(&self) -> (r: u8)
        ensures
            r == lo8(self@.af),
    {
        self.af.lo()
    }

    /// Reads one condition flag.
    pub fn get_flag(&self, which: Flag) -> (r: bool)
        ensures
            r == spec_flag(lo8(self@.af), which),
    {
        let f = self.af.lo();
        match which {
            Flag::Z => f / 128 % 2 == 1,
            Flag::N => f / 64 % 2 == 1,
            Flag::H => f / 32 % 2 == 1,
            Flag::C => f / 16 % 2 == 1,
        }
    }

    /// Replaces the flag byte; the caller supplies a clean low nibble.
    pub(crate) fn set_f(&mut self, f: u8)
        requires
            f % 16 == 0,
        ensures
            final(self)@ == (CpuV { af: with_lo(old(self)@.af, f), ..old(self)@ }),
            cpu_wf(old(self)@) ==> cpu_wf(final(self)@),
    {
        self.af.set_lo(f);
    }

    /// Replaces the accumulator.
    pub(crate) fn set_a(&mut self, v: u8)
        ensures
            final(self)@ == (CpuV { af: with_hi(old(self)@.af, v), ..old(self)@ }),
            cpu_wf(old(self)@) ==> cpu_wf(final(self)@),
    {
        self.af.set_hi(v);
    }

    /// Replaces the accumulator and flag byte together.
    pub(crate) fn set_af_word(&mut self, a: u8, f: u8)
        requires
            f % 16 == 0,
        ensures
            final(self)@ == (CpuV { af: word(a, f), ..old(self)@ }),
            cpu_wf(old(self)@) ==> cpu_wf(final(self)@),
    {
        self.af.put(a as u16 * 256 + f as u16);
    }

    /// Caches the two nibbles of a fetched opcode.
    pub(crate) fn set_instr(&mut self, op: u8)
        ensures
            final(self)@ == (CpuV { ihi: op / 16, ilo: op % 16, ..old(self)@ }),
            cpu_wf(old(self)@) ==> cpu_wf(final(self)@),
    {
        self.ihi = op / 16;
        self.ilo = op % 16;
    }

    /// Absolute jump.
    pub(crate) fn pc_jump(&mut self, dest: u16)
        ensures
            final(self)@ == (CpuV { pc: dest, ..old(self)@ }),
            cpu_wf(old(self)@) ==> cpu_wf(final(self)@),
    {
        self.pc = dest;
    }

    /// Advances the program counter by an instruction length.
    pub(crate) fn pc_step(&mut self, len: u16)
        ensures
            final(self)@ == (CpuV { pc: w16(old(self)@.pc + len), ..old(self)@ }),
            cpu_wf(old(self)@) ==> cpu_wf(final(self)@),
    {
        self.pc = wadd(self.pc, len);
    }

    pub(crate) fn set_sp(&mut self, v: u16)
        ensures
            final(self)@ == (CpuV { sp: v, ..old(self)@ }),
            cpu_wf(old(self)@) ==> cpu_wf(final(self)@),
    {
        self.sp = v;
    }

    pub(crate) fn set_hl(&mut self, v: u16)
        ensures
            final(self)@ == (CpuV { hl: v, ..old(self)@ }),
            cpu_wf(old(self)@) ==> cpu_wf(final(self)@),
    {
        self.hl.put(v);
    }

    pub(crate) fn set_ime(&mut self, v: bool)
        ensures
            final(self)@ == (CpuV { ime: v, ..old(self)@ }),
            cpu_wf(old(self)@) ==> cpu_wf(final(self)@),
    {
        self.ime = v;
    }

    /// Clears the low nibble of F, as a pop into AF must.
    pub(crate) fn mask_f(&mut self)
        ensures
            final(self)@ == (CpuV {
                af: (old(self)@.af - old(self)@.af % 16) as u16,
                ..old(self)@
            }),
            final(self)@.af % 16 == 0,
    {
        let v = self.af.get();
        self.af.put(v - v % 16);
    }

    /// The operand selector in opcode bits 5-3.
    pub fn calc_high_bits(&self) -> (r: u8)
        requires
            cpu_wf(self@),
        ensures
            r == high_bits(self@),
            r < 8,
    {
        (self.ihi % 4) * 2 + self.ilo / 8
    }

    /// The 16-bit group selector in opcode bits 5-4.
    pub(crate) fn r16_sel(&self) -> (r: u8)
        ensures
            r == (self@.ihi % 4) as u8,
            r < 4,
    {
        self.ihi % 4
    }

    /// The source selector in opcode bits 2-0.
    pub(crate) fn low_r8_bits(&self) -> (r: u8)
        requires
            cpu_wf(self@),
        ensures
            r == self@.ilo % 8,
            r < 8,
    {
        self.ilo % 8
    }

    /// Whether the condition the opcode encodes holds of the flags.
    pub fn decode_condition(&self) -> (r: bool)
        requires
            cpu_wf(self@),
        ensures
            r == cond_holds(self@),
    {
        let b = (self.ihi % 2) * 2 + self.ilo / 8;
        let f = self.af.lo();
        if b == 0 {
            !(f / 128 % 2 == 1)
        } else if b == 1 {
            f / 128 % 2 == 1
        } else if b == 2 {
            !(f / 16 % 2 == 1)
        } else {
            f / 16 % 2 == 1
        }
    }

    /// Reads an 8-bit register by selector (not six).
    pub(crate) fn r8_reg(&self, bits: u8) -> (r: u8)
        requires
            bits < 8,
            bits != 6,
        ensures
            r == get_r8(self@, bits),
    {
        if bits == 0 {
            self.bc.hi()
        } else if bits == 1 {
            self.bc.lo()
        } else if bits == 2 {
            self.de.hi()
        } else if bits == 3 {
            self.de.lo()
        } else if bits == 4 {
            self.hl.hi()
        } else if bits == 5 {
            self.hl.lo()
        } else {
            self.af.hi()
        }
    }

    /// Writes an 8-bit register by selector (not six).
    pub(crate) fn set_r8_reg(&mut self, bits: u8, v: u8)
        requires
            bits < 8,
            bits != 6,
        ensures
            final(self)@ == set_r8(old(self)@, bits, v),
            cpu_wf(old(self)@) ==> cpu_wf(final(self)@),
    {
        if bits == 0 {
            self.bc.set_hi(v);
        } else if bits == 1 {
            self.bc.set_lo(v);
        } else if bits == 2 {
            self.de.set_hi(v);
        } else if bits == 3 {
            self.de.set_lo(v);
        } else if bits == 4 {
            self.hl.set_hi(v);
        } else if bits == 5 {
            self.hl.set_lo(v);
        } else {
            self.af.set_hi(v);
        }
    }

    /// Reads an operand through an r8 selector, going to the bus through
    /// HL for selector six.
    pub(crate) fn r8_read(&self, mem: &mut Memory, bits: u8) -> (r: Result<u8, Fault>)
        requires
            bits < 8,
            cpu_wf(self@),
            mem_wf(old(mem)@),
        ensures
            mem_wf(final(mem)@),
            final(mem)@.cycles >= old(mem)@.cycles,
            match spec_r8_read(self@, old(mem)@, bits) {
                Ok((v, m1)) => r == Ok::<u8, Fault>(v) && final(mem)@ == m1,
                Err(f) => r == Err::<u8, Fault>(f) && final(mem)@ == old(mem)@,
            },
    {
        if bits == 6 {
            mem.read_word(self.hl.get())
        } else {
            Ok(self.r8_reg(bits))
        }
    }

    /// Writes an operand through an r8 selector, going to the bus through
    /// HL for selector six.
    pub(crate) fn r8_write(&mut self, mem: &mut Memory, bits: u8, v: u8) -> (r: Result<
        (),
        Fault,
    >)
        requires
            bits < 8,
            cpu_wf(old(self)@),
            mem_wf(old(mem)@),
        ensures
            cpu_wf(final(self)@),
            mem_wf(final(mem)@),
            final(mem)@.cycles >= old(mem)@.cycles,
            match spec_r8_write(old(self)@, old(mem)@, bits, v) {
                Ok((c1, m1)) => r == Ok::<(), Fault>(()) && final(self)@ == c1 && final(mem)@
                    == m1,
                Err(f) => r == Err::<(), Fault>(f) && final(self)@ == old(self)@,
            },
    {
        if bits == 6 {
            mem.write_word(self.hl.get(), v)
        } else {
            self.set_r8_reg(bits, v);
            Ok(())
        }
    }

    /// Reads a register of the first 16-bit group.
    pub(crate) fn r16_1_get(&self, sel: u8) -> (r: u16)
        requires
            sel < 4,
        ensures
            r == get_r16_1(self@, sel),
    {
        if sel == 0 {
            self.bc.get()
        } else if sel == 1 {
            self.de.get()
        } else if sel == 2 {
            self.hl.get()
        } else {
            self.sp
        }
    }

    /// Writes a register of the first 16-bit group.
    pub(crate) fn r16_1_put(&mut self, sel: u8, v: u16)
        requires
            sel < 4,
        ensures
            final(self)@ == set_r16_1(old(self)@, sel, v),
            cpu_wf(old(self)@) ==> cpu_wf(final(self)@),
    {
        if sel == 0 {
            self.bc.put(v);
        } else if sel == 1 {
            self.de.put(v);
        } else if sel == 2 {
            self.hl.put(v);
        } else {
            self.sp = v;
        }
    }

    /// Takes the address the second 16-bit group names, applying the
    /// post-increment or post-decrement of HL.
    pub(crate) fn r16_2_take(&mut self) -> (r: u16)
        requires
            cpu_wf(old(self)@),
        ensures
            cpu_wf(final(self)@),
            (r, final(self)@) == take_r16_2(old(self)@),
    {
        let sel = self.ihi % 4;
        if sel == 0 {
            self.bc.get()
        } else if sel == 1 {
            self.de.get()
        } else if sel == 2 {
            let v = self.hl.get();
            self.hl.put(wadd(v, 1));
            v
        } else {
            let v = self.hl.get();
            self.hl.put(wsub(v, 1));
            v
        }
    }

    /// Reads a register of the third 16-bit group.
    pub(crate) fn r16_3_get(&self, sel: u8) -> (r: u16)
        requires
            sel < 4,
        ensures
            r == get_r16_3(self@, sel),
    {
        if sel == 0 {
            self.bc.get()
        } else if sel == 1 {
            self.de.get()
        } else if sel == 2 {
            self.hl.get()
        } else {
            self.af.get()
        }
    }

    /// Writes a register of the third 16-bit group. A pop into AF can dirty
    /// the low nibble of F; the caller masks it right after.
    pub(crate) fn r16_3_put(&mut self, sel: u8, v: u16)
        requires
            sel < 4,
        ensures
            final(self)@ == set_r16_3(old(self)@, sel, v),
    {
        if sel == 0 {
            self.bc.put(v);
        } else if sel == 1 {
            self.de.put(v);
        } else if sel == 2 {
            self.hl.put(v);
        } else {
            self.af.put(v);
        }
    }

    /// Pushes one word, high byte first, decrementing SP twice.
    pub(crate) fn push(&mut self, mem: &mut Memory, v: u16) -> (r: Result<(), Fault>)
        requires
            cpu_wf(old(self)@),
            mem_wf(old(mem)@),
        ensures
            cpu_wf(final(self)@),
            mem_wf(final(mem)@),
            final(mem)@.cycles >= old(mem)@.cycles,
            match spec_push(old(self)@, old(mem)@, v) {
                Ok((c1, m1)) => r == Ok::<(), Fault>(()) && final(self)@ == c1 && final(mem)@
                    == m1,
                Err(f) => r == Err::<(), Fault>(f),
            },
    {
        proof {
            lemma_w16_shift(old(self)@.sp - 1, -1);
        }
        self.sp = wsub(self.sp, 1);
        match mem.write_word(self.sp, hi_of(v)) {
            Ok(()) => {},
            Err(f) => {
                return Err(f);
            },
        }
        self.sp = wsub(self.sp, 1);
        mem.write_word(self.sp, lo_of(v))
    }

    /// Pops one word, low byte first, incrementing SP twice.
    pub(crate) fn pop(&mut self, mem: &mut Memory) -> (r: Result<u16, Fault>)
        requires
            cpu_wf(old(self)@),
            mem_wf(old(mem)@),
        ensures
            cpu_wf(final(self)@),
            mem_wf(final(mem)@),
            final(mem)@.cycles >= old(mem)@.cycles,
            match spec_pop(old(self)@, old(mem)@) {
                Ok((v, c1, m1)) => r == Ok::<u16, Fault>(v) && final(self)@ == c1 && final(mem)@
                    == m1,
                Err(f) => r == Err::<u16, Fault>(f),
            },
    {
        proof {
            lemma_w16_shift(old(self)@.sp + 1, 1);
        }
        let l = match mem.read_word(self.sp) {
            Ok(v) => v,
            Err(f) => {
                return Err(f);
            },
        };
        self.sp = wadd(self.sp, 1);
        let h = match mem.read_word(self.sp) {
            Ok(v) => v,
            Err(f) => {
                return Err(f);
            },
        };
        self.sp = wadd(self.sp, 1);
        Ok(h as u16 * 256 + l as u16)
    }
}

/// Reads a 16-bit immediate or address: high byte at `addr + 1` first.
pub(crate) fn read16(mem: &mut Memory, addr: u16) -> (r: Result<u16, Fault>)
    requires
        mem_wf(old(mem)@),
    ensures
        mem_wf(final(mem)@),
        final(mem)@.cycles >= old(mem)@.cycles,
        match spec_rd16(old(mem)@, addr) {
            Ok((v, m1)) => r == Ok::<u16, Fault>(v) && final(mem)@ == m1,
            Err(f) => r == Err::<u16, Fault>(f),
        },
{
    let h = match mem.read_word(wadd(addr, 1)) {
        Ok(v) => v,
        Err(f) => {
            return Err(f);
        },
    };
    let l = match mem.read_word(addr) {
        Ok(v) => v,
        Err(f) => {
            return Err(f);
        },
    };
    Ok(h as u16 * 256 + l as u16)
}

/// Writes a 16-bit value: low byte at `addr` first.
pub(crate) fn write16(mem: &mut Memory, addr: u16, val: u16) -> (r: Result<(), Fault>)
    requires
        mem_wf(old(mem)@),
    ensures
        mem_wf(final(mem)@),
        final(mem)@.cycles >= old(mem)@.cycles,
        match spec_wr16(old(mem)@, addr, val) {
            Ok(m1) => r == Ok::<(), Fault>(()) && final(mem)@ == m1,
            Err(f) => r == Err::<(), Fault>(f),
        },
{
    match mem.write_word(addr, lo_of(val)) {
        Ok(()) => {},
        Err(f) => {
            return Err(f);
        },
    }
    mem.write_word(wadd(addr, 1), hi_of(val))
}

} // verus!
