//! The laws of the interpreter that relate several operations: how the
//! program counter advances, that the stack round-trips, that a call is
//! undone by a return, and what a bit test leaves untouched. Each is
//! proved against the same specification functions the executable code is
//! verified against.

use crate::cartridge::cart_readable;
use crate::cpu::{
    cpu_wf, get_r8, hi8, lemma_byte_halves, lemma_w16_shift, lo8, spec_pop, spec_push, w16, CpuV,
};
use crate::decode::{spec_decode, Family};
use crate::mem::{
    cell_of, lemma_read_after_write, lemma_tick_reads, lemma_write_other, mem_read_val, mem_wf,
    ram_byte, MemV,
};
use crate::ops::{bit_set, flag_c, flag_h, flag_n, flag_z, spec_flags};
use crate::step::{
    spec_call_u16, spec_cb, spec_pop_r16, spec_push_r16, spec_ret, spec_step,
};
use vstd::prelude::*;

verus! {

/// The two stack bytes below SP name different storage cells.
proof fn lemma_stack_cells(sp: u16)
    ensures
        cell_of(w16(sp - 1)) != cell_of(w16(sp - 2)),
{
    let a1 = w16(sp - 1);
    let a2 = w16(sp - 2);
    if sp == 0 {
        assert(a1 == 0xFFFF && a2 == 0xFFFE);
    } else if sp == 1 {
        assert(a1 == 0 && a2 == 0xFFFF);
    } else {
        assert(a1 == sp - 1 && a2 == sp - 2);
    }
}

/// Pushing any 16-bit value and popping returns it, with SP restored.
pub proof fn lemma_push_pop(c: CpuV, m: MemV, x: u16)
    requires
        cpu_wf(c),
        mem_wf(m),
        ram_byte(w16(c.sp - 1)),
        ram_byte(w16(c.sp - 2)),
    ensures
        spec_push(c, m, x) matches Ok((c1, m1)) && (c1.sp == w16(c.sp - 2) && (spec_pop(c1, m1)
            matches Ok((v, c2, m2)) && (v == x && c2.sp == c.sp))),
{
    let a1 = w16(c.sp - 1);
    let a2 = w16(c.sp - 2);
    lemma_stack_cells(c.sp);
    lemma_read_after_write(m, a1, hi8(x));
    let mw1 = crate::mem::mem_write_val(m, a1, hi8(x));
    lemma_read_after_write(crate::mem::tick4(mw1), a2, lo8(x));
    lemma_write_other(crate::mem::tick4(mw1), a2, lo8(x), a1);
    lemma_w16_shift(c.sp - 2, 1);
    lemma_w16_shift(c.sp - 2, 2);
    lemma_byte_halves(x, 0);
}

/// A pop into any register of the push/pop group leaves the low nibble of
/// F zero: a pop into AF masks it.
pub proof fn lemma_pop_clears_f_nibble(c: CpuV, m: MemV)
    ensures
        spec_pop_r16(c, m) matches Ok(o) ==> o.cpu.af % 16 == 0,
{
    match spec_pop_r16(c, m) {
        Ok(o) => {
            let t = o.cpu.af + o.cpu.af % 16;
            vstd::arithmetic::div_mod::lemma_fundamental_div_mod(t as int, 16);
            vstd::arithmetic::div_mod::lemma_mod_multiples_vanish(t as int / 16, 0, 16);
        },
        Err(_) => {},
    }
}

/// Pushing AF and popping back into AF returns AF exactly: the mask the
/// pop applies removes nothing, because the low nibble of F was already
/// zero.
pub proof fn lemma_push_pop_af(c: CpuV, m: MemV)
    requires
        cpu_wf(c),
        mem_wf(m),
        c.ihi % 4 == 3,
        ram_byte(w16(c.sp - 1)),
        ram_byte(w16(c.sp - 2)),
    ensures
        spec_push_r16(c, m) matches Ok(o1) && (spec_pop_r16(o1.cpu, o1.mem) matches Ok(o2) && (
        o2.cpu.af == c.af && o2.cpu.sp == c.sp)),
{
    lemma_tick_reads(m, w16(c.sp - 1));
    lemma_push_pop(c, crate::mem::tick4(m), c.af);
}

/// After a return that follows a three-byte call from address P, the
/// program counter reads P plus three, and SP is back where it was. Stated
/// over the call and return families themselves: the call pushes its
/// return address and jumps, the return pops it.
pub proof fn lemma_call_ret(c: CpuV, m: MemV)
    requires
        cpu_wf(c),
        mem_wf(m),
        cart_readable(m.cart),
        ram_byte(w16(c.sp - 1)),
        ram_byte(w16(c.sp - 2)),
    ensures
        spec_call_u16(c, m) matches Ok(o1) && (o1.len == 0 && o1.cpu.sp == w16(c.sp - 2) && (
        spec_ret(o1.cpu, o1.mem) matches Ok(o2) && (o2.len == 0 && o2.cpu.pc == w16(c.pc + 3)
            && o2.cpu.sp == c.sp))),
{
    let a1 = w16(c.sp - 1);
    let a2 = w16(c.sp - 2);
    let ret_to = w16(c.pc + 3);
    lemma_stack_cells(c.sp);
    match crate::cpu::spec_rd16(m, w16(c.pc + 1)) {
        Ok((dest, m1)) => {
            let m2 = crate::mem::tick4(m1);
            lemma_read_after_write(m2, a1, hi8(ret_to));
            let mw1 = crate::mem::mem_write_val(m2, a1, hi8(ret_to));
            lemma_read_after_write(crate::mem::tick4(mw1), a2, lo8(ret_to));
            lemma_write_other(crate::mem::tick4(mw1), a2, lo8(ret_to), a1);
            lemma_w16_shift(c.sp - 2, 1);
            lemma_w16_shift(c.sp - 2, 2);
            lemma_byte_halves(ret_to, 0);
        },
        Err(_) => {
            assert(false);
        },
    }
}

/// The documented byte length of each non-control instruction.
pub open spec fn instr_len(op: u8) -> u16 {
    match spec_decode(op / 16, op % 16) {
        Family::Nop => 1,
        Family::LdU16pSp => 3,
        Family::Stop => 2,
        Family::LdR16U16 => 3,
        Family::AddHlR16 => 1,
        Family::LdR16pA => 1,
        Family::LdAR16p => 1,
        Family::IncR16 => 1,
        Family::DecR16 => 1,
        Family::IncR8 => 1,
        Family::DecR8 => 1,
        Family::LdR8U8 => 2,
        Family::AfRow => 1,
        Family::LdR8R8 => 1,
        Family::AluAR8 => 1,
        Family::LdIoU8A => 2,
        Family::AddSpI8 => 2,
        Family::LdAIoU8 => 2,
        Family::LdHlSpI8 => 2,
        Family::PopR16 => 1,
        Family::LdSpHl => 1,
        Family::LdIoCA => 1,
        Family::LdU16pA => 3,
        Family::LdAIoC => 1,
        Family::LdAU16p => 3,
        Family::CbPrefix => 2,
        Family::Di => 1,
        Family::Ei => 1,
        Family::PushR16 => 1,
        Family::AluAU8 => 2,
        _ => 0,
    }
}

/// Whether an opcode belongs to a family that writes the program counter
/// itself: the jumps, calls, returns and restarts.
pub open spec fn is_control(op: u8) -> bool {
    match spec_decode(op / 16, op % 16) {
        Family::Jr => true,
        Family::JrCond => true,
        Family::RetCond => true,
        Family::Ret => true,
        Family::Reti => true,
        Family::JpHl => true,
        Family::JpCond => true,
        Family::JpU16 => true,
        Family::CallCond => true,
        Family::CallU16 => true,
        Family::Rst => true,
        Family::Halt => true,
        Family::Illegal => true,
        _ => false,
    }
}

/// The quarter of the opcode space below 0x40.
#[verifier::rlimit(100)]
proof fn lemma_pc_advance_q0(c: CpuV, m: MemV)
    requires
        cpu_wf(c),
        mem_wf(m),
        spec_step(c, m) is Ok,
        !is_control(mem_read_val(m, c.pc)),
        mem_read_val(m, c.pc) < 0x40,
    ensures
        spec_step(c, m) matches Ok((c2, m2)) && c2.pc == w16(
            c.pc + instr_len(mem_read_val(m, c.pc)),
        ),
{
    reveal(spec_step);
}

/// The half of the opcode space from 0x40 below 0xC0.
#[verifier::rlimit(100)]
proof fn lemma_pc_advance_q12(c: CpuV, m: MemV)
    requires
        cpu_wf(c),
        mem_wf(m),
        spec_step(c, m) is Ok,
        !is_control(mem_read_val(m, c.pc)),
        0x40 <= mem_read_val(m, c.pc) < 0xC0,
    ensures
        spec_step(c, m) matches Ok((c2, m2)) && c2.pc == w16(
            c.pc + instr_len(mem_read_val(m, c.pc)),
        ),
{
    reveal(spec_step);
}

/// The quarter of the opcode space from 0xC0 up.
#[verifier::rlimit(100)]
proof fn lemma_pc_advance_q3(c: CpuV, m: MemV)
    requires
        cpu_wf(c),
        mem_wf(m),
        spec_step(c, m) is Ok,
        !is_control(mem_read_val(m, c.pc)),
        0xC0 <= mem_read_val(m, c.pc),
    ensures
        spec_step(c, m) matches Ok((c2, m2)) && c2.pc == w16(
            c.pc + instr_len(mem_read_val(m, c.pc)),
        ),
{
    reveal(spec_step);
    let op = mem_read_val(m, c.pc);
    if spec_decode(op / 16, op % 16) is CbPrefix {
        lemma_w16_shift(c.pc + 1, 1);
    }
}

/// After any non-control instruction that runs to completion, the program
/// counter has advanced by exactly the documented instruction length.
pub proof fn lemma_pc_advance(c: CpuV, m: MemV)
    requires
        cpu_wf(c),
        mem_wf(m),
        spec_step(c, m) is Ok,
        !is_control(mem_read_val(m, c.pc)),
    ensures
        spec_step(c, m) matches Ok((c2, m2)) && c2.pc == w16(
            c.pc + instr_len(mem_read_val(m, c.pc)),
        ),
{
    let op = mem_read_val(m, c.pc);
    if op < 0x40 {
        lemma_pc_advance_q0(c, m);
    } else if op < 0xC0 {
        lemma_pc_advance_q12(c, m);
    } else {
        lemma_pc_advance_q3(c, m);
    }
}

/// A bit test sets Z to the complement of the bit, clears N, sets H,
/// keeps C, and writes neither a register nor memory.
#[verifier::rlimit(100)]
pub proof fn lemma_bit_test(c: CpuV, m: MemV)
    requires
        cpu_wf(c),
        mem_wf(m),
        cart_readable(m.cart),
        0x40 <= mem_read_val(m, w16(c.pc + 1)) < 0x80,
    ensures
        spec_cb(c, m) matches Ok(o) && {
            let op2 = mem_read_val(m, w16(c.pc + 1));
            let b = ((op2 / 16 % 4) * 2 + op2 % 16 / 8) as u8;
            let val = if op2 % 8 == 6 {
                mem_read_val(m, c.hl)
            } else {
                get_r8(c, (op2 % 8) as u8)
            };
            &&& o.cpu.bc == c.bc
            &&& o.cpu.de == c.de
            &&& o.cpu.hl == c.hl
            &&& o.cpu.sp == c.sp
            &&& hi8(o.cpu.af) == hi8(c.af)
            &&& o.mem == (MemV { cycles: o.mem.cycles, ..m })
            &&& flag_z(lo8(o.cpu.af)) == !bit_set(val, b)
            &&& !flag_n(lo8(o.cpu.af))
            &&& flag_h(lo8(o.cpu.af))
            &&& flag_c(lo8(o.cpu.af)) == flag_c(lo8(c.af))
        },
{
    let op2 = mem_read_val(m, w16(c.pc + 1));
    lemma_tick_reads(m, w16(c.pc + 1));
    lemma_tick_reads(crate::mem::tick4(m), c.hl);
    lemma_tick_reads(m, c.hl);
    let b = ((op2 / 16 % 4) * 2 + op2 % 16 / 8) as u8;
    let val = if op2 % 8 == 6 {
        mem_read_val(m, c.hl)
    } else {
        get_r8(c, (op2 % 8) as u8)
    };
    let f1 = spec_flags(!bit_set(val, b), false, true, flag_c(lo8(c.af)));
    lemma_byte_halves(c.af, f1);
}

} // verus!
