use crate::cpu::{
    cond_holds, cpu_wf, get_r16_1, get_r16_3, hi8, high_bits, lo8, lo_of, read16, set_r16_1,
    set_r16_3, sext, sext_of, spec_pop, spec_push, spec_r8_read, spec_r8_write, spec_rd, spec_rd16,
    spec_wr, spec_wr16, take_r16_2, w16, wadd, with_hi, with_lo, word, write16, wsub, Cpu, CpuV,
    Flag,
};
use crate::decode::{decode, spec_decode, Family};
use crate::fault::Fault;
use crate::mem::{mem_wf, tick4, MemV, Memory};
use crate::ops::{
    af_op_core, alu_core, bit_set, bit_test, cb_rot_core, flag_c, flag_z, pack_flags, res_bit,
    set_bit, spec_af_op, spec_alu, spec_cb_rot, spec_flags, spec_res_bit, spec_set_bit,
};
use vstd::prelude::*;

verus! {

/// What one dispatched instruction leaves behind: the processor, the bus,
/// and the byte length the program counter still advances by (zero for
/// control flow that set it already).
pub ghost struct Outcome {
    pub cpu: CpuV,
    pub mem: MemV,
    pub len: u16,
}

/// How an executed family relates to its specification: on success the
/// machine is exactly the specified outcome and the returned length its
/// length; on a fault, exactly the specified fault.
pub open spec fn fam_post(
    res: Result<Outcome, Fault>,
    r: Result<u16, Fault>,
    c2: CpuV,
    m2: MemV,
) -> bool {
    match res {
        Ok(o) => r == Ok::<u16, Fault>(o.len) && c2 == o.cpu && m2 == o.mem,
        Err(f) => r == Err::<u16, Fault>(f),
    }
}

// ---------------------------------------------------------------------
// One specification function per instruction family. Each takes the
// processor with the opcode nibbles already cached and the bus as it
// stands after the opcode fetch.
// ---------------------------------------------------------------------
pub open spec fn spec_nop(c: CpuV, m: MemV) -> Result<Outcome, Fault> {
    Ok(Outcome { cpu: c, mem: m, len: 1 })
}

pub open spec fn spec_stop(c: CpuV, m: MemV) -> Result<Outcome, Fault> {
    Ok(Outcome { cpu: c, mem: m, len: 2 })
}

/// Stores SP at the immediate 16-bit address, low byte first.
pub open spec fn spec_ld_u16p_sp(c: CpuV, m: MemV) -> Result<Outcome, Fault> {
    match spec_rd16(m, w16(c.pc + 1)) {
        Err(f) => Err(f),
        Ok((dest, m1)) => match spec_wr16(m1, dest, c.sp) {
            Err(f) => Err(f),
            Ok(m2) => Ok(Outcome { cpu: c, mem: m2, len: 3 }),
        },
    }
}

/// Unconditional relative jump: one internal cycle, then the signed
/// offset is added to the program counter.
pub open spec fn spec_jr(c: CpuV, m: MemV) -> Result<Outcome, Fault> {
    let m0 = tick4(m);
    match spec_rd(m0, w16(c.pc + 1)) {
        Err(f) => Err(f),
        Ok((off, m1)) => Ok(
            Outcome { cpu: CpuV { pc: w16(c.pc + sext(off)), ..c }, mem: m1, len: 2 },
        ),
    }
}

/// Conditional relative jump; the taken branch costs one extra cycle.
pub open spec fn spec_jr_cond(c: CpuV, m: MemV) -> Result<Outcome, Fault> {
    match spec_rd(m, w16(c.pc + 1)) {
        Err(f) => Err(f),
        Ok((off, m1)) => if cond_holds(c) {
            Ok(Outcome { cpu: CpuV { pc: w16(c.pc + sext(off)), ..c }, mem: tick4(m1), len: 2 })
        } else {
            Ok(Outcome { cpu: c, mem: m1, len: 2 })
        },
    }
}

/// Loads a 16-bit immediate into a register of the first group.
pub open spec fn spec_ld_r16_u16(c: CpuV, m: MemV) -> Result<Outcome, Fault> {
    match spec_rd16(m, w16(c.pc + 1)) {
        Err(f) => Err(f),
        Ok((v, m1)) => Ok(
            Outcome { cpu: set_r16_1(c, (c.ihi % 4) as u8, v), mem: m1, len: 3 },
        ),
    }
}

/// Adds a 16-bit register into HL: N cleared, H from bit 11, C from bit
/// 15, Z untouched; one internal cycle.
pub open spec fn spec_add_hl_r16(c: CpuV, m: MemV) -> Result<Outcome, Fault> {
    let rhs = get_r16_1(c, (c.ihi % 4) as u8);
    let f1 = spec_flags(
        flag_z(lo8(c.af)),
        false,
        c.hl % 0x1000 + rhs % 0x1000 >= 0x1000,
        c.hl + rhs > 0xFFFF,
    );
    Ok(
        Outcome {
            cpu: CpuV { af: with_lo(c.af, f1), hl: w16(c.hl + rhs), ..c },
            mem: tick4(m),
            len: 1,
        },
    )
}

/// Stores A through the address the second group names.
pub open spec fn spec_ld_r16p_a(c: CpuV, m: MemV) -> Result<Outcome, Fault> {
    let (addr, c1) = take_r16_2(c);
    match spec_wr(m, addr, hi8(c.af)) {
        Err(f) => Err(f),
        Ok(m1) => Ok(Outcome { cpu: c1, mem: m1, len: 1 }),
    }
}

/// Loads A through the address the second group names.
pub open spec fn spec_ld_a_r16p(c: CpuV, m: MemV) -> Result<Outcome, Fault> {
    let (addr, c1) = take_r16_2(c);
    match spec_rd(m, addr) {
        Err(f) => Err(f),
        Ok((v, m1)) => Ok(Outcome { cpu: CpuV { af: with_hi(c1.af, v), ..c1 }, mem: m1, len: 1 }),
    }
}

/// Increments a 16-bit register; flags untouched; one internal cycle.
pub open spec fn spec_inc_r16(c: CpuV, m: MemV) -> Result<Outcome, Fault> {
    let sel = (c.ihi % 4) as u8;
    Ok(
        Outcome {
            cpu: set_r16_1(c, sel, w16(get_r16_1(c, sel) + 1)),
            mem: tick4(m),
            len: 1,
        },
    )
}

/// Decrements a 16-bit register; flags untouched; one internal cycle.
pub open spec fn spec_dec_r16(c: CpuV, m: MemV) -> Result<Outcome, Fault> {
    let sel = (c.ihi % 4) as u8;
    Ok(
        Outcome {
            cpu: set_r16_1(c, sel, w16(get_r16_1(c, sel) - 1)),
            mem: tick4(m),
            len: 1,
        },
    )
}

/// Increments an 8-bit operand: Z on wrap to zero, N cleared, H on
/// low-nibble overflow, C untouched.
pub open spec fn spec_inc_r8(c: CpuV, m: MemV) -> Result<Outcome, Fault> {
    let bits = high_bits(c);
    match spec_r8_read(c, m, bits) {
        Err(f) => Err(f),
        Ok((val, m1)) => {
            let f1 = spec_flags(val == 0xFF, false, val % 16 == 15, flag_c(lo8(c.af)));
            let c1 = CpuV { af: with_lo(c.af, f1), ..c };
            match spec_r8_write(c1, m1, bits, ((val + 1) % 256) as u8) {
                Err(f) => Err(f),
                Ok((c2, m2)) => Ok(Outcome { cpu: c2, mem: m2, len: 1 }),
            }
        },
    }
}

/// Decrements an 8-bit operand: Z on result zero, N set, H on low-nibble
/// borrow, C untouched.
pub open spec fn spec_dec_r8(c: CpuV, m: MemV) -> Result<Outcome, Fault> {
    let bits = high_bits(c);
    match spec_r8_read(c, m, bits) {
        Err(f) => Err(f),
        Ok((val, m1)) => {
            let f1 = spec_flags(val == 1, true, val % 16 == 0, flag_c(lo8(c.af)));
            let c1 = CpuV { af: with_lo(c.af, f1), ..c };
            match spec_r8_write(c1, m1, bits, ((val - 1) % 256) as u8) {
                Err(f) => Err(f),
                Ok((c2, m2)) => Ok(Outcome { cpu: c2, mem: m2, len: 1 }),
            }
        },
    }
}

/// Loads an 8-bit immediate into the operand bits 5-3 name.
pub open spec fn spec_ld_r8_u8(c: CpuV, m: MemV) -> Result<Outcome, Fault> {
    match spec_rd(m, w16(c.pc + 1)) {
        Err(f) => Err(f),
        Ok((v, m1)) => match spec_r8_write(c, m1, high_bits(c), v) {
            Err(f) => Err(f),
            Ok((c1, m2)) => Ok(Outcome { cpu: c1, mem: m2, len: 2 }),
        },
    }
}

/// The accumulator-and-flag row: rotates, decimal adjust, complement,
/// and the carry toggles.
pub open spec fn spec_af_row(c: CpuV, m: MemV) -> Result<Outcome, Fault> {
    let (a1, f1) = spec_af_op(high_bits(c), hi8(c.af), lo8(c.af));
    Ok(Outcome { cpu: CpuV { af: word(a1, f1), ..c }, mem: m, len: 1 })
}

/// Moves one 8-bit operand to another; selector six goes through memory.
pub open spec fn spec_ld_r8_r8(c: CpuV, m: MemV) -> Result<Outcome, Fault> {
    match spec_r8_read(c, m, (c.ilo % 8) as u8) {
        Err(f) => Err(f),
        Ok((v, m1)) => match spec_r8_write(c, m1, high_bits(c), v) {
            Err(f) => Err(f),
            Ok((c1, m2)) => Ok(Outcome { cpu: c1, mem: m2, len: 1 }),
        },
    }
}

/// An accumulator operation against an 8-bit operand.
pub open spec fn spec_alu_a_r8(c: CpuV, m: MemV) -> Result<Outcome, Fault> {
    match spec_r8_read(c, m, (c.ilo % 8) as u8) {
        Err(f) => Err(f),
        Ok((rhs, m1)) => {
            let (a1, f1) = spec_alu(high_bits(c), hi8(c.af), lo8(c.af), rhs);
            Ok(Outcome { cpu: CpuV { af: word(a1, f1), ..c }, mem: m1, len: 1 })
        },
    }
}

/// Conditional return: one internal cycle always; when taken, one more
/// and a pop into the program counter.
pub open spec fn spec_ret_cond(c: CpuV, m: MemV) -> Result<Outcome, Fault> {
    let m0 = tick4(m);
    if cond_holds(c) {
        match spec_pop(c, tick4(m0)) {
            Err(f) => Err(f),
            Ok((dest, c1, m1)) => Ok(Outcome { cpu: CpuV { pc: dest, ..c1 }, mem: m1, len: 0 }),
        }
    } else {
        Ok(Outcome { cpu: c, mem: m0, len: 1 })
    }
}

/// Stores A in the high page at an immediate offset.
pub open spec fn spec_ld_io_u8_a(c: CpuV, m: MemV) -> Result<Outcome, Fault> {
    match spec_rd(m, w16(c.pc + 1)) {
        Err(f) => Err(f),
        Ok((off, m1)) => match spec_wr(m1, (0xFF00 + off) as u16, hi8(c.af)) {
            Err(f) => Err(f),
            Ok(m2) => Ok(Outcome { cpu: c, mem: m2, len: 2 }),
        },
    }
}

/// Adds a signed immediate to SP: Z and N cleared, H and C from the
/// low-nibble and low-byte sums.
pub open spec fn spec_add_sp_i8(c: CpuV, m: MemV) -> Result<Outcome, Fault> {
    match spec_rd(m, w16(c.pc + 1)) {
        Err(f) => Err(f),
        Ok((b, m1)) => {
            let off = sext(b);
            let f1 = spec_flags(
                false,
                false,
                c.sp % 16 + off % 16 > 15,
                c.sp % 256 + off % 256 > 255,
            );
            Ok(
                Outcome {
                    cpu: CpuV { af: with_lo(c.af, f1), sp: w16(c.sp + off), ..c },
                    mem: m1,
                    len: 2,
                },
            )
        },
    }
}

/// Loads A from the high page at an immediate offset.
pub open spec fn spec_ld_a_io_u8(c: CpuV, m: MemV) -> Result<Outcome, Fault> {
    match spec_rd(m, w16(c.pc + 1)) {
        Err(f) => Err(f),
        Ok((off, m1)) => match spec_rd(m1, (0xFF00 + off) as u16) {
            Err(f) => Err(f),
            Ok((v, m2)) => Ok(
                Outcome { cpu: CpuV { af: with_hi(c.af, v), ..c }, mem: m2, len: 2 },
            ),
        },
    }
}

/// Loads HL with SP plus a signed immediate; flags as the SP addition.
pub open spec fn spec_ld_hl_sp_i8(c: CpuV, m: MemV) -> Result<Outcome, Fault> {
    match spec_rd(m, w16(c.pc + 1)) {
        Err(f) => Err(f),
        Ok((b, m1)) => {
            let off = sext(b);
            let f1 = spec_flags(
                false,
                false,
                c.sp % 16 + off % 16 > 15,
                c.sp % 256 + off % 256 > 255,
            );
            Ok(
                Outcome {
                    cpu: CpuV { af: with_lo(c.af, f1), hl: w16(c.sp + off), ..c },
                    mem: m1,
                    len: 2,
                },
            )
        },
    }
}

/// Pops into a register of the third group; a pop into AF keeps only the
/// top nibble of F.
pub open spec fn spec_pop_r16(c: CpuV, m: MemV) -> Result<Outcome, Fault> {
    match spec_pop(c, m) {
        Err(f) => Err(f),
        Ok((v, c1, m1)) => {
            let c2 = set_r16_3(c1, (c.ihi % 4) as u8, v);
            Ok(
                Outcome {
                    cpu: CpuV { af: (c2.af - c2.af % 16) as u16, ..c2 },
                    mem: m1,
                    len: 1,
                },
            )
        },
    }
}

/// Return: one internal cycle, then a pop into the program counter.
pub open spec fn spec_ret(c: CpuV, m: MemV) -> Result<Outcome, Fault> {
    match spec_pop(c, tick4(m)) {
        Err(f) => Err(f),
        Ok((dest, c1, m1)) => Ok(Outcome { cpu: CpuV { pc: dest, ..c1 }, mem: m1, len: 0 }),
    }
}

/// Return from interrupt: as return, and the master enable is set.
pub open spec fn spec_reti(c: CpuV, m: MemV) -> Result<Outcome, Fault> {
    let c0 = CpuV { ime: true, ..c };
    match spec_pop(c0, tick4(m)) {
        Err(f) => Err(f),
        Ok((dest, c1, m1)) => Ok(Outcome { cpu: CpuV { pc: dest, ..c1 }, mem: m1, len: 0 }),
    }
}

/// Jump to the address in HL; no extra cycle.
pub open spec fn spec_jp_hl(c: CpuV, m: MemV) -> Result<Outcome, Fault> {
    Ok(Outcome { cpu: CpuV { pc: c.hl, ..c }, mem: m, len: 0 })
}

/// Loads SP from HL; one internal cycle.
pub open spec fn spec_ld_sp_hl(c: CpuV, m: MemV) -> Result<Outcome, Fault> {
    Ok(Outcome { cpu: CpuV { sp: c.hl, ..c }, mem: tick4(m), len: 1 })
}

/// Conditional absolute jump; the taken branch costs one extra cycle.
pub open spec fn spec_jp_cond(c: CpuV, m: MemV) -> Result<Outcome, Fault> {
    match spec_rd16(m, w16(c.pc + 1)) {
        Err(f) => Err(f),
        Ok((dest, m1)) => if cond_holds(c) {
            Ok(Outcome { cpu: CpuV { pc: dest, ..c }, mem: tick4(m1), len: 0 })
        } else {
            Ok(Outcome { cpu: c, mem: m1, len: 3 })
        },
    }
}

/// Stores A in the high page at the offset in C.
pub open spec fn spec_ld_io_c_a(c: CpuV, m: MemV) -> Result<Outcome, Fault> {
    match spec_wr(m, (0xFF00 + lo8(c.bc)) as u16, hi8(c.af)) {
        Err(f) => Err(f),
        Ok(m1) => Ok(Outcome { cpu: c, mem: m1, len: 1 }),
    }
}

/// Stores A at an immediate 16-bit address.
pub open spec fn spec_ld_u16p_a(c: CpuV, m: MemV) -> Result<Outcome, Fault> {
    match spec_rd16(m, w16(c.pc + 1)) {
        Err(f) => Err(f),
        Ok((dest, m1)) => match spec_wr(m1, dest, hi8(c.af)) {
            Err(f) => Err(f),
            Ok(m2) => Ok(Outcome { cpu: c, mem: m2, len: 3 }),
        },
    }
}

/// Loads A from the high page at the offset in C.
pub open spec fn spec_ld_a_io_c(c: CpuV, m: MemV) -> Result<Outcome, Fault> {
    match spec_rd(m, (0xFF00 + lo8(c.bc)) as u16) {
        Err(f) => Err(f),
        Ok((v, m1)) => Ok(Outcome { cpu: CpuV { af: with_hi(c.af, v), ..c }, mem: m1, len: 1 }),
    }
}

/// Loads A from an immediate 16-bit address.
pub open spec fn spec_ld_a_u16p(c: CpuV, m: MemV) -> Result<Outcome, Fault> {
    match spec_rd16(m, w16(c.pc + 1)) {
        Err(f) => Err(f),
        Ok((src, m1)) => match spec_rd(m1, src) {
            Err(f) => Err(f),
            Ok((v, m2)) => Ok(
                Outcome { cpu: CpuV { af: with_hi(c.af, v), ..c }, mem: m2, len: 3 },
            ),
        },
    }
}

/// Unconditional absolute jump: one internal cycle, then the immediate
/// destination.
pub open spec fn spec_jp_u16(c: CpuV, m: MemV) -> Result<Outcome, Fault> {
    match spec_rd16(tick4(m), w16(c.pc + 1)) {
        Err(f) => Err(f),
        Ok((dest, m1)) => Ok(Outcome { cpu: CpuV { pc: dest, ..c }, mem: m1, len: 0 }),
    }
}

/// The prefixed family: the next byte selects a rotate/shift/swap row, a
/// bit test, a bit clear, or a bit set, on the operand its low bits name.
pub open spec fn spec_cb(c: CpuV, m: MemV) -> Result<Outcome, Fault> {
    let c1 = CpuV { pc: w16(c.pc + 1), ..c };
    match spec_rd(m, c1.pc) {
        Err(f) => Err(f),
        Ok((op2, m1)) => {
            let c2 = CpuV { ihi: op2 / 16, ilo: op2 % 16, ..c1 };
            let bits = high_bits(c2);
            let src = (c2.ilo % 8) as u8;
            match spec_r8_read(c2, m1, src) {
                Err(f) => Err(f),
                Ok((val, m2)) => if c2.ihi <= 3 {
                    let (res, f1) = spec_cb_rot(bits, val, lo8(c2.af));
                    let c3 = CpuV { af: with_lo(c2.af, f1), ..c2 };
                    match spec_r8_write(c3, m2, src, res) {
                        Err(f) => Err(f),
                        Ok((c4, m3)) => Ok(Outcome { cpu: c4, mem: m3, len: 1 }),
                    }
                } else if c2.ihi <= 7 {
                    let f1 = spec_flags(!bit_set(val, bits), false, true, flag_c(lo8(c2.af)));
                    Ok(Outcome { cpu: CpuV { af: with_lo(c2.af, f1), ..c2 }, mem: m2, len: 1 })
                } else if c2.ihi <= 0xB {
                    match spec_r8_write(c2, m2, src, spec_res_bit(val, bits)) {
                        Err(f) => Err(f),
                        Ok((c3, m3)) => Ok(Outcome { cpu: c3, mem: m3, len: 1 }),
                    }
                } else {
                    match spec_r8_write(c2, m2, src, spec_set_bit(val, bits)) {
                        Err(f) => Err(f),
                        Ok((c3, m3)) => Ok(Outcome { cpu: c3, mem: m3, len: 1 }),
                    }
                },
            }
        },
    }
}

/// Clears the interrupt master enable, synchronously.
pub open spec fn spec_di(c: CpuV, m: MemV) -> Result<Outcome, Fault> {
    Ok(Outcome { cpu: CpuV { ime: false, ..c }, mem: m, len: 1 })
}

/// Sets the interrupt master enable, synchronously (the one-instruction
/// delay of the hardware is not modeled).
pub open spec fn spec_ei(c: CpuV, m: MemV) -> Result<Outcome, Fault> {
    Ok(Outcome { cpu: CpuV { ime: true, ..c }, mem: m, len: 1 })
}

/// Conditional call; when taken, one internal cycle, the return address
/// (three past the opcode) is pushed, and the immediate destination
/// taken.
pub open spec fn spec_call_cond(c: CpuV, m: MemV) -> Result<Outcome, Fault> {
    match spec_rd16(m, w16(c.pc + 1)) {
        Err(f) => Err(f),
        Ok((dest, m1)) => if cond_holds(c) {
            match spec_push(c, tick4(m1), w16(c.pc + 3)) {
                Err(f) => Err(f),
                Ok((c1, m2)) => Ok(Outcome { cpu: CpuV { pc: dest, ..c1 }, mem: m2, len: 0 }),
            }
        } else {
            Ok(Outcome { cpu: c, mem: m1, len: 3 })
        },
    }
}

/// Pushes a register of the third group; one internal cycle first.
pub open spec fn spec_push_r16(c: CpuV, m: MemV) -> Result<Outcome, Fault> {
    match spec_push(c, tick4(m), get_r16_3(c, (c.ihi % 4) as u8)) {
        Err(f) => Err(f),
        Ok((c1, m1)) => Ok(Outcome { cpu: c1, mem: m1, len: 1 }),
    }
}

/// Unconditional call: the return address is three past the opcode.
pub open spec fn spec_call_u16(c: CpuV, m: MemV) -> Result<Outcome, Fault> {
    match spec_rd16(m, w16(c.pc + 1)) {
        Err(f) => Err(f),
        Ok((dest, m1)) => match spec_push(c, tick4(m1), w16(c.pc + 3)) {
            Err(f) => Err(f),
            Ok((c1, m2)) => Ok(Outcome { cpu: CpuV { pc: dest, ..c1 }, mem: m2, len: 0 }),
        },
    }
}

/// An accumulator operation against an 8-bit immediate.
pub open spec fn spec_alu_a_u8(c: CpuV, m: MemV) -> Result<Outcome, Fault> {
    match spec_rd(m, w16(c.pc + 1)) {
        Err(f) => Err(f),
        Ok((rhs, m1)) => {
            let (a1, f1) = spec_alu(high_bits(c), hi8(c.af), lo8(c.af), rhs);
            Ok(Outcome { cpu: CpuV { af: word(a1, f1), ..c }, mem: m1, len: 2 })
        },
    }
}

/// Restart: one internal cycle, the address one past the opcode is
/// pushed, and control jumps to eight times the selector.
pub open spec fn spec_rst(c: CpuV, m: MemV) -> Result<Outcome, Fault> {
    match spec_push(c, tick4(m), w16(c.pc + 1)) {
        Err(f) => Err(f),
        Ok((c1, m1)) => Ok(
            Outcome { cpu: CpuV { pc: (high_bits(c) * 8) as u16, ..c1 }, mem: m1, len: 0 },
        ),
    }
}

/// One whole instruction: fetch the opcode at the program counter, cache
/// its nibbles, run its family, then advance the program counter by the
/// family's length. Kept opaque so that callers reason through `step`'s
/// contract rather than re-expand the whole dispatch.
#[verifier::opaque]
pub open spec fn spec_step(c: CpuV, m: MemV) -> Result<(CpuV, MemV), Fault> {
    match spec_rd(m, c.pc) {
        Err(f) => Err(f),
        Ok((op, m1)) => {
            let c1 = CpuV { ihi: op / 16, ilo: op % 16, ..c };
            let res = match spec_decode(op / 16, op % 16) {
                Family::Nop => spec_nop(c1, m1),
                Family::LdU16pSp => spec_ld_u16p_sp(c1, m1),
                Family::Stop => spec_stop(c1, m1),
                Family::Jr => spec_jr(c1, m1),
                Family::JrCond => spec_jr_cond(c1, m1),
                Family::LdR16U16 => spec_ld_r16_u16(c1, m1),
                Family::AddHlR16 => spec_add_hl_r16(c1, m1),
                Family::LdR16pA => spec_ld_r16p_a(c1, m1),
                Family::LdAR16p => spec_ld_a_r16p(c1, m1),
                Family::IncR16 => spec_inc_r16(c1, m1),
                Family::DecR16 => spec_dec_r16(c1, m1),
                Family::IncR8 => spec_inc_r8(c1, m1),
                Family::DecR8 => spec_dec_r8(c1, m1),
                Family::LdR8U8 => spec_ld_r8_u8(c1, m1),
                Family::AfRow => spec_af_row(c1, m1),
                Family::Halt => Err(Fault::UnimplementedOpcode { op }),
                Family::LdR8R8 => spec_ld_r8_r8(c1, m1),
                Family::AluAR8 => spec_alu_a_r8(c1, m1),
                Family::RetCond => spec_ret_cond(c1, m1),
                Family::LdIoU8A => spec_ld_io_u8_a(c1, m1),
                Family::AddSpI8 => spec_add_sp_i8(c1, m1),
                Family::LdAIoU8 => spec_ld_a_io_u8(c1, m1),
                Family::LdHlSpI8 => spec_ld_hl_sp_i8(c1, m1),
                Family::PopR16 => spec_pop_r16(c1, m1),
                Family::Ret => spec_ret(c1, m1),
                Family::Reti => spec_reti(c1, m1),
                Family::JpHl => spec_jp_hl(c1, m1),
                Family::LdSpHl => spec_ld_sp_hl(c1, m1),
                Family::JpCond => spec_jp_cond(c1, m1),
                Family::LdIoCA => spec_ld_io_c_a(c1, m1),
                Family::LdU16pA => spec_ld_u16p_a(c1, m1),
                Family::LdAIoC => spec_ld_a_io_c(c1, m1),
                Family::LdAU16p => spec_ld_a_u16p(c1, m1),
                Family::JpU16 => spec_jp_u16(c1, m1),
                Family::CbPrefix => spec_cb(c1, m1),
                Family::Di => spec_di(c1, m1),
                Family::Ei => spec_ei(c1, m1),
                Family::CallCond => spec_call_cond(c1, m1),
                Family::PushR16 => spec_push_r16(c1, m1),
                Family::CallU16 => spec_call_u16(c1, m1),
                Family::AluAU8 => spec_alu_a_u8(c1, m1),
                Family::Rst => spec_rst(c1, m1),
                Family::Illegal => Err(Fault::UnimplementedOpcode { op }),
            };
            match res {
                Err(f) => Err(f),
                Ok(o) => Ok((CpuV { pc: w16(o.cpu.pc + o.len), ..o.cpu }, o.mem)),
            }
        },
    }
}

// ---------------------------------------------------------------------
// The executable families, each proved equal to its specification.
// ---------------------------------------------------------------------
impl Cpu {
    fn op_ld_u16p_sp(&mut self, mem: &mut Memory) -> (r: Result<u16, Fault>)
        requires
            cpu_wf(old(self)@),
            mem_wf(old(mem)@),
        ensures
            cpu_wf(final(self)@),
            mem_wf(final(mem)@),
            final(mem)@.cycles >= old(mem)@.cycles,
            fam_post(spec_ld_u16p_sp(old(self)@, old(mem)@), r, final(self)@, final(mem)@),
    {
        let dest = match read16(mem, wadd(self.pc(), 1)) {
            Ok(v) => v,
            Err(f) => {
                return Err(f);
            },
        };
        match write16(mem, dest, self.sp()) {
            Ok(()) => {},
            Err(f) => {
                return Err(f);
            },
        }
        Ok(3)
    }

    fn op_jr(&mut self, mem: &mut Memory) -> (r: Result<u16, Fault>)
        requires
            cpu_wf(old(self)@),
            mem_wf(old(mem)@),
        ensures
            cpu_wf(final(self)@),
            mem_wf(final(mem)@),
            final(mem)@.cycles >= old(mem)@.cycles,
            fam_post(spec_jr(old(self)@, old(mem)@), r, final(self)@, final(mem)@),
    {
        mem.tick();
        let b = match mem.read_word(wadd(self.pc(), 1)) {
            Ok(v) => v,
            Err(f) => {
                return Err(f);
            },
        };
        let dest = wadd(self.pc(), sext_of(b));
        self.pc_jump(dest);
        Ok(2)
    }

    fn op_jr_cond(&mut self, mem: &mut Memory) -> (r: Result<u16, Fault>)
        requires
            cpu_wf(old(self)@),
            mem_wf(old(mem)@),
        ensures
            cpu_wf(final(self)@),
            mem_wf(final(mem)@),
            final(mem)@.cycles >= old(mem)@.cycles,
            fam_post(spec_jr_cond(old(self)@, old(mem)@), r, final(self)@, final(mem)@),
    {
        let b = match mem.read_word(wadd(self.pc(), 1)) {
            Ok(v) => v,
            Err(f) => {
                return Err(f);
            },
        };
        if self.decode_condition() {
            mem.tick();
            let dest = wadd(self.pc(), sext_of(b));
            self.pc_jump(dest);
        }
        Ok(2)
    }

    fn op_ld_r16_u16(&mut self, mem: &mut Memory) -> (r: Result<u16, Fault>)
        requires
            cpu_wf(old(self)@),
            mem_wf(old(mem)@),
        ensures
            cpu_wf(final(self)@),
            mem_wf(final(mem)@),
            final(mem)@.cycles >= old(mem)@.cycles,
            fam_post(spec_ld_r16_u16(old(self)@, old(mem)@), r, final(self)@, final(mem)@),
    {
        let v = match read16(mem, wadd(self.pc(), 1)) {
            Ok(v) => v,
            Err(f) => {
                return Err(f);
            },
        };
        let sel = self.r16_sel();
        self.r16_1_put(sel, v);
        Ok(3)
    }

    fn op_add_hl_r16(&mut self, mem: &mut Memory) -> (r: Result<u16, Fault>)
        requires
            cpu_wf(old(self)@),
            mem_wf(old(mem)@),
        ensures
            cpu_wf(final(self)@),
            mem_wf(final(mem)@),
            final(mem)@.cycles >= old(mem)@.cycles,
            fam_post(spec_add_hl_r16(old(self)@, old(mem)@), r, final(self)@, final(mem)@),
    {
        let sel = self.r16_sel();
        let rhs = self.r16_1_get(sel);
        let hl = self.hl();
        let z = self.get_flag(Flag::Z);
        let f1 = pack_flags(
            z,
            false,
            hl % 0x1000 + rhs % 0x1000 >= 0x1000,
            hl as u32 + rhs as u32 > 0xFFFF,
        );
        self.set_f(f1);
        self.set_hl(wadd(hl, rhs));
        mem.tick();
        Ok(1)
    }

    fn op_ld_r16p_a(&mut self, mem: &mut Memory) -> (r: Result<u16, Fault>)
        requires
            cpu_wf(old(self)@),
            mem_wf(old(mem)@),
        ensures
            cpu_wf(final(self)@),
            mem_wf(final(mem)@),
            final(mem)@.cycles >= old(mem)@.cycles,
            fam_post(spec_ld_r16p_a(old(self)@, old(mem)@), r, final(self)@, final(mem)@),
    {
        let a = self.a();
        let addr = self.r16_2_take();
        match mem.write_word(addr, a) {
            Ok(()) => {},
            Err(f) => {
                return Err(f);
            },
        }
        Ok(1)
    }

    fn op_ld_a_r16p(&mut self, mem: &mut Memory) -> (r: Result<u16, Fault>)
        requires
            cpu_wf(old(self)@),
            mem_wf(old(mem)@),
        ensures
            cpu_wf(final(self)@),
            mem_wf(final(mem)@),
            final(mem)@.cycles >= old(mem)@.cycles,
            fam_post(spec_ld_a_r16p(old(self)@, old(mem)@), r, final(self)@, final(mem)@),
    {
        let addr = self.r16_2_take();
        let v = match mem.read_word(addr) {
            Ok(v) => v,
            Err(f) => {
                return Err(f);
            },
        };
        self.set_a(v);
        Ok(1)
    }

    fn op_inc_r16(&mut self, mem: &mut Memory) -> (r: Result<u16, Fault>)
        requires
            cpu_wf(old(self)@),
            mem_wf(old(mem)@),
        ensures
            cpu_wf(final(self)@),
            mem_wf(final(mem)@),
            final(mem)@.cycles >= old(mem)@.cycles,
            fam_post(spec_inc_r16(old(self)@, old(mem)@), r, final(self)@, final(mem)@),
    {
        let sel = self.r16_sel();
        let v = self.r16_1_get(sel);
        self.r16_1_put(sel, wadd(v, 1));
        mem.tick();
        Ok(1)
    }

    fn op_dec_r16(&mut self, mem: &mut Memory) -> (r: Result<u16, Fault>)
        requires
            cpu_wf(old(self)@),
            mem_wf(old(mem)@),
        ensures
            cpu_wf(final(self)@),
            mem_wf(final(mem)@),
            final(mem)@.cycles >= old(mem)@.cycles,
            fam_post(spec_dec_r16(old(self)@, old(mem)@), r, final(self)@, final(mem)@),
    {
        let sel = self.r16_sel();
        let v = self.r16_1_get(sel);
        self.r16_1_put(sel, wsub(v, 1));
        mem.tick();
        Ok(1)
    }

    fn op_inc_r8(&mut self, mem: &mut Memory) -> (r: Result<u16, Fault>)
        requires
            cpu_wf(old(self)@),
            mem_wf(old(mem)@),
        ensures
            cpu_wf(final(self)@),
            mem_wf(final(mem)@),
            final(mem)@.cycles >= old(mem)@.cycles,
            fam_post(spec_inc_r8(old(self)@, old(mem)@), r, final(self)@, final(mem)@),
    {
        let bits = self.calc_high_bits();
        let val = match self.r8_read(mem, bits) {
            Ok(v) => v,
            Err(f) => {
                return Err(f);
            },
        };
        let cf = self.get_flag(Flag::C);
        let f1 = pack_flags(val == 0xFF, false, val % 16 == 15, cf);
        self.set_f(f1);
        let nv = ((val as u16 + 1) % 256) as u8;
        match self.r8_write(mem, bits, nv) {
            Ok(()) => {},
            Err(f) => {
                return Err(f);
            },
        }
        Ok(1)
    }

    fn op_dec_r8(&mut self, mem: &mut Memory) -> (r: Result<u16, Fault>)
        requires
            cpu_wf(old(self)@),
            mem_wf(old(mem)@),
        ensures
            cpu_wf(final(self)@),
            mem_wf(final(mem)@),
            final(mem)@.cycles >= old(mem)@.cycles,
            fam_post(spec_dec_r8(old(self)@, old(mem)@), r, final(self)@, final(mem)@),
    {
        let bits = self.calc_high_bits();
        let val = match self.r8_read(mem, bits) {
            Ok(v) => v,
            Err(f) => {
                return Err(f);
            },
        };
        let cf = self.get_flag(Flag::C);
        let f1 = pack_flags(val == 1, true, val % 16 == 0, cf);
        self.set_f(f1);
        proof {
            vstd::arithmetic::div_mod::lemma_mod_multiples_vanish(1, val - 1, 256);
        }
        let nv = ((val as u16 + 255) % 256) as u8;
        match self.r8_write(mem, bits, nv) {
            Ok(()) => {},
            Err(f) => {
                return Err(f);
            },
        }
        Ok(1)
    }

    fn op_ld_r8_u8(&mut self, mem: &mut Memory) -> (r: Result<u16, Fault>)
        requires
            cpu_wf(old(self)@),
            mem_wf(old(mem)@),
        ensures
            cpu_wf(final(self)@),
            mem_wf(final(mem)@),
            final(mem)@.cycles >= old(mem)@.cycles,
            fam_post(spec_ld_r8_u8(old(self)@, old(mem)@), r, final(self)@, final(mem)@),
    {
        let v = match mem.read_word(wadd(self.pc(), 1)) {
            Ok(v) => v,
            Err(f) => {
                return Err(f);
            },
        };
        let bits = self.calc_high_bits();
        match self.r8_write(mem, bits, v) {
            Ok(()) => {},
            Err(f) => {
                return Err(f);
            },
        }
        Ok(2)
    }

    fn op_ret_cond(&mut self, mem: &mut Memory) -> (r: Result<u16, Fault>)
        requires
            cpu_wf(old(self)@),
            mem_wf(old(mem)@),
        ensures
            cpu_wf(final(self)@),
            mem_wf(final(mem)@),
            final(mem)@.cycles >= old(mem)@.cycles,
            fam_post(spec_ret_cond(old(self)@, old(mem)@), r, final(self)@, final(mem)@),
    {
        mem.tick();
        if self.decode_condition() {
            mem.tick();
            let dest = match self.pop(mem) {
                Ok(v) => v,
                Err(f) => {
                    return Err(f);
                },
            };
            self.pc_jump(dest);
            Ok(0)
        } else {
            Ok(1)
        }
    }

    fn op_ld_io_u8_a(&mut self, mem: &mut Memory) -> (r: Result<u16, Fault>)
        requires
            cpu_wf(old(self)@),
            mem_wf(old(mem)@),
        ensures
            cpu_wf(final(self)@),
            mem_wf(final(mem)@),
            final(mem)@.cycles >= old(mem)@.cycles,
            fam_post(spec_ld_io_u8_a(old(self)@, old(mem)@), r, final(self)@, final(mem)@),
    {
        let off = match mem.read_word(wadd(self.pc(), 1)) {
            Ok(v) => v,
            Err(f) => {
                return Err(f);
            },
        };
        match mem.write_word(0xFF00 + off as u16, self.a()) {
            Ok(()) => {},
            Err(f) => {
                return Err(f);
            },
        }
        Ok(2)
    }

    fn op_add_sp_i8(&mut self, mem: &mut Memory) -> (r: Result<u16, Fault>)
        requires
            cpu_wf(old(self)@),
            mem_wf(old(mem)@),
        ensures
            cpu_wf(final(self)@),
            mem_wf(final(mem)@),
            final(mem)@.cycles >= old(mem)@.cycles,
            fam_post(spec_add_sp_i8(old(self)@, old(mem)@), r, final(self)@, final(mem)@),
    {
        let b = match mem.read_word(wadd(self.pc(), 1)) {
            Ok(v) => v,
            Err(f) => {
                return Err(f);
            },
        };
        let off = sext_of(b);
        let sp = self.sp();
        let f1 = pack_flags(false, false, sp % 16 + off % 16 > 15, sp % 256 + off % 256 > 255);
        self.set_f(f1);
        self.set_sp(wadd(sp, off));
        Ok(2)
    }

    fn op_ld_a_io_u8(&mut self, mem: &mut Memory) -> (r: Result<u16, Fault>)
        requires
            cpu_wf(old(self)@),
            mem_wf(old(mem)@),
        ensures
            cpu_wf(final(self)@),
            mem_wf(final(mem)@),
            final(mem)@.cycles >= old(mem)@.cycles,
            fam_post(spec_ld_a_io_u8(old(self)@, old(mem)@), r, final(self)@, final(mem)@),
    {
        let off = match mem.read_word(wadd(self.pc(), 1)) {
            Ok(v) => v,
            Err(f) => {
                return Err(f);
            },
        };
        let v = match mem.read_word(0xFF00 + off as u16) {
            Ok(v) => v,
            Err(f) => {
                return Err(f);
            },
        };
        self.set_a(v);
        Ok(2)
    }

    fn op_ld_hl_sp_i8(&mut self, mem: &mut Memory) -> (r: Result<u16, Fault>)
        requires
            cpu_wf(old(self)@),
            mem_wf(old(mem)@),
        ensures
            cpu_wf(final(self)@),
            mem_wf(final(mem)@),
            final(mem)@.cycles >= old(mem)@.cycles,
            fam_post(spec_ld_hl_sp_i8(old(self)@, old(mem)@), r, final(self)@, final(mem)@),
    {
        let b = match mem.read_word(wadd(self.pc(), 1)) {
            Ok(v) => v,
            Err(f) => {
                return Err(f);
            },
        };
        let off = sext_of(b);
        let sp = self.sp();
        let f1 = pack_flags(false, false, sp % 16 + off % 16 > 15, sp % 256 + off % 256 > 255);
        self.set_f(f1);
        self.set_hl(wadd(sp, off));
        Ok(2)
    }

    fn op_pop_r16(&mut self, mem: &mut Memory) -> (r: Result<u16, Fault>)
        requires
            cpu_wf(old(self)@),
            mem_wf(old(mem)@),
        ensures
            cpu_wf(final(self)@),
            mem_wf(final(mem)@),
            final(mem)@.cycles >= old(mem)@.cycles,
            fam_post(spec_pop_r16(old(self)@, old(mem)@), r, final(self)@, final(mem)@),
    {
        let v = match self.pop(mem) {
            Ok(v) => v,
            Err(f) => {
                return Err(f);
            },
        };
        let sel = self.r16_sel();
        self.r16_3_put(sel, v);
        self.mask_f();
        Ok(1)
    }

    fn op_ret(&mut self, mem: &mut Memory) -> (r: Result<u16, Fault>)
        requires
            cpu_wf(old(self)@),
            mem_wf(old(mem)@),
        ensures
            cpu_wf(final(self)@),
            mem_wf(final(mem)@),
            final(mem)@.cycles >= old(mem)@.cycles,
            fam_post(spec_ret(old(self)@, old(mem)@), r, final(self)@, final(mem)@),
    {
        mem.tick();
        let dest = match self.pop(mem) {
            Ok(v) => v,
            Err(f) => {
                return Err(f);
            },
        };
        self.pc_jump(dest);
        Ok(0)
    }

    fn op_reti(&mut self, mem: &mut Memory) -> (r: Result<u16, Fault>)
        requires
            cpu_wf(old(self)@),
            mem_wf(old(mem)@),
        ensures
            cpu_wf(final(self)@),
            mem_wf(final(mem)@),
            final(mem)@.cycles >= old(mem)@.cycles,
            fam_post(spec_reti(old(self)@, old(mem)@), r, final(self)@, final(mem)@),
    {
        self.set_ime(true);
        mem.tick();
        let dest = match self.pop(mem) {
            Ok(v) => v,
            Err(f) => {
                return Err(f);
            },
        };
        self.pc_jump(dest);
        Ok(0)
    }

    fn op_jp_cond(&mut self, mem: &mut Memory) -> (r: Result<u16, Fault>)
        requires
            cpu_wf(old(self)@),
            mem_wf(old(mem)@),
        ensures
            cpu_wf(final(self)@),
            mem_wf(final(mem)@),
            final(mem)@.cycles >= old(mem)@.cycles,
            fam_post(spec_jp_cond(old(self)@, old(mem)@), r, final(self)@, final(mem)@),
    {
        let dest = match read16(mem, wadd(self.pc(), 1)) {
            Ok(v) => v,
            Err(f) => {
                return Err(f);
            },
        };
        if self.decode_condition() {
            mem.tick();
            self.pc_jump(dest);
            Ok(0)
        } else {
            Ok(3)
        }
    }

    fn op_ld_io_c_a(&mut self, mem: &mut Memory) -> (r: Result<u16, Fault>)
        requires
            cpu_wf(old(self)@),
            mem_wf(old(mem)@),
        ensures
            cpu_wf(final(self)@),
            mem_wf(final(mem)@),
            final(mem)@.cycles >= old(mem)@.cycles,
            fam_post(spec_ld_io_c_a(old(self)@, old(mem)@), r, final(self)@, final(mem)@),
    {
        let off = lo_of(self.bc());
        match mem.write_word(0xFF00 + off as u16, self.a()) {
            Ok(()) => {},
            Err(f) => {
                return Err(f);
            },
        }
        Ok(1)
    }

    fn op_ld_u16p_a(&mut self, mem: &mut Memory) -> (r: Result<u16, Fault>)
        requires
            cpu_wf(old(self)@),
            mem_wf(old(mem)@),
        ensures
            cpu_wf(final(self)@),
            mem_wf(final(mem)@),
            final(mem)@.cycles >= old(mem)@.cycles,
            fam_post(spec_ld_u16p_a(old(self)@, old(mem)@), r, final(self)@, final(mem)@),
    {
        let dest = match read16(mem, wadd(self.pc(), 1)) {
            Ok(v) => v,
            Err(f) => {
                return Err(f);
            },
        };
        match mem.write_word(dest, self.a()) {
            Ok(()) => {},
            Err(f) => {
                return Err(f);
            },
        }
        Ok(3)
    }

    fn op_ld_a_io_c(&mut self, mem: &mut Memory) -> (r: Result<u16, Fault>)
        requires
            cpu_wf(old(self)@),
            mem_wf(old(mem)@),
        ensures
            cpu_wf(final(self)@),
            mem_wf(final(mem)@),
            final(mem)@.cycles >= old(mem)@.cycles,
            fam_post(spec_ld_a_io_c(old(self)@, old(mem)@), r, final(self)@, final(mem)@),
    {
        let off = lo_of(self.bc());
        let v = match mem.read_word(0xFF00 + off as u16) {
            Ok(v) => v,
            Err(f) => {
                return Err(f);
            },
        };
        self.set_a(v);
        Ok(1)
    }

    fn op_ld_a_u16p(&mut self, mem: &mut Memory) -> (r: Result<u16, Fault>)
        requires
            cpu_wf(old(self)@),
            mem_wf(old(mem)@),
        ensures
            cpu_wf(final(self)@),
            mem_wf(final(mem)@),
            final(mem)@.cycles >= old(mem)@.cycles,
            fam_post(spec_ld_a_u16p(old(self)@, old(mem)@), r, final(self)@, final(mem)@),
    {
        let src = match read16(mem, wadd(self.pc(), 1)) {
            Ok(v) => v,
            Err(f) => {
                return Err(f);
            },
        };
        let v = match mem.read_word(src) {
            Ok(v) => v,
            Err(f) => {
                return Err(f);
            },
        };
        self.set_a(v);
        Ok(3)
    }

    fn op_jp_u16(&mut self, mem: &mut Memory) -> (r: Result<u16, Fault>)
        requires
            cpu_wf(old(self)@),
            mem_wf(old(mem)@),
        ensures
            cpu_wf(final(self)@),
            mem_wf(final(mem)@),
            final(mem)@.cycles >= old(mem)@.cycles,
            fam_post(spec_jp_u16(old(self)@, old(mem)@), r, final(self)@, final(mem)@),
    {
        mem.tick();
        let dest = match read16(mem, wadd(self.pc(), 1)) {
            Ok(v) => v,
            Err(f) => {
                return Err(f);
            },
        };
        self.pc_jump(dest);
        Ok(0)
    }

    fn op_cb(&mut self, mem: &mut Memory) -> (r: Result<u16, Fault>)
        requires
            cpu_wf(old(self)@),
            mem_wf(old(mem)@),
        ensures
            cpu_wf(final(self)@),
            mem_wf(final(mem)@),
            final(mem)@.cycles >= old(mem)@.cycles,
            fam_post(spec_cb(old(self)@, old(mem)@), r, final(self)@, final(mem)@),
    {
        self.pc_step(1);
        let op2 = match mem.read_word(self.pc()) {
            Ok(v) => v,
            Err(f) => {
                return Err(f);
            },
        };
        self.set_instr(op2);
        let bits = self.calc_high_bits();
        let src = self.low_r8_bits();
        let val = match self.r8_read(mem, src) {
            Ok(v) => v,
            Err(f) => {
                return Err(f);
            },
        };
        let hi2 = op2 / 16;
        if hi2 <= 3 {
            let rf = cb_rot_core(bits, val, self.f_byte());
            self.set_f(rf.1);
            match self.r8_write(mem, src, rf.0) {
                Ok(()) => {},
                Err(f) => {
                    return Err(f);
                },
            }
            Ok(1)
        } else if hi2 <= 7 {
            let cf = self.get_flag(Flag::C);
            let f1 = pack_flags(!bit_test(val, bits), false, true, cf);
            self.set_f(f1);
            Ok(1)
        } else if hi2 <= 0xB {
            match self.r8_write(mem, src, res_bit(val, bits)) {
                Ok(()) => {},
                Err(f) => {
                    return Err(f);
                },
            }
            Ok(1)
        } else {
            match self.r8_write(mem, src, set_bit(val, bits)) {
                Ok(()) => {},
                Err(f) => {
                    return Err(f);
                },
            }
            Ok(1)
        }
    }

    fn op_call_cond(&mut self, mem: &mut Memory) -> (r: Result<u16, Fault>)
        requires
            cpu_wf(old(self)@),
            mem_wf(old(mem)@),
        ensures
            cpu_wf(final(self)@),
            mem_wf(final(mem)@),
            final(mem)@.cycles >= old(mem)@.cycles,
            fam_post(spec_call_cond(old(self)@, old(mem)@), r, final(self)@, final(mem)@),
    {
        let dest = match read16(mem, wadd(self.pc(), 1)) {
            Ok(v) => v,
            Err(f) => {
                return Err(f);
            },
        };
        if self.decode_condition() {
            mem.tick();
            let ret_to = wadd(self.pc(), 3);
            match self.push(mem, ret_to) {
                Ok(()) => {},
                Err(f) => {
                    return Err(f);
                },
            }
            self.pc_jump(dest);
            Ok(0)
        } else {
            Ok(3)
        }
    }

    fn op_push_r16(&mut self, mem: &mut Memory) -> (r: Result<u16, Fault>)
        requires
            cpu_wf(old(self)@),
            mem_wf(old(mem)@),
        ensures
            cpu_wf(final(self)@),
            mem_wf(final(mem)@),
            final(mem)@.cycles >= old(mem)@.cycles,
            fam_post(spec_push_r16(old(self)@, old(mem)@), r, final(self)@, final(mem)@),
    {
        mem.tick();
        let sel = self.r16_sel();
        let v = self.r16_3_get(sel);
        match self.push(mem, v) {
            Ok(()) => {},
            Err(f) => {
                return Err(f);
            },
        }
        Ok(1)
    }

    fn op_call_u16(&mut self, mem: &mut Memory) -> (r: Result<u16, Fault>)
        requires
            cpu_wf(old(self)@),
            mem_wf(old(mem)@),
        ensures
            cpu_wf(final(self)@),
            mem_wf(final(mem)@),
            final(mem)@.cycles >= old(mem)@.cycles,
            fam_post(spec_call_u16(old(self)@, old(mem)@), r, final(self)@, final(mem)@),
    {
        let dest = match read16(mem, wadd(self.pc(), 1)) {
            Ok(v) => v,
            Err(f) => {
                return Err(f);
            },
        };
        mem.tick();
        let ret_to = wadd(self.pc(), 3);
        match self.push(mem, ret_to) {
            Ok(()) => {},
            Err(f) => {
                return Err(f);
            },
        }
        self.pc_jump(dest);
        Ok(0)
    }

    fn op_alu_a_u8(&mut self, mem: &mut Memory) -> (r: Result<u16, Fault>)
        requires
            cpu_wf(old(self)@),
            mem_wf(old(mem)@),
        ensures
            cpu_wf(final(self)@),
            mem_wf(final(mem)@),
            final(mem)@.cycles >= old(mem)@.cycles,
            fam_post(spec_alu_a_u8(old(self)@, old(mem)@), r, final(self)@, final(mem)@),
    {
        let rhs = match mem.read_word(wadd(self.pc(), 1)) {
            Ok(v) => v,
            Err(f) => {
                return Err(f);
            },
        };
        let kind = self.calc_high_bits();
        let rf = alu_core(kind, self.a(), self.f_byte(), rhs);
        self.set_af_word(rf.0, rf.1);
        Ok(2)
    }

    fn op_rst(&mut self, mem: &mut Memory) -> (r: Result<u16, Fault>)
        requires
            cpu_wf(old(self)@),
            mem_wf(old(mem)@),
        ensures
            cpu_wf(final(self)@),
            mem_wf(final(mem)@),
            final(mem)@.cycles >= old(mem)@.cycles,
            fam_post(spec_rst(old(self)@, old(mem)@), r, final(self)@, final(mem)@),
    {
        let bits = self.calc_high_bits();
        mem.tick();
        let ret_to = wadd(self.pc(), 1);
        match self.push(mem, ret_to) {
            Ok(()) => {},
            Err(f) => {
                return Err(f);
            },
        }
        self.pc_jump(bits as u16 * 8);
        Ok(0)
    }

    /// Executes one whole instruction against the bus, advancing the
    /// T-state counter through every byte access and internal delay. On a
    /// fault the machine stops where it stands; the fault is exactly the
    /// one the model names.
    pub fn step(&mut self, mem: &mut Memory) -> (r: Result<(), Fault>)
        requires
            cpu_wf(old(self)@),
            mem_wf(old(mem)@),
        ensures
            cpu_wf(final(self)@),
            mem_wf(final(mem)@),
            final(mem)@.cycles >= old(mem)@.cycles,
            match spec_step(old(self)@, old(mem)@) {
                Ok((c2, m2)) => r == Ok::<(), Fault>(()) && final(self)@ == c2 && final(mem)@
                    == m2,
                Err(f) => r == Err::<(), Fault>(f),
            },
    {
        proof {
            reveal(spec_step);
        }
        let op = match mem.read_word(self.pc()) {
            Ok(v) => v,
            Err(f) => {
                return Err(f);
            },
        };
        self.set_instr(op);
        let len: u16 = match decode(op / 16, op % 16) {
            Family::Nop => 1,
            Family::LdU16pSp => match self.op_ld_u16p_sp(mem) {
                Ok(l) => l,
                Err(f) => {
                    return Err(f);
                },
            },
            Family::Stop => 2,
            Family::Jr => match self.op_jr(mem) {
                Ok(l) => l,
                Err(f) => {
                    return Err(f);
                },
            },
            Family::JrCond => match self.op_jr_cond(mem) {
                Ok(l) => l,
                Err(f) => {
                    return Err(f);
                },
            },
            Family::LdR16U16 => match self.op_ld_r16_u16(mem) {
                Ok(l) => l,
                Err(f) => {
                    return Err(f);
                },
            },
            Family::AddHlR16 => match self.op_add_hl_r16(mem) {
                Ok(l) => l,
                Err(f) => {
                    return Err(f);
                },
            },
            Family::LdR16pA => match self.op_ld_r16p_a(mem) {
                Ok(l) => l,
                Err(f) => {
                    return Err(f);
                },
            },
            Family::LdAR16p => match self.op_ld_a_r16p(mem) {
                Ok(l) => l,
                Err(f) => {
                    return Err(f);
                },
            },
            Family::IncR16 => match self.op_inc_r16(mem) {
                Ok(l) => l,
                Err(f) => {
                    return Err(f);
                },
            },
            Family::DecR16 => match self.op_dec_r16(mem) {
                Ok(l) => l,
                Err(f) => {
                    return Err(f);
                },
            },
            Family::IncR8 => match self.op_inc_r8(mem) {
                Ok(l) => l,
                Err(f) => {
                    return Err(f);
                },
            },
            Family::DecR8 => match self.op_dec_r8(mem) {
                Ok(l) => l,
                Err(f) => {
                    return Err(f);
                },
            },
            Family::LdR8U8 => match self.op_ld_r8_u8(mem) {
                Ok(l) => l,
                Err(f) => {
                    return Err(f);
                },
            },
            Family::AfRow => {
                let bits = self.calc_high_bits();
                let rf = af_op_core(bits, self.a(), self.f_byte());
                self.set_af_word(rf.0, rf.1);
                1
            },
            Family::Halt => {
                return Err(Fault::UnimplementedOpcode { op });
            },
            Family::LdR8R8 => match self.op_ld_r8_r8(mem) {
                Ok(l) => l,
                Err(f) => {
                    return Err(f);
                },
            },
            Family::AluAR8 => match self.op_alu_a_r8(mem) {
                Ok(l) => l,
                Err(f) => {
                    return Err(f);
                },
            },
            Family::RetCond => match self.op_ret_cond(mem) {
                Ok(l) => l,
                Err(f) => {
                    return Err(f);
                },
            },
            Family::LdIoU8A => match self.op_ld_io_u8_a(mem) {
                Ok(l) => l,
                Err(f) => {
                    return Err(f);
                },
            },
            Family::AddSpI8 => match self.op_add_sp_i8(mem) {
                Ok(l) => l,
                Err(f) => {
                    return Err(f);
                },
            },
            Family::LdAIoU8 => match self.op_ld_a_io_u8(mem) {
                Ok(l) => l,
                Err(f) => {
                    return Err(f);
                },
            },
            Family::LdHlSpI8 => match self.op_ld_hl_sp_i8(mem) {
                Ok(l) => l,
                Err(f) => {
                    return Err(f);
                },
            },
            Family::PopR16 => match self.op_pop_r16(mem) {
                Ok(l) => l,
                Err(f) => {
                    return Err(f);
                },
            },
            Family::Ret => match self.op_ret(mem) {
                Ok(l) => l,
                Err(f) => {
                    return Err(f);
                },
            },
            Family::Reti => match self.op_reti(mem) {
                Ok(l) => l,
                Err(f) => {
                    return Err(f);
                },
            },
            Family::JpHl => {
                let dest = self.hl();
                self.pc_jump(dest);
                0
            },
            Family::LdSpHl => {
                mem.tick();
                let v = self.hl();
                self.set_sp(v);
                1
            },
            Family::JpCond => match self.op_jp_cond(mem) {
                Ok(l) => l,
                Err(f) => {
                    return Err(f);
                },
            },
            Family::LdIoCA => match self.op_ld_io_c_a(mem) {
                Ok(l) => l,
                Err(f) => {
                    return Err(f);
                },
            },
            Family::LdU16pA => match self.op_ld_u16p_a(mem) {
                Ok(l) => l,
                Err(f) => {
                    return Err(f);
                },
            },
            Family::LdAIoC => match self.op_ld_a_io_c(mem) {
                Ok(l) => l,
                Err(f) => {
                    return Err(f);
                },
            },
            Family::LdAU16p => match self.op_ld_a_u16p(mem) {
                Ok(l) => l,
                Err(f) => {
                    return Err(f);
                },
            },
            Family::JpU16 => match self.op_jp_u16(mem) {
                Ok(l) => l,
                Err(f) => {
                    return Err(f);
                },
            },
            Family::CbPrefix => match self.op_cb(mem) {
                Ok(l) => l,
                Err(f) => {
                    return Err(f);
                },
            },
            Family::Di => {
                self.set_ime(false);
                1
            },
            Family::Ei => {
                self.set_ime(true);
                1
            },
            Family::CallCond => match self.op_call_cond(mem) {
                Ok(l) => l,
                Err(f) => {
                    return Err(f);
                },
            },
            Family::PushR16 => match self.op_push_r16(mem) {
                Ok(l) => l,
                Err(f) => {
                    return Err(f);
                },
            },
            Family::CallU16 => match self.op_call_u16(mem) {
                Ok(l) => l,
                Err(f) => {
                    return Err(f);
                },
            },
            Family::AluAU8 => match self.op_alu_a_u8(mem) {
                Ok(l) => l,
                Err(f) => {
                    return Err(f);
                },
            },
            Family::Rst => match self.op_rst(mem) {
                Ok(l) => l,
                Err(f) => {
                    return Err(f);
                },
            },
            Family::Illegal => {
                return Err(Fault::UnimplementedOpcode { op });
            },
        };
        self.pc_step(len);
        Ok(())
    }

    fn op_ld_r8_r8(&mut self, mem: &mut Memory) -> (r: Result<u16, Fault>)
        requires
            cpu_wf(old(self)@),
            mem_wf(old(mem)@),
        ensures
            cpu_wf(final(self)@),
            mem_wf(final(mem)@),
            final(mem)@.cycles >= old(mem)@.cycles,
            fam_post(spec_ld_r8_r8(old(self)@, old(mem)@), r, final(self)@, final(mem)@),
    {
        let src = self.low_r8_bits();
        let v = match self.r8_read(mem, src) {
            Ok(v) => v,
            Err(f) => {
                return Err(f);
            },
        };
        let dst = self.calc_high_bits();
        match self.r8_write(mem, dst, v) {
            Ok(()) => {},
            Err(f) => {
                return Err(f);
            },
        }
        Ok(1)
    }

    fn op_alu_a_r8(&mut self, mem: &mut Memory) -> (r: Result<u16, Fault>)
        requires
            cpu_wf(old(self)@),
            mem_wf(old(mem)@),
        ensures
            cpu_wf(final(self)@),
            mem_wf(final(mem)@),
            final(mem)@.cycles >= old(mem)@.cycles,
            fam_post(spec_alu_a_r8(old(self)@, old(mem)@), r, final(self)@, final(mem)@),
    {
        let src = self.low_r8_bits();
        let rhs = match self.r8_read(mem, src) {
            Ok(v) => v,
            Err(f) => {
                return Err(f);
            },
        };
        let kind = self.calc_high_bits();
        let rf = alu_core(kind, self.a(), self.f_byte(), rhs);
        self.set_af_word(rf.0, rf.1);
        Ok(1)
    }
}

} // verus!
