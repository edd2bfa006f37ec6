use vstd::prelude::*;

verus! {

// The four condition flags live in the top nibble of F: Z (bit 7,
// result-is-zero), N (bit 6, last operation subtracted), H (bit 5,
// half-carry out of bit 3), C (bit 4, carry or borrow out of bit 7).
// The low nibble of F is always zero.

pub open spec fn flag_z(f: u8) -> bool {
    f / 128 % 2 == 1
}

pub open spec fn flag_n(f: u8) -> bool {
    f / 64 % 2 == 1
}

pub open spec fn flag_h(f: u8) -> bool {
    f / 32 % 2 == 1
}

pub open spec fn flag_c(f: u8) -> bool {
    f / 16 % 2 == 1
}

/// The flag byte with the given four flags and a zero low nibble.
pub open spec fn spec_flags(z: bool, n: bool, h: bool, c: bool) -> u8 {
    ((if z {
        128int
    } else {
        0int
    }) + (if n {
        64int
    } else {
        0int
    }) + (if h {
        32int
    } else {
        0int
    }) + (if c {
        16int
    } else {
        0int
    })) as u8
}

pub fn pack_flags(z: bool, n: bool, h: bool, c: bool) -> (r: u8)
    ensures
        r == spec_flags(z, n, h, c),
        r % 16 == 0,
{
    (if z {
        128u8
    } else {
        0u8
    }) + (if n {
        64u8
    } else {
        0u8
    }) + (if h {
        32u8
    } else {
        0u8
    }) + (if c {
        16u8
    } else {
        0u8
    })
}

/// The eight-bit accumulator operations, selected by the operation kind
/// (0 ADD, 1 ADC, 2 SUB, 3 SBC, 4 AND, 5 XOR, 6 OR, 7 CP): the new
/// accumulator and the new flag byte. Compare leaves the accumulator.
pub open spec fn spec_alu(kind: u8, a: u8, f: u8, rhs: u8) -> (u8, u8) {
    let cin: int = if flag_c(f) {
        1
    } else {
        0
    };
    if kind == 0 {
        let res = ((a + rhs) % 256) as u8;
        (res, spec_flags(res == 0, false, a % 16 + rhs % 16 > 15, a + rhs > 255))
    } else if kind == 1 {
        let res = ((a + rhs + cin) % 256) as u8;
        (res, spec_flags(res == 0, false, a % 16 + rhs % 16 + cin > 15, a + rhs + cin > 255))
    } else if kind == 2 {
        let res = ((a - rhs) % 256) as u8;
        (res, spec_flags(res == 0, true, a % 16 < rhs % 16, a < rhs))
    } else if kind == 3 {
        let res = ((a - rhs - cin) % 256) as u8;
        (res, spec_flags(res == 0, true, a % 16 < rhs % 16 + cin, a < rhs + cin))
    } else if kind == 4 {
        let res = a & rhs;
        (res, spec_flags(res == 0, false, true, false))
    } else if kind == 5 {
        let res = a ^ rhs;
        (res, spec_flags(res == 0, false, false, false))
    } else if kind == 6 {
        let res = a | rhs;
        (res, spec_flags(res == 0, false, false, false))
    } else if kind == 7 {
        let res = ((a - rhs) % 256) as u8;
        (a, spec_flags(res == 0, true, a % 16 < rhs % 16, a < rhs))
    } else {
        (a, f)
    }
}

/// Executes one accumulator operation against the current flag byte.
#[verifier::rlimit(40)]
pub fn alu_core(kind: u8, a: u8, f: u8, rhs: u8) -> (r: (u8, u8))
    requires
        kind < 8,
    ensures
        r == spec_alu(kind, a, f, rhs),
        r.1 % 16 == 0,
{
    let cin: u16 = if flag_c_of(f) {
        1
    } else {
        0
    };
    if kind == 0 {
        let sum: u16 = a as u16 + rhs as u16;
        let res: u8 = (sum % 256) as u8;
        (res, pack_flags(res == 0, false, a % 16 + rhs % 16 > 15, sum > 255))
    } else if kind == 1 {
        let sum: u16 = a as u16 + rhs as u16 + cin;
        let res: u8 = (sum % 256) as u8;
        (res, pack_flags(res == 0, false, (a % 16) as u16 + (rhs % 16) as u16 + cin > 15, sum > 255))
    } else if kind == 2 {
        let diff: u16 = (a as u16 + 256) - rhs as u16;
        let res: u8 = (diff % 256) as u8;
        proof {
            assert(diff % 256 == (a - rhs) % 256int);
        }
        (res, pack_flags(res == 0, true, a % 16 < rhs % 16, a < rhs))
    } else if kind == 3 {
        let diff: u16 = (a as u16 + 512) - rhs as u16 - cin;
        let res: u8 = (diff % 256) as u8;
        proof {
            assert(diff % 256 == (a - rhs - cin) % 256int);
        }
        (res, pack_flags(res == 0, true, ((a % 16) as u16) < (rhs % 16) as u16 + cin, (a as u16) < rhs as u16 + cin))
    } else if kind == 4 {
        let res = a & rhs;
        (res, pack_flags(res == 0, false, true, false))
    } else if kind == 5 {
        let res = a ^ rhs;
        (res, pack_flags(res == 0, false, false, false))
    } else if kind == 6 {
        let res = a | rhs;
        (res, pack_flags(res == 0, false, false, false))
    } else {
        let diff: u16 = (a as u16 + 256) - rhs as u16;
        let res: u8 = (diff % 256) as u8;
        proof {
            assert(diff % 256 == (a - rhs) % 256int);
        }
        (a, pack_flags(res == 0, true, a % 16 < rhs % 16, a < rhs))
    }
}

/// Reads the carry flag.
pub fn flag_c_of(f: u8) -> (r: bool)
    ensures
        r == flag_c(f),
{
    f / 16 % 2 == 1
}

/// The accumulator-and-flag row (opcodes 0x07 to 0x3F stepping by 8),
/// selected by its row index: 0 RLCA, 1 RRCA, 2 RLA, 3 RRA, 4 DAA, 5 CPL,
/// 6 SCF, 7 CCF. Returns the new accumulator and flag byte.
pub open spec fn spec_af_op(bits: u8, a: u8, f: u8) -> (u8, u8) {
    let cin: int = if flag_c(f) {
        1
    } else {
        0
    };
    if bits == 0 {
        (((2 * a + a / 128) % 256) as u8, spec_flags(false, false, false, a >= 128))
    } else if bits == 1 {
        ((a / 2 + (a % 2) * 128) as u8, spec_flags(false, false, false, a % 2 == 1))
    } else if bits == 2 {
        (((2 * a + cin) % 256) as u8, spec_flags(false, false, false, a >= 128))
    } else if bits == 3 {
        ((a / 2 + cin * 128) as u8, spec_flags(false, false, false, a % 2 == 1))
    } else if bits == 4 {
        let u: int = (if flag_h(f) || (!flag_n(f) && a % 16 > 9) {
            6int
        } else {
            0int
        }) + (if flag_c(f) || (!flag_n(f) && a > 0x99) {
            0x60int
        } else {
            0int
        });
        let res = (if flag_n(f) {
            (a - u) % 256
        } else {
            (a + u) % 256
        }) as u8;
        (res, spec_flags(res == 0, flag_n(f), false, flag_c(f) || (!flag_n(f) && a > 0x99)))
    } else if bits == 5 {
        ((255 - a) as u8, spec_flags(flag_z(f), true, true, flag_c(f)))
    } else if bits == 6 {
        (a, spec_flags(flag_z(f), false, false, true))
    } else if bits == 7 {
        (a, spec_flags(flag_z(f), false, false, !flag_c(f)))
    } else {
        (a, f)
    }
}

/// Executes one accumulator-and-flag row operation.
#[verifier::rlimit(40)]
pub fn af_op_core(bits: u8, a: u8, f: u8) -> (r: (u8, u8))
    requires
        bits < 8,
    ensures
        r == spec_af_op(bits, a, f),
        r.1 % 16 == 0,
{
    let cin: u16 = if flag_c_of(f) {
        1
    } else {
        0
    };
    if bits == 0 {
        ((((2 * a as u16) + a as u16 / 128) % 256) as u8, pack_flags(false, false, false, a >= 128))
    } else if bits == 1 {
        (a / 2 + (a % 2) * 128, pack_flags(false, false, false, a % 2 == 1))
    } else if bits == 2 {
        ((((2 * a as u16) + cin) % 256) as u8, pack_flags(false, false, false, a >= 128))
    } else if bits == 3 {
        (a / 2 + (cin as u8) * 128, pack_flags(false, false, false, a % 2 == 1))
    } else if bits == 4 {
        let n = flag_n_of(f);
        let half = flag_h_of(f) || (!n && a % 16 > 9);
        let carry = flag_c_of(f) || (!n && a > 0x99);
        let u: u16 = (if half {
            6u16
        } else {
            0u16
        }) + (if carry {
            0x60u16
        } else {
            0u16
        });
        let res: u8 = if n {
            let d: u16 = (a as u16 + 256) - u;
            proof {
                assert(d % 256 == (a - u) % 256int);
            }
            (d % 256) as u8
        } else {
            ((a as u16 + u) % 256) as u8
        };
        (res, pack_flags(res == 0, n, false, carry))
    } else if bits == 5 {
        (255 - a, pack_flags(flag_z_of(f), true, true, flag_c_of(f)))
    } else if bits == 6 {
        (a, pack_flags(flag_z_of(f), false, false, true))
    } else {
        (a, pack_flags(flag_z_of(f), false, false, !flag_c_of(f)))
    }
}

/// Reads the zero flag.
pub fn flag_z_of(f: u8) -> (r: bool)
    ensures
        r == flag_z(f),
{
    f / 128 % 2 == 1
}

/// Reads the subtract flag.
pub fn flag_n_of(f: u8) -> (r: bool)
    ensures
        r == flag_n(f),
{
    f / 64 % 2 == 1
}

/// Reads the half-carry flag.
pub fn flag_h_of(f: u8) -> (r: bool)
    ensures
        r == flag_h(f),
{
    f / 32 % 2 == 1
}

/// The prefixed rotate/shift/swap family, selected by its row index:
/// 0 RLC, 1 RRC, 2 RL, 3 RR, 4 SLA, 5 SRA, 6 SWAP, 7 SRL. Returns the new
/// value and flag byte; Z reflects the result, N and H clear.
pub open spec fn spec_cb_rot(bits: u8, val: u8, f: u8) -> (u8, u8) {
    let cin: int = if flag_c(f) {
        1
    } else {
        0
    };
    let res: u8 = if bits == 0 {
        ((2 * val + val / 128) % 256) as u8
    } else if bits == 1 {
        (val / 2 + (val % 2) * 128) as u8
    } else if bits == 2 {
        ((2 * val + cin) % 256) as u8
    } else if bits == 3 {
        (val / 2 + cin * 128) as u8
    } else if bits == 4 {
        ((2 * val) % 256) as u8
    } else if bits == 5 {
        (val / 2 + (if val >= 128 {
            128int
        } else {
            0int
        })) as u8
    } else if bits == 6 {
        (val / 16 + (val % 16) * 16) as u8
    } else {
        val / 2
    };
    let c: bool = if bits == 6 {
        false
    } else if bits % 2 == 0 {
        val >= 128
    } else {
        val % 2 == 1
    };
    (res, spec_flags(res == 0, false, false, c))
}

/// Executes one prefixed rotate/shift/swap operation.
#[verifier::rlimit(40)]
pub fn cb_rot_core(bits: u8, val: u8, f: u8) -> (r: (u8, u8))
    requires
        bits < 8,
    ensures
        r == spec_cb_rot(bits, val, f),
        r.1 % 16 == 0,
{
    let cin: u16 = if flag_c_of(f) {
        1
    } else {
        0
    };
    let res: u8 = if bits == 0 {
        (((2 * val as u16) + val as u16 / 128) % 256) as u8
    } else if bits == 1 {
        val / 2 + (val % 2) * 128
    } else if bits == 2 {
        (((2 * val as u16) + cin) % 256) as u8
    } else if bits == 3 {
        val / 2 + (cin as u8) * 128
    } else if bits == 4 {
        (((2 * val as u16)) % 256) as u8
    } else if bits == 5 {
        val / 2 + (if val >= 128 {
            128u8
        } else {
            0u8
        })
    } else if bits == 6 {
        val / 16 + (val % 16) * 16
    } else {
        val / 2
    };
    let c: bool = if bits == 6 {
        false
    } else if bits % 2 == 0 {
        val >= 128
    } else {
        val % 2 == 1
    };
    (res, pack_flags(res == 0, false, false, c))
}

/// The power of two a bit index names.
pub open spec fn pow2(b: u8) -> u8 {
    if b == 0 {
        1
    } else if b == 1 {
        2
    } else if b == 2 {
        4
    } else if b == 3 {
        8
    } else if b == 4 {
        16
    } else if b == 5 {
        32
    } else if b == 6 {
        64
    } else {
        128
    }
}

/// Whether bit `b` of `v` is one.
pub open spec fn bit_set(v: u8, b: u8) -> bool {
    v / pow2(b) % 2 == 1
}

/// `v` with bit `b` cleared.
pub open spec fn spec_res_bit(v: u8, b: u8) -> u8 {
    if bit_set(v, b) {
        (v - pow2(b)) as u8
    } else {
        v
    }
}

/// `v` with bit `b` set.
pub open spec fn spec_set_bit(v: u8, b: u8) -> u8 {
    if bit_set(v, b) {
        v
    } else {
        (v + pow2(b)) as u8
    }
}

/// A bit that is clear leaves room for its power of two.
proof fn lemma_clear_bit_bound(v: u8, b: u8)
    requires
        b < 8,
        !bit_set(v, b),
    ensures
        v + pow2(b) < 256,
{
    let p = pow2(b) as int;
    assert(v as int / p % 2 == 0);
    assert(v < 2 * p * (v as int / (2 * p)) + 2 * p) by {
        vstd::arithmetic::div_mod::lemma_fundamental_div_mod(v as int, 2 * p);
    };
    assert(v as int / (2 * p) == v as int / p / 2) by {
        vstd::arithmetic::div_mod::lemma_div_denominator(v as int, p, 2);
    };
    assert(v + p < 256) by {
        vstd::arithmetic::div_mod::lemma_fundamental_div_mod(v as int, p);
    };
}

/// Tests bit `b` of `v`.
pub fn bit_test(v: u8, b: u8) -> (r: bool)
    requires
        b < 8,
    ensures
        r == bit_set(v, b),
{
    let p = pow2_of(b);
    v / p % 2 == 1
}

/// Clears bit `b` of `v`.
pub fn res_bit(v: u8, b: u8) -> (r: u8)
    requires
        b < 8,
    ensures
        r == spec_res_bit(v, b),
{
    let p = pow2_of(b);
    if v / p % 2 == 1 {
        v - p
    } else {
        v
    }
}

/// Sets bit `b` of `v`.
pub fn set_bit(v: u8, b: u8) -> (r: u8)
    requires
        b < 8,
    ensures
        r == spec_set_bit(v, b),
{
    let p = pow2_of(b);
    if v / p % 2 == 1 {
        v
    } else {
        proof {
            lemma_clear_bit_bound(v, b);
        }
        v + p
    }
}

/// The power of two a bit index names.
pub fn pow2_of(b: u8) -> (r: u8)
    requires
        b < 8,
    ensures
        r == pow2(b),
        r >= 1,
{
    if b == 0 {
        1
    } else if b == 1 {
        2
    } else if b == 2 {
        4
    } else if b == 3 {
        8
    } else if b == 4 {
        16
    } else if b == 5 {
        32
    } else if b == 6 {
        64
    } else {
        128
    }
}

/// Rotating the accumulator left and then right returns it unchanged, and
/// the carry after the pair is the top bit of the original accumulator
/// (which the left rotation moved into bit zero). For an accumulator whose
/// top and bottom bits agree, that carry also equals the original bit
/// zero.
pub proof fn lemma_rlca_rrca(a: u8, f: u8)
    ensures
        spec_af_op(1, spec_af_op(0, a, f).0, spec_af_op(0, a, f).1).0 == a,
        flag_c(spec_af_op(1, spec_af_op(0, a, f).0, spec_af_op(0, a, f).1).1) == (a >= 128),
        a / 128 == a % 2 ==> flag_c(
            spec_af_op(1, spec_af_op(0, a, f).0, spec_af_op(0, a, f).1).1,
        ) == (a % 2 == 1),
{
    let h = a as int / 128;
    let l = a as int % 128;
    assert(2 * a + a / 128 == 256 * h + (2 * l + h));
    assert((2 * a + a / 128) % 256 == 2 * l + h) by {
        vstd::arithmetic::div_mod::lemma_mod_multiples_vanish(h, 2 * l + h, 256);
    };
    let a1 = spec_af_op(0, a, f).0;
    assert(a1 == 2 * l + h);
    assert(a1 / 2 == l && a1 % 2 == h);
}

/// Swapping the nibbles twice returns the value unchanged, and the zero
/// flag after each swap reflects whether the value is zero.
pub proof fn lemma_swap_twice(v: u8, f: u8)
    ensures
        spec_cb_rot(6, spec_cb_rot(6, v, f).0, spec_cb_rot(6, v, f).1).0 == v,
        flag_z(spec_cb_rot(6, v, f).1) == (v == 0),
        flag_z(spec_cb_rot(6, spec_cb_rot(6, v, f).0, spec_cb_rot(6, v, f).1).1) == (v == 0),
{
    let q = v as int / 16;
    let r = v as int % 16;
    let v1 = spec_cb_rot(6, v, f).0;
    assert(v1 == q + r * 16);
    assert(v1 as int / 16 == r && v1 as int % 16 == q) by {
        vstd::arithmetic::div_mod::lemma_fundamental_div_mod_converse(v1 as int, 16, r, q);
    };
}

} // verus!
