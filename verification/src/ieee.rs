//! Truncating conversion from IEEE 754 bit patterns to integers.
//!
//! Codecs that emit floating-point samples hand their values to the
//! pipeline as raw bit patterns (single precision in a `u32`, double
//! precision in a `u64`). The functions here normalize such a pattern to
//! an output integer under raw-cast semantics: truncation toward zero,
//! saturation at the bounds of the output type, and zero for NaN — the
//! behaviour of an `as` cast, with no amplitude rescaling.

use vstd::prelude::*;
use vstd::arithmetic::power2::pow2;
use vstd::arithmetic::power2::lemma_pow2_pos;
use vstd::arithmetic::power2::lemma_pow2_adds;
use vstd::arithmetic::power2::lemma_pow2_subtracts;
use vstd::arithmetic::power2::lemma_pow2_strictly_increases;
use vstd::arithmetic::power2::lemma_pow2_unfold;
use vstd::arithmetic::power2::lemma2_to64;
use vstd::arithmetic::power2::lemma2_to64_rest;
use vstd::arithmetic::div_mod::lemma_fundamental_div_mod;
use vstd::arithmetic::div_mod::lemma_div_is_ordered;
use vstd::arithmetic::div_mod::lemma_div_is_ordered_by_denominator;
use vstd::arithmetic::div_mod::lemma_div_basics_2;

verus! {

/// 2 to the power `e`, as a machine integer.
pub fn pow2_u64(e: u32) -> (r: u64)
    requires
        e < 64,
    ensures
        r as nat == pow2(e as nat),
        r >= 1,
{
    proof {
        lemma2_to64();
    }
    let mut r: u64 = 1;
    let mut i: u32 = 0;
    while i < e
        invariant
            i <= e < 64,
            r as nat == pow2(i as nat),
        decreases e - i,
    {
        proof {
            lemma_pow2_unfold((i + 1) as nat);
            lemma_pow2_strictly_increases((i + 1) as nat, 64);
            lemma2_to64_rest();
        }
        r = r * 2;
        i = i + 1;
    }
    proof {
        lemma_pow2_pos(e as nat);
    }
    r
}

// --- Field extraction, single precision: 1 sign bit, 8 exponent bits
// --- (bias 127), 23 fraction bits.

pub open spec fn fp32_neg(bits: u32) -> bool {
    bits as int / 0x8000_0000 == 1
}

pub open spec fn fp32_exp(bits: u32) -> int {
    (bits as int / 0x0080_0000) % 0x100
}

pub open spec fn fp32_frac(bits: u32) -> int {
    bits as int % 0x0080_0000
}

pub open spec fn fp32_is_nan(bits: u32) -> bool {
    fp32_exp(bits) == 255 && fp32_frac(bits) != 0
}

pub open spec fn fp32_is_inf(bits: u32) -> bool {
    fp32_exp(bits) == 255 && fp32_frac(bits) == 0
}

/// The magnitude of a finite single-precision value, truncated toward
/// zero. A normal value is `(2^23 + frac) * 2^(exp - 150)`; an exponent
/// below the bias (subnormals included) has magnitude below one, hence
/// truncates to zero.
pub open spec fn fp32_trunc_mag(bits: u32) -> int {
    let e = fp32_exp(bits);
    let f = fp32_frac(bits);
    if e < 127 {
        0
    } else if e <= 150 {
        (0x0080_0000 + f) / (pow2((150 - e) as nat) as int)
    } else {
        (0x0080_0000 + f) * (pow2((e - 150) as nat) as int)
    }
}

/// The signed value of a finite pattern, truncated toward zero.
pub open spec fn fp32_trunc_val(bits: u32) -> int {
    if fp32_neg(bits) {
        -fp32_trunc_mag(bits)
    } else {
        fp32_trunc_mag(bits)
    }
}

// --- Field extraction, double precision: 1 sign bit, 11 exponent bits
// --- (bias 1023), 52 fraction bits.

pub open spec fn fp64_neg(bits: u64) -> bool {
    bits as int / 0x8000_0000_0000_0000 == 1
}

pub open spec fn fp64_exp(bits: u64) -> int {
    (bits as int / 0x0010_0000_0000_0000) % 0x800
}

pub open spec fn fp64_frac(bits: u64) -> int {
    bits as int % 0x0010_0000_0000_0000
}

pub open spec fn fp64_is_nan(bits: u64) -> bool {
    fp64_exp(bits) == 2047 && fp64_frac(bits) != 0
}

pub open spec fn fp64_is_inf(bits: u64) -> bool {
    fp64_exp(bits) == 2047 && fp64_frac(bits) == 0
}

/// The magnitude of a finite double-precision value, truncated toward
/// zero: `(2^52 + frac) * 2^(exp - 1075)` for normal values.
pub open spec fn fp64_trunc_mag(bits: u64) -> int {
    let e = fp64_exp(bits);
    let f = fp64_frac(bits);
    if e < 1023 {
        0
    } else if e <= 1075 {
        (0x0010_0000_0000_0000 + f) / (pow2((1075 - e) as nat) as int)
    } else {
        (0x0010_0000_0000_0000 + f) * (pow2((e - 1075) as nat) as int)
    }
}

/// The signed value of a finite pattern, truncated toward zero.
pub open spec fn fp64_trunc_val(bits: u64) -> int {
    if fp64_neg(bits) {
        -fp64_trunc_mag(bits)
    } else {
        fp64_trunc_mag(bits)
    }
}

// --- Saturation to the output type.

pub open spec fn clamp_to_i32(v: int) -> i32 {
    if v > i32::MAX {
        i32::MAX
    } else if v < i32::MIN {
        i32::MIN
    } else {
        v as i32
    }
}

pub open spec fn clamp_to_i16(v: int) -> i16 {
    if v > i16::MAX {
        i16::MAX
    } else if v < i16::MIN {
        i16::MIN
    } else {
        v as i16
    }
}

/// What a single-precision pattern yields as an `i32` under raw-cast
/// semantics: zero for NaN, the saturated bound for an infinity, and the
/// value truncated toward zero and clamped otherwise.
pub open spec fn fp32_to_i32_spec(bits: u32) -> i32 {
    if fp32_is_nan(bits) {
        0
    } else if fp32_is_inf(bits) {
        if fp32_neg(bits) {
            i32::MIN
        } else {
            i32::MAX
        }
    } else {
        clamp_to_i32(fp32_trunc_val(bits))
    }
}

pub open spec fn fp32_to_i16_spec(bits: u32) -> i16 {
    if fp32_is_nan(bits) {
        0
    } else if fp32_is_inf(bits) {
        if fp32_neg(bits) {
            i16::MIN
        } else {
            i16::MAX
        }
    } else {
        clamp_to_i16(fp32_trunc_val(bits))
    }
}

pub open spec fn fp64_to_i32_spec(bits: u64) -> i32 {
    if fp64_is_nan(bits) {
        0
    } else if fp64_is_inf(bits) {
        if fp64_neg(bits) {
            i32::MIN
        } else {
            i32::MAX
        }
    } else {
        clamp_to_i32(fp64_trunc_val(bits))
    }
}

pub open spec fn fp64_to_i16_spec(bits: u64) -> i16 {
    if fp64_is_nan(bits) {
        0
    } else if fp64_is_inf(bits) {
        if fp64_neg(bits) {
            i16::MIN
        } else {
            i16::MAX
        }
    } else {
        clamp_to_i16(fp64_trunc_val(bits))
    }
}

/// The truncated magnitude of a finite single-precision pattern, capped
/// at `2^31`; every output type saturates at or below that bound.
fn fp32_trunc_mag_sat(bits: u32) -> (mag: u64)
    requires
        fp32_exp(bits) != 255,
    ensures
        fp32_trunc_mag(bits) >= 0x8000_0000 ==> mag == 0x8000_0000,
        fp32_trunc_mag(bits) < 0x8000_0000 ==> mag == fp32_trunc_mag(bits),
        mag <= 0x8000_0000,
{
    let e: u32 = (bits / 0x0080_0000) % 0x100;
    let f: u32 = bits % 0x0080_0000;
    proof {
        assert(e == fp32_exp(bits));
        assert(f == fp32_frac(bits));
    }
    if e < 127 {
        0
    } else if e >= 158 {
        proof {
            let p = pow2((e - 150) as nat) as int;
            lemma2_to64();
            if e > 158 {
                lemma_pow2_strictly_increases(8, (e - 150) as nat);
            }
            assert(p >= 256);
            assert((0x0080_0000 + fp32_frac(bits)) * p >= 0x8000_0000) by (nonlinear_arith)
                requires
                    p >= 256,
                    fp32_frac(bits) >= 0,
            ;
        }
        0x8000_0000
    } else {
        let m: u64 = 0x0080_0000u64 + f as u64;
        if e <= 150 {
            let d: u64 = pow2_u64(150 - e);
            let mag: u64 = m / d;
            proof {
                lemma_div_is_ordered_by_denominator(m as int, 1, d as int);
                lemma_div_basics_2(m as int);
            }
            mag
        } else {
            let d: u64 = pow2_u64(e - 150);
            proof {
                lemma2_to64();
                if e - 150 < 7 {
                    lemma_pow2_strictly_increases((e - 150) as nat, 7);
                }
                assert(d <= 128);
                assert((m as int) * (d as int) <= 0x0080_0000 * 0x80 * 2) by (nonlinear_arith)
                    requires
                        0 <= (m as int) <= 0x0100_0000,
                        0 <= (d as int) <= 0x80,
                ;
            }
            m * d
        }
    }
}

/// The truncated magnitude of a finite double-precision pattern, capped
/// at `2^31`.
fn fp64_trunc_mag_sat(bits: u64) -> (mag: u64)
    requires
        fp64_exp(bits) != 2047,
    ensures
        fp64_trunc_mag(bits) >= 0x8000_0000 ==> mag == 0x8000_0000,
        fp64_trunc_mag(bits) < 0x8000_0000 ==> mag == fp64_trunc_mag(bits),
        mag <= 0x8000_0000,
{
    let e64: u64 = (bits / 0x0010_0000_0000_0000) % 0x800;
    let e: u32 = e64 as u32;
    let f: u64 = bits % 0x0010_0000_0000_0000;
    proof {
        assert(e == fp64_exp(bits));
        assert(f == fp64_frac(bits));
    }
    if e < 1023 {
        0
    } else if e >= 1054 {
        proof {
            let ei = e as int;
            let fi = fp64_frac(bits);
            if ei <= 1075 {
                let sh = (1075 - ei) as nat;
                let p = pow2(sh) as int;
                lemma_pow2_pos(sh);
                lemma_div_is_ordered(0x0010_0000_0000_0000, 0x0010_0000_0000_0000 + fi, p);
                lemma_pow2_subtracts(sh, 52);
                lemma2_to64();
                lemma2_to64_rest();
                assert(pow2(52) == 0x0010_0000_0000_0000);
                // 2^52 / 2^(1075-e) == 2^(e - 1023) >= 2^31
                if ei - 1023 > 31 {
                    lemma_pow2_strictly_increases(31, (ei - 1023) as nat);
                }
                assert(pow2((ei - 1023) as nat) >= 0x8000_0000);
                assert((52 - (1075 - ei)) == ei - 1023);
                assert(0x0010_0000_0000_0000int / p >= 0x8000_0000);
            } else {
                let p = pow2((ei - 1075) as nat) as int;
                lemma_pow2_pos((ei - 1075) as nat);
                assert((0x0010_0000_0000_0000 + fi) * p >= 0x8000_0000) by (nonlinear_arith)
                    requires
                        p >= 1,
                        fi >= 0,
                ;
            }
        }
        0x8000_0000
    } else {
        let m: u64 = 0x0010_0000_0000_0000u64 + f;
        let d: u64 = pow2_u64(1075 - e);
        let mag: u64 = m / d;
        proof {
            // d == pow2(1075 - e) >= pow2(22), so mag * d <= m < 2^53
            // keeps mag below 2^31.
            if 1075 - e > 22 {
                lemma_pow2_strictly_increases(22, (1075 - e) as nat);
            }
            lemma2_to64();
            assert(pow2(22) == 0x40_0000);
            assert(d >= 0x40_0000);
            lemma_fundamental_div_mod(m as int, d as int);
            assert(d as int * (m as int / d as int) <= m as int);
            assert(mag < 0x8000_0000) by (nonlinear_arith)
                requires
                    (d as int) * (mag as int) <= (m as int),
                    (m as int) < 0x0020_0000_0000_0000,
                    (d as int) >= 0x40_0000,
                    (mag as int) >= 0,
            ;
        }
        mag
    }
}

/// Normalize a single-precision IEEE 754 bit pattern to `i32`:
/// truncation toward zero, saturation at the type bounds, zero for NaN.
pub fn fp32_bits_to_i32(bits: u32) -> (r: i32)
    ensures
        r == fp32_to_i32_spec(bits),
{
    let e: u32 = (bits / 0x0080_0000) % 0x100;
    let f: u32 = bits % 0x0080_0000;
    let neg: bool = bits >= 0x8000_0000;
    proof {
        lemma_fundamental_div_mod(bits as int, 0x8000_0000);
        assert(neg == fp32_neg(bits));
    }
    if e == 255 {
        if f != 0 {
            0
        } else if neg {
            i32::MIN
        } else {
            i32::MAX
        }
    } else {
        let mag: u64 = fp32_trunc_mag_sat(bits);
        if neg {
            if mag >= 0x8000_0000 {
                i32::MIN
            } else {
                let v: i64 = -(mag as i64);
                v as i32
            }
        } else {
            if mag >= 0x8000_0000 {
                i32::MAX
            } else {
                mag as i32
            }
        }
    }
}

/// Normalize a single-precision IEEE 754 bit pattern to `i16`.
pub fn fp32_bits_to_i16(bits: u32) -> (r: i16)
    ensures
        r == fp32_to_i16_spec(bits),
{
    let e: u32 = (bits / 0x0080_0000) % 0x100;
    let f: u32 = bits % 0x0080_0000;
    let neg: bool = bits >= 0x8000_0000;
    proof {
        lemma_fundamental_div_mod(bits as int, 0x8000_0000);
        assert(neg == fp32_neg(bits));
    }
    if e == 255 {
        if f != 0 {
            0
        } else if neg {
            i16::MIN
        } else {
            i16::MAX
        }
    } else {
        let mag: u64 = fp32_trunc_mag_sat(bits);
        if neg {
            if mag >= 0x8000 {
                i16::MIN
            } else {
                let v: i32 = -(mag as i32);
                v as i16
            }
        } else {
            if mag >= 0x8000 {
                i16::MAX
            } else {
                mag as i16
            }
        }
    }
}

/// Normalize a double-precision IEEE 754 bit pattern to `i32`.
pub fn fp64_bits_to_i32(bits: u64) -> (r: i32)
    ensures
        r == fp64_to_i32_spec(bits),
{
    let e: u64 = (bits / 0x0010_0000_0000_0000) % 0x800;
    let f: u64 = bits % 0x0010_0000_0000_0000;
    let neg: bool = bits >= 0x8000_0000_0000_0000;
    proof {
        lemma_fundamental_div_mod(bits as int, 0x8000_0000_0000_0000);
        assert(neg == fp64_neg(bits));
    }
    if e == 2047 {
        if f != 0 {
            0
        } else if neg {
            i32::MIN
        } else {
            i32::MAX
        }
    } else {
        let mag: u64 = fp64_trunc_mag_sat(bits);
        if neg {
            if mag >= 0x8000_0000 {
                i32::MIN
            } else {
                let v: i64 = -(mag as i64);
                v as i32
            }
        } else {
            if mag >= 0x8000_0000 {
                i32::MAX
            } else {
                mag as i32
            }
        }
    }
}

/// Normalize a double-precision IEEE 754 bit pattern to `i16`.
pub fn fp64_bits_to_i16(bits: u64) -> (r: i16)
    ensures
        r == fp64_to_i16_spec(bits),
{
    let e: u64 = (bits / 0x0010_0000_0000_0000) % 0x800;
    let f: u64 = bits % 0x0010_0000_0000_0000;
    let neg: bool = bits >= 0x8000_0000_0000_0000;
    proof {
        lemma_fundamental_div_mod(bits as int, 0x8000_0000_0000_0000);
        assert(neg == fp64_neg(bits));
    }
    if e == 2047 {
        if f != 0 {
            0
        } else if neg {
            i16::MIN
        } else {
            i16::MAX
        }
    } else {
        let mag: u64 = fp64_trunc_mag_sat(bits);
        if neg {
            if mag >= 0x8000 {
                i16::MIN
            } else {
                let v: i32 = -(mag as i32);
                v as i16
            }
        } else {
            if mag >= 0x8000 {
                i16::MAX
            } else {
                mag as i16
            }
        }
    }
}

} // verus!
