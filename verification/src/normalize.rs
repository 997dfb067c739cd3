//! The sample normalizer: one conversion per native layout into the
//! chosen output type.
//!
//! Conversions are representation-preserving, not loudness-normalizing:
//! integer-to-integer conversions widen or truncate by direct numeric
//! cast (two's-complement wrap, no rescaling), and floating-point inputs
//! are truncated toward zero with saturation, exactly as a raw `as` cast
//! would. Callers that need amplitude-normalized output must rescale
//! downstream.

use vstd::prelude::*;
use vstd::arithmetic::div_mod::lemma_small_mod;
use vstd::arithmetic::div_mod::lemma_mod_multiples_vanish;
use crate::ieee::fp32_to_i16_spec;
use crate::ieee::fp32_to_i32_spec;
use crate::ieee::fp64_to_i16_spec;
use crate::ieee::fp64_to_i32_spec;
use crate::ieee::fp32_bits_to_i16;
use crate::ieee::fp32_bits_to_i32;
use crate::ieee::fp64_bits_to_i16;
use crate::ieee::fp64_bits_to_i32;
use crate::sample::NativeVal;

verus! {

/// The value `v` reduced into the range of `i16` by two's-complement
/// wrap-around: what a raw integer cast keeps of the low 16 bits.
pub open spec fn wrap_to_i16(v: int) -> i16 {
    let m = v % 0x1_0000;
    if m < 0x8000 {
        m as i16
    } else {
        (m - 0x1_0000) as i16
    }
}

/// The value `v` reduced into the range of `i32` by two's-complement
/// wrap-around.
pub open spec fn wrap_to_i32(v: int) -> i32 {
    let m = v % 0x1_0000_0000;
    if m < 0x8000_0000 {
        m as i32
    } else {
        (m - 0x1_0000_0000) as i32
    }
}

/// Wrap a `u16` into `i16`, as the raw cast does.
pub fn u16_wrap_to_i16(x: u16) -> (r: i16)
    ensures
        r == wrap_to_i16(x as int),
{
    proof {
        lemma_small_mod(x as nat, 0x1_0000);
    }
    if x < 0x8000 {
        x as i16
    } else {
        let v: i32 = x as i32 - 0x1_0000;
        v as i16
    }
}

/// Wrap a `u32` into `i16`: only the low 16 bits survive.
pub fn u32_wrap_to_i16(x: u32) -> (r: i16)
    ensures
        r == wrap_to_i16(x as int),
{
    let low: u32 = x % 0x1_0000;
    proof {
        lemma_small_mod(low as nat, 0x1_0000);
    }
    let low16: u16 = low as u16;
    u16_wrap_to_i16(low16)
}

/// Wrap an `i32` into `i16`: only the low 16 bits survive.
pub fn i32_wrap_to_i16(x: i32) -> (r: i16)
    ensures
        r == wrap_to_i16(x as int),
{
    let ux: u32 = if x >= 0 {
        x as u32
    } else {
        let shifted: i64 = x as i64 + 0x1_0000_0000i64;
        shifted as u32
    };
    proof {
        // Adding 2^32 = 0x1_0000 * 0x1_0000 does not change the value
        // modulo 2^16.
        lemma_mod_multiples_vanish(0x1_0000, x as int, 0x1_0000);
        assert(ux as int % 0x1_0000 == x as int % 0x1_0000);
    }
    u32_wrap_to_i16(ux)
}

/// Wrap a `u32` into `i32`, as the raw cast does.
pub fn u32_wrap_to_i32(x: u32) -> (r: i32)
    ensures
        r == wrap_to_i32(x as int),
{
    proof {
        lemma_small_mod(x as nat, 0x1_0000_0000);
    }
    if x < 0x8000_0000 {
        x as i32
    } else {
        let v: i64 = x as i64 - 0x1_0000_0000i64;
        v as i32
    }
}

/// The capability each output numeric type implements once: a pure,
/// total conversion from every supported native sample representation.
pub trait OutputSample: Sized + Copy {
    /// What the conversion returns, as a mathematical function.
    spec fn from_native_spec(v: NativeVal) -> Self;

    /// Convert one native sample value; pure and panic-free for every
    /// input.
    fn from_native(v: NativeVal) -> (r: Self)
        ensures
            r == Self::from_native_spec(v),
    ;
}

impl OutputSample for i16 {
    open spec fn from_native_spec(v: NativeVal) -> i16 {
        match v {
            NativeVal::U8(x) => x as i16,
            NativeVal::U16(x) => wrap_to_i16(x as int),
            NativeVal::U32(x) => wrap_to_i16(x as int),
            NativeVal::S8(x) => x as i16,
            NativeVal::S16(x) => x,
            NativeVal::S32(x) => wrap_to_i16(x as int),
            NativeVal::Fp32Bits(b) => fp32_to_i16_spec(b),
            NativeVal::Fp64Bits(b) => fp64_to_i16_spec(b),
        }
    }

    fn from_native(v: NativeVal) -> (r: i16) {
        match v {
            NativeVal::U8(x) => x as i16,
            NativeVal::U16(x) => u16_wrap_to_i16(x),
            NativeVal::U32(x) => u32_wrap_to_i16(x),
            NativeVal::S8(x) => x as i16,
            NativeVal::S16(x) => x,
            NativeVal::S32(x) => i32_wrap_to_i16(x),
            NativeVal::Fp32Bits(b) => fp32_bits_to_i16(b),
            NativeVal::Fp64Bits(b) => fp64_bits_to_i16(b),
        }
    }
}

impl OutputSample for i32 {
    open spec fn from_native_spec(v: NativeVal) -> i32 {
        match v {
            NativeVal::U8(x) => x as i32,
            NativeVal::U16(x) => x as i32,
            NativeVal::U32(x) => wrap_to_i32(x as int),
            NativeVal::S8(x) => x as i32,
            NativeVal::S16(x) => x as i32,
            NativeVal::S32(x) => x,
            NativeVal::Fp32Bits(b) => fp32_to_i32_spec(b),
            NativeVal::Fp64Bits(b) => fp64_to_i32_spec(b),
        }
    }

    fn from_native(v: NativeVal) -> (r: i32) {
        match v {
            NativeVal::U8(x) => x as i32,
            NativeVal::U16(x) => x as i32,
            NativeVal::U32(x) => u32_wrap_to_i32(x),
            NativeVal::S8(x) => x as i32,
            NativeVal::S16(x) => x as i32,
            NativeVal::S32(x) => x,
            NativeVal::Fp32Bits(b) => fp32_bits_to_i32(b),
            NativeVal::Fp64Bits(b) => fp64_bits_to_i32(b),
        }
    }
}

/// The normalizer is deterministic: every call of `from_native` ensures
/// its result equals `from_native_spec` of the input, so any two results
/// of converting the same native value — for every supported layout and
/// every output type — are the same value.
pub proof fn lemma_normalizer_deterministic<T: OutputSample>(v: NativeVal, r1: T, r2: T)
    requires
        r1 == T::from_native_spec(v),
        r2 == T::from_native_spec(v),
    ensures
        r1 == r2,
{
}

} // verus!
