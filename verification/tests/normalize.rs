use wavem::ieee::fp32_bits_to_i16;
use wavem::ieee::fp32_bits_to_i32;
use wavem::ieee::fp64_bits_to_i16;
use wavem::ieee::fp64_bits_to_i32;
use wavem::normalize::i32_wrap_to_i16;
use wavem::normalize::u16_wrap_to_i16;
use wavem::normalize::u32_wrap_to_i16;
use wavem::normalize::u32_wrap_to_i32;
use wavem::normalize::OutputSample;
use wavem::sample::NativeVal;

fn fp32_cases() -> Vec<f32> {
    vec![
        0.0,
        -0.0,
        0.5,
        -0.5,
        0.999,
        1.0,
        -1.0,
        1.5,
        -1.5,
        2.75,
        -3.99,
        123.456,
        -123.456,
        32767.0,
        32768.0,
        -32768.0,
        -32769.0,
        65504.0,
        1.0e9,
        -1.0e9,
        2147483520.0,
        2147483648.0,
        -2147483648.0,
        -2147483904.0,
        1.0e20,
        -1.0e20,
        f32::MAX,
        f32::MIN,
        f32::INFINITY,
        f32::NEG_INFINITY,
        f32::NAN,
        f32::MIN_POSITIVE,
        1.1754944e-38,
        1.0e-45,
        -1.0e-45,
    ]
}

fn fp64_cases() -> Vec<f64> {
    vec![
        0.0,
        -0.0,
        0.5,
        -0.5,
        1.0,
        -1.0,
        1.999999,
        -1.999999,
        12345.6789,
        -12345.6789,
        32767.9,
        -32768.9,
        2147483647.0,
        2147483648.0,
        -2147483648.0,
        -2147483649.0,
        4.0e9,
        -4.0e9,
        1.0e300,
        -1.0e300,
        f64::MAX,
        f64::MIN,
        f64::INFINITY,
        f64::NEG_INFINITY,
        f64::NAN,
        5.0e-324,
        -5.0e-324,
        2.2250738585072014e-308,
    ]
}

/// The library's bit-pattern conversion must agree with Rust's own
/// raw `as` cast (truncation toward zero, saturation, NaN to zero)
/// on single-precision inputs.
#[test]
fn fp32_to_i32_matches_raw_cast() {
    for f in fp32_cases() {
        assert_eq!(fp32_bits_to_i32(f.to_bits()), f as i32, "input {f}");
    }
}

#[test]
fn fp32_to_i16_matches_raw_cast() {
    for f in fp32_cases() {
        assert_eq!(fp32_bits_to_i16(f.to_bits()), f as i16, "input {f}");
    }
}

#[test]
fn fp64_to_i32_matches_raw_cast() {
    for f in fp64_cases() {
        assert_eq!(fp64_bits_to_i32(f.to_bits()), f as i32, "input {f}");
    }
}

#[test]
fn fp64_to_i16_matches_raw_cast() {
    for f in fp64_cases() {
        assert_eq!(fp64_bits_to_i16(f.to_bits()), f as i16, "input {f}");
    }
}

/// Normalizing a 32-bit float to a 32-bit integer uses raw-cast
/// semantics, not amplitude rescaling: 0.5 and -0.5 truncate to 0.
#[test]
fn fp32_half_is_not_rescaled() {
    assert_eq!(fp32_bits_to_i32((0.5f32).to_bits()), 0);
    assert_eq!(fp32_bits_to_i32((-0.5f32).to_bits()), 0);
}

/// Integer wrap-around conversions agree with Rust's raw casts.
#[test]
fn integer_wraps_match_raw_cast() {
    let u16s: Vec<u16> = vec![0, 1, 0x7fff, 0x8000, 0x8001, 0xfffe, 0xffff];
    for x in u16s {
        assert_eq!(u16_wrap_to_i16(x), x as i16, "input {x}");
    }
    let u32s: Vec<u32> = vec![
        0,
        1,
        0x7fff,
        0x8000,
        0xffff,
        0x1_0000,
        0x1_0001,
        0x7fff_ffff,
        0x8000_0000,
        0xffff_ffff,
    ];
    for x in u32s {
        assert_eq!(u32_wrap_to_i16(x), x as i16, "input {x}");
        assert_eq!(u32_wrap_to_i32(x), x as i32, "input {x}");
    }
    let i32s: Vec<i32> = vec![
        0,
        1,
        -1,
        0x7fff,
        0x8000,
        -0x8000,
        -0x8001,
        65536,
        -65536,
        i32::MAX,
        i32::MIN,
    ];
    for x in i32s {
        assert_eq!(i32_wrap_to_i16(x), x as i16, "input {x}");
    }
}

/// Every supported native layout converts to i16 the way the raw cast
/// chain does, and widening conversions preserve the value exactly.
#[test]
fn from_native_i16_all_layouts() {
    assert_eq!(<i16 as OutputSample>::from_native(NativeVal::U8(200)), 200);
    assert_eq!(<i16 as OutputSample>::from_native(NativeVal::U16(0xffff)), -1);
    assert_eq!(<i16 as OutputSample>::from_native(NativeVal::U32(0x1_0001)), 1);
    assert_eq!(<i16 as OutputSample>::from_native(NativeVal::S8(-7)), -7);
    assert_eq!(<i16 as OutputSample>::from_native(NativeVal::S16(-12345)), -12345);
    assert_eq!(<i16 as OutputSample>::from_native(NativeVal::S32(-65536)), 0);
    assert_eq!(
        <i16 as OutputSample>::from_native(NativeVal::Fp32Bits((-2.9f32).to_bits())),
        -2
    );
    assert_eq!(
        <i16 as OutputSample>::from_native(NativeVal::Fp64Bits((40000.0f64).to_bits())),
        i16::MAX
    );
}

/// Every supported native layout converts to i32 the way the raw cast
/// chain does.
#[test]
fn from_native_i32_all_layouts() {
    assert_eq!(<i32 as OutputSample>::from_native(NativeVal::U8(255)), 255);
    assert_eq!(<i32 as OutputSample>::from_native(NativeVal::U16(0xffff)), 0xffff);
    assert_eq!(<i32 as OutputSample>::from_native(NativeVal::U32(0xffff_ffff)), -1);
    assert_eq!(<i32 as OutputSample>::from_native(NativeVal::S8(-128)), -128);
    assert_eq!(<i32 as OutputSample>::from_native(NativeVal::S16(-32768)), -32768);
    assert_eq!(<i32 as OutputSample>::from_native(NativeVal::S32(i32::MIN)), i32::MIN);
    assert_eq!(
        <i32 as OutputSample>::from_native(NativeVal::Fp32Bits((1.0e20f32).to_bits())),
        i32::MAX
    );
    assert_eq!(
        <i32 as OutputSample>::from_native(NativeVal::Fp64Bits((-1.0e300f64).to_bits())),
        i32::MIN
    );
}

/// The normalizer is a pure function: converting the same native value
/// twice yields the same output, for every layout and both output
/// types, and no in-range value panics.
#[test]
fn normalizer_is_deterministic() {
    let vals = vec![
        NativeVal::U8(17),
        NativeVal::U16(40000),
        NativeVal::U32(3_000_000_000),
        NativeVal::S8(-100),
        NativeVal::S16(-20000),
        NativeVal::S32(-2_000_000_000),
        NativeVal::Fp32Bits((3.75f32).to_bits()),
        NativeVal::Fp32Bits(f32::NAN.to_bits()),
        NativeVal::Fp64Bits((-3.75f64).to_bits()),
        NativeVal::Fp64Bits(f64::INFINITY.to_bits()),
    ];
    for v in vals {
        let a16: i16 = OutputSample::from_native(v);
        let b16: i16 = OutputSample::from_native(v);
        assert_eq!(a16, b16);
        let a32: i32 = OutputSample::from_native(v);
        let b32: i32 = OutputSample::from_native(v);
        assert_eq!(a32, b32);
    }
}
