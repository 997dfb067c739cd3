//! The codec-native sample representations the decoder can hand over.

use vstd::prelude::*;

verus! {

/// One codec-native sample value. Integer layouts carry their value
/// directly; the two IEEE 754 floating-point layouts are carried as raw
/// bit patterns (single precision in a `u32`, double precision in a
/// `u64`), so that the normalizer can work on them as plain integers.
#[derive(Clone, Copy, Debug, PartialEq, Eq, Structural)]
pub enum NativeVal {
    U8(u8),
    U16(u16),
    U32(u32),
    S8(i8),
    S16(i16),
    S32(i32),
    Fp32Bits(u32),
    Fp64Bits(u64),
}

/// The channel-0 samples of one decoded packet, tagged by the native
/// layout the codec produced. Transient: produced and consumed within one
/// loop iteration. `Unsupported` stands for any layout (such as 24-bit
/// packed) the normalizer defines no conversion for; it is reported as a
/// hard error, never silently dropped.
#[derive(Clone, Debug, PartialEq)]
pub enum NativeSampleBuffer {
    U8(Vec<u8>),
    U16(Vec<u16>),
    U32(Vec<u32>),
    S8(Vec<i8>),
    S16(Vec<i16>),
    S32(Vec<i32>),
    Fp32Bits(Vec<u32>),
    Fp64Bits(Vec<u64>),
    Unsupported,
}

impl NativeSampleBuffer {
    /// Whether the normalizer defines a conversion for this layout.
    pub open spec fn is_supported(self) -> bool {
        !(self is Unsupported)
    }

    /// How many channel-0 samples the packet decoded to.
    pub open spec fn frame_count(self) -> nat {
        match self {
            NativeSampleBuffer::U8(v) => v@.len(),
            NativeSampleBuffer::U16(v) => v@.len(),
            NativeSampleBuffer::U32(v) => v@.len(),
            NativeSampleBuffer::S8(v) => v@.len(),
            NativeSampleBuffer::S16(v) => v@.len(),
            NativeSampleBuffer::S32(v) => v@.len(),
            NativeSampleBuffer::Fp32Bits(v) => v@.len(),
            NativeSampleBuffer::Fp64Bits(v) => v@.len(),
            NativeSampleBuffer::Unsupported => 0,
        }
    }

    pub fn supported(&self) -> (b: bool)
        ensures
            b == self.is_supported(),
    {
        !matches!(self, NativeSampleBuffer::Unsupported)
    }
}

} // verus!
