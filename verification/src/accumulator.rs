//! The sample accumulator: the one growable buffer of output samples.

use vstd::prelude::*;
use crate::error::PipelineError;
use crate::normalize::OutputSample;
use crate::sample::NativeSampleBuffer;
use crate::sample::NativeVal;

verus! {

/// The channel-0 samples of one decoded packet, normalized to the output
/// type, in their original order.
pub open spec fn normalized_frames<T: OutputSample>(b: NativeSampleBuffer) -> Seq<T> {
    match b {
        NativeSampleBuffer::U8(v) => v@.map_values(|x: u8| T::from_native_spec(NativeVal::U8(x))),
        NativeSampleBuffer::U16(v) => v@.map_values(
            |x: u16| T::from_native_spec(NativeVal::U16(x)),
        ),
        NativeSampleBuffer::U32(v) => v@.map_values(
            |x: u32| T::from_native_spec(NativeVal::U32(x)),
        ),
        NativeSampleBuffer::S8(v) => v@.map_values(|x: i8| T::from_native_spec(NativeVal::S8(x))),
        NativeSampleBuffer::S16(v) => v@.map_values(
            |x: i16| T::from_native_spec(NativeVal::S16(x)),
        ),
        NativeSampleBuffer::S32(v) => v@.map_values(
            |x: i32| T::from_native_spec(NativeVal::S32(x)),
        ),
        NativeSampleBuffer::Fp32Bits(v) => v@.map_values(
            |x: u32| T::from_native_spec(NativeVal::Fp32Bits(x)),
        ),
        NativeSampleBuffer::Fp64Bits(v) => v@.map_values(
            |x: u64| T::from_native_spec(NativeVal::Fp64Bits(x)),
        ),
        NativeSampleBuffer::Unsupported => Seq::empty(),
    }
}

/// The total number of channel-0 frames across a sequence of decoded
/// packets.
pub open spec fn total_frames(bufs: Seq<NativeSampleBuffer>) -> nat
    decreases bufs.len(),
{
    if bufs.len() == 0 {
        0
    } else {
        bufs[0].frame_count() + total_frames(bufs.drop_first())
    }
}

/// The whole normalized output of a sequence of decoded packets, in
/// packet arrival order.
pub open spec fn normalized_stream<T: OutputSample>(bufs: Seq<NativeSampleBuffer>) -> Seq<T>
    decreases bufs.len(),
{
    if bufs.len() == 0 {
        Seq::empty()
    } else {
        normalized_frames::<T>(bufs[0]) + normalized_stream::<T>(bufs.drop_first())
    }
}

/// Normalizing one packet keeps exactly its frame count: no sample is
/// dropped and none is duplicated.
pub proof fn lemma_normalized_frames_len<T: OutputSample>(b: NativeSampleBuffer)
    ensures
        normalized_frames::<T>(b).len() == b.frame_count(),
{
}

/// Accumulating a whole stream of supported packets yields exactly the
/// total frame count, in packet arrival order.
pub proof fn lemma_normalized_stream_len<T: OutputSample>(bufs: Seq<NativeSampleBuffer>)
    ensures
        normalized_stream::<T>(bufs).len() == total_frames(bufs),
    decreases bufs.len(),
{
    if bufs.len() > 0 {
        lemma_normalized_frames_len::<T>(bufs[0]);
        lemma_normalized_stream_len::<T>(bufs.drop_first());
    }
}

/// An owned, growable sequence of the output numeric type. Appending is
/// the only mutation; the contents are handed out only by consuming the
/// accumulator.
pub struct SampleAccumulator<T> {
    data: Vec<T>,
}

impl<T: OutputSample> View for SampleAccumulator<T> {
    type V = Seq<T>;

    closed spec fn view(&self) -> Seq<T> {
        self.data@
    }
}

impl<T: OutputSample> SampleAccumulator<T> {
    /// A fresh, empty accumulator, pre-reserved to the declared frame
    /// count when the track declares one (capacity 0 otherwise, growing
    /// amortized thereafter). The declared count is a reservation hint
    /// only: it never changes the contents, which start empty either
    /// way, and a count too large to sit in one upfront allocation —
    /// a corrupt or hostile header — is ignored rather than trusted.
    pub fn with_reserve(n_frames: Option<u64>) -> (s: Self)
        ensures
            s@ == Seq::<T>::empty(),
    {
        let cap: usize = match n_frames {
            Some(n) => {
                if n <= 0x00ff_ffff {
                    n as usize
                } else {
                    0
                }
            },
            None => 0,
        };
        SampleAccumulator { data: Vec::with_capacity(cap) }
    }

    pub fn len(&self) -> (n: usize)
        ensures
            n == self@.len(),
    {
        self.data.len()
    }

    /// Normalize one decoded packet's channel-0 samples and append them,
    /// in order. A buffer in an unsupported native layout is a hard
    /// error and leaves the accumulator unchanged.
    pub fn append_buffer(&mut self, b: &NativeSampleBuffer) -> (r: Result<(), PipelineError>)
        ensures
            match r {
                Ok(()) => b.is_supported() && final(self)@ == old(self)@
                    + normalized_frames::<T>(*b),
                Err(e) => !b.is_supported() && e == PipelineError::UnsupportedSampleLayout
                    && final(self)@ == old(self)@,
            },
    {
        match b {
            NativeSampleBuffer::U8(v) => {
                let n = v.len();
                let mut i: usize = 0;
                while i < n
                    invariant
                        n == v@.len(),
                        0 <= i <= n,
                        self.data@ == old(self).data@ + v@.take(i as int).map_values(
                            |x: u8| T::from_native_spec(NativeVal::U8(x)),
                        ),
                    decreases n - i,
                {
                    self.data.push(T::from_native(NativeVal::U8(v[i])));
                    proof {
                        assert(v@.take(i + 1).map_values(
                            |x: u8| T::from_native_spec(NativeVal::U8(x)),
                        ) =~= v@.take(i as int).map_values(
                            |x: u8| T::from_native_spec(NativeVal::U8(x)),
                        ).push(T::from_native_spec(NativeVal::U8(v@[i as int]))));
                    }
                    i = i + 1;
                }
                proof {
                    assert(v@.take(n as int) =~= v@);
                }
                Ok(())
            },
            NativeSampleBuffer::U16(v) => {
                let n = v.len();
                let mut i: usize = 0;
                while i < n
                    invariant
                        n == v@.len(),
                        0 <= i <= n,
                        self.data@ == old(self).data@ + v@.take(i as int).map_values(
                            |x: u16| T::from_native_spec(NativeVal::U16(x)),
                        ),
                    decreases n - i,
                {
                    self.data.push(T::from_native(NativeVal::U16(v[i])));
                    proof {
                        assert(v@.take(i + 1).map_values(
                            |x: u16| T::from_native_spec(NativeVal::U16(x)),
                        ) =~= v@.take(i as int).map_values(
                            |x: u16| T::from_native_spec(NativeVal::U16(x)),
                        ).push(T::from_native_spec(NativeVal::U16(v@[i as int]))));
                    }
                    i = i + 1;
                }
                proof {
                    assert(v@.take(n as int) =~= v@);
                }
                Ok(())
            },
            NativeSampleBuffer::U32(v) => {
                let n = v.len();
                let mut i: usize = 0;
                while i < n
                    invariant
                        n == v@.len(),
                        0 <= i <= n,
                        self.data@ == old(self).data@ + v@.take(i as int).map_values(
                            |x: u32| T::from_native_spec(NativeVal::U32(x)),
                        ),
                    decreases n - i,
                {
                    self.data.push(T::from_native(NativeVal::U32(v[i])));
                    proof {
                        assert(v@.take(i + 1).map_values(
                            |x: u32| T::from_native_spec(NativeVal::U32(x)),
                        ) =~= v@.take(i as int).map_values(
                            |x: u32| T::from_native_spec(NativeVal::U32(x)),
                        ).push(T::from_native_spec(NativeVal::U32(v@[i as int]))));
                    }
                    i = i + 1;
                }
                proof {
                    assert(v@.take(n as int) =~= v@);
                }
                Ok(())
            },
            NativeSampleBuffer::S8(v) => {
                let n = v.len();
                let mut i: usize = 0;
                while i < n
                    invariant
                        n == v@.len(),
                        0 <= i <= n,
                        self.data@ == old(self).data@ + v@.take(i as int).map_values(
                            |x: i8| T::from_native_spec(NativeVal::S8(x)),
                        ),
                    decreases n - i,
                {
                    self.data.push(T::from_native(NativeVal::S8(v[i])));
                    proof {
                        assert(v@.take(i + 1).map_values(
                            |x: i8| T::from_native_spec(NativeVal::S8(x)),
                        ) =~= v@.take(i as int).map_values(
                            |x: i8| T::from_native_spec(NativeVal::S8(x)),
                        ).push(T::from_native_spec(NativeVal::S8(v@[i as int]))));
                    }
                    i = i + 1;
                }
                proof {
                    assert(v@.take(n as int) =~= v@);
                }
                Ok(())
            },
            NativeSampleBuffer::S16(v) => {
                let n = v.len();
                let mut i: usize = 0;
                while i < n
                    invariant
                        n == v@.len(),
                        0 <= i <= n,
                        self.data@ == old(self).data@ + v@.take(i as int).map_values(
                            |x: i16| T::from_native_spec(NativeVal::S16(x)),
                        ),
                    decreases n - i,
                {
                    self.data.push(T::from_native(NativeVal::S16(v[i])));
                    proof {
                        assert(v@.take(i + 1).map_values(
                            |x: i16| T::from_native_spec(NativeVal::S16(x)),
                        ) =~= v@.take(i as int).map_values(
                            |x: i16| T::from_native_spec(NativeVal::S16(x)),
                        ).push(T::from_native_spec(NativeVal::S16(v@[i as int]))));
                    }
                    i = i + 1;
                }
                proof {
                    assert(v@.take(n as int) =~= v@);
                }
                Ok(())
            },
            NativeSampleBuffer::S32(v) => {
                let n = v.len();
                let mut i: usize = 0;
                while i < n
                    invariant
                        n == v@.len(),
                        0 <= i <= n,
                        self.data@ == old(self).data@ + v@.take(i as int).map_values(
                            |x: i32| T::from_native_spec(NativeVal::S32(x)),
                        ),
                    decreases n - i,
                {
                    self.data.push(T::from_native(NativeVal::S32(v[i])));
                    proof {
                        assert(v@.take(i + 1).map_values(
                            |x: i32| T::from_native_spec(NativeVal::S32(x)),
                        ) =~= v@.take(i as int).map_values(
                            |x: i32| T::from_native_spec(NativeVal::S32(x)),
                        ).push(T::from_native_spec(NativeVal::S32(v@[i as int]))));
                    }
                    i = i + 1;
                }
                proof {
                    assert(v@.take(n as int) =~= v@);
                }
                Ok(())
            },
            NativeSampleBuffer::Fp32Bits(v) => {
                let n = v.len();
                let mut i: usize = 0;
                while i < n
                    invariant
                        n == v@.len(),
                        0 <= i <= n,
                        self.data@ == old(self).data@ + v@.take(i as int).map_values(
                            |x: u32| T::from_native_spec(NativeVal::Fp32Bits(x)),
                        ),
                    decreases n - i,
                {
                    self.data.push(T::from_native(NativeVal::Fp32Bits(v[i])));
                    proof {
                        assert(v@.take(i + 1).map_values(
                            |x: u32| T::from_native_spec(NativeVal::Fp32Bits(x)),
                        ) =~= v@.take(i as int).map_values(
                            |x: u32| T::from_native_spec(NativeVal::Fp32Bits(x)),
                        ).push(T::from_native_spec(NativeVal::Fp32Bits(v@[i as int]))));
                    }
                    i = i + 1;
                }
                proof {
                    assert(v@.take(n as int) =~= v@);
                }
                Ok(())
            },
            NativeSampleBuffer::Fp64Bits(v) => {
                let n = v.len();
                let mut i: usize = 0;
                while i < n
                    invariant
                        n == v@.len(),
                        0 <= i <= n,
                        self.data@ == old(self).data@ + v@.take(i as int).map_values(
                            |x: u64| T::from_native_spec(NativeVal::Fp64Bits(x)),
                        ),
                    decreases n - i,
                {
                    self.data.push(T::from_native(NativeVal::Fp64Bits(v[i])));
                    proof {
                        assert(v@.take(i + 1).map_values(
                            |x: u64| T::from_native_spec(NativeVal::Fp64Bits(x)),
                        ) =~= v@.take(i as int).map_values(
                            |x: u64| T::from_native_spec(NativeVal::Fp64Bits(x)),
                        ).push(T::from_native_spec(NativeVal::Fp64Bits(v@[i as int]))));
                    }
                    i = i + 1;
                }
                proof {
                    assert(v@.take(n as int) =~= v@);
                }
                Ok(())
            },
            NativeSampleBuffer::Unsupported => Err(PipelineError::UnsupportedSampleLayout),
        }
    }

    /// Hand the accumulated samples to the caller, consuming the
    /// accumulator.
    pub fn into_vec(self) -> (v: Vec<T>)
        ensures
            v@ == self@,
    {
        self.data
    }
}

} // verus!
