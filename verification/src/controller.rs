//! The decode loop controller: a pure state machine that drives one
//! file's packet-decode loop.
//!
//! All outside work — requesting packets, decoding them, re-reading the
//! track list — happens beyond the library. The surrounding program
//! reports each outcome as a [`DecodeEvent`], and the controller answers
//! with the next [`DecodeAction`]; every transition is pinned by the
//! specification function [`step_spec`], so a whole run is a function of
//! the initial track list and the observed event sequence alone.

use vstd::prelude::*;
use crate::accumulator::SampleAccumulator;
use crate::accumulator::lemma_normalized_stream_len;
use crate::accumulator::normalized_frames;
use crate::accumulator::normalized_stream;
use crate::accumulator::total_frames;
use crate::error::PipelineError;
use crate::normalize::OutputSample;
use crate::sample::NativeSampleBuffer;
use crate::track::Track;
use crate::track::first_decodable;
use crate::track::select_track;

verus! {

/// The observable phase of the decode loop.
#[derive(Clone, Copy, Debug, PartialEq, Eq, Structural)]
pub enum Phase {
    /// Awaiting the outcome of a packet request.
    Requesting,
    /// A packet of the selected track was handed to the decoder;
    /// awaiting its outcome. Normalizing the decoded buffer happens
    /// atomically on the way back to `Requesting`.
    Decoding,
    /// A mid-stream topology change was observed; awaiting the
    /// refreshed track list. Transient: always resolves back into
    /// `Requesting` after reselection, or aborts if nothing is left to
    /// decode.
    Suspended,
    /// The stream is exhausted: the ordinary terminal phase, not an
    /// error.
    Done,
    /// Terminal: this file's pipeline failed with the carried error.
    Aborted(PipelineError),
}

/// What the surrounding program observed from the media engine.
#[derive(Clone, Debug, PartialEq)]
pub enum DecodeEvent {
    /// A packet arrived, belonging to the track with this id.
    PacketReady { track_id: u64 },
    /// The stream is exhausted; the ordinary end, not an error.
    EndOfStream,
    /// A hard I/O or container error.
    IoFailure,
    /// The decoder turned the pending packet into a native buffer.
    Decoded(NativeSampleBuffer),
    /// The decoder failed on the pending packet (codec-level error).
    DecodeFailed,
    /// The track topology changed mid-stream (chained or segmented
    /// container).
    ResetRequired,
    /// The refreshed track list, read after a topology change.
    TracksChanged(Vec<Track>),
}

/// What the controller asks the surrounding program to do next.
#[derive(Clone, Copy, Debug, PartialEq, Eq, Structural)]
pub enum DecodeAction {
    /// Drain any pending metadata updates, then request the next packet.
    FetchPacket,
    /// Hand the pending packet to the decoder.
    DecodePacket,
    /// Discard the pending packet — it belongs to another track — and
    /// request the next one.
    SkipPacket,
    /// Re-read the track list from the refreshed format and report it.
    RefreshTracks,
    /// Build a fresh decoder for the newly selected track, then request
    /// the next packet.
    RebuildDecoder,
    /// Stop: the controller is in a terminal phase.
    Halt,
}

/// Which events can arrive in which phase. This is the protocol between
/// the controller and the surrounding program: each phase awaits the
/// outcome of the action the controller just handed out, and the
/// terminal phases await nothing.
pub open spec fn event_admissible(phase: Phase, ev: DecodeEvent) -> bool {
    match phase {
        Phase::Requesting => ev is PacketReady || ev is EndOfStream || ev is IoFailure
            || ev is ResetRequired,
        Phase::Decoding => ev is Decoded || ev is DecodeFailed || ev is IoFailure
            || ev is ResetRequired,
        Phase::Suspended => ev is TracksChanged,
        Phase::Done => false,
        Phase::Aborted(_) => false,
    }
}

/// One transition of the decode loop: from the current phase, selected
/// track and accumulated samples, under an observed event, to the next
/// phase, track, samples and the action handed back. This is the whole
/// error/recovery policy in one place:
/// stream exhaustion is the ordinary end; an I/O failure and a failed
/// decode abort the file; a packet of another track is skipped without
/// touching any state; an unsupported native layout aborts; a topology
/// change suspends the loop and resolves by selecting the first
/// decodable track of the refreshed list.
pub open spec fn step_spec<T: OutputSample>(
    phase: Phase,
    track: Track,
    samples: Seq<T>,
    ev: DecodeEvent,
) -> (Phase, Track, Seq<T>, DecodeAction) {
    match (phase, ev) {
        (Phase::Requesting, DecodeEvent::PacketReady { track_id }) => {
            if track_id == track.id {
                (Phase::Decoding, track, samples, DecodeAction::DecodePacket)
            } else {
                (Phase::Requesting, track, samples, DecodeAction::SkipPacket)
            }
        },
        (Phase::Requesting, DecodeEvent::EndOfStream) => {
            (Phase::Done, track, samples, DecodeAction::Halt)
        },
        (Phase::Requesting, DecodeEvent::IoFailure) => {
            (Phase::Aborted(PipelineError::Io), track, samples, DecodeAction::Halt)
        },
        (Phase::Requesting, DecodeEvent::ResetRequired) => {
            (Phase::Suspended, track, samples, DecodeAction::RefreshTracks)
        },
        (Phase::Decoding, DecodeEvent::Decoded(b)) => {
            if b.is_supported() {
                (
                    Phase::Requesting,
                    track,
                    samples + normalized_frames::<T>(b),
                    DecodeAction::FetchPacket,
                )
            } else {
                (
                    Phase::Aborted(PipelineError::UnsupportedSampleLayout),
                    track,
                    samples,
                    DecodeAction::Halt,
                )
            }
        },
        (Phase::Decoding, DecodeEvent::DecodeFailed) => {
            (Phase::Aborted(PipelineError::Decode), track, samples, DecodeAction::Halt)
        },
        (Phase::Decoding, DecodeEvent::IoFailure) => {
            (Phase::Aborted(PipelineError::Io), track, samples, DecodeAction::Halt)
        },
        (Phase::Decoding, DecodeEvent::ResetRequired) => {
            (Phase::Suspended, track, samples, DecodeAction::RefreshTracks)
        },
        (Phase::Suspended, DecodeEvent::TracksChanged(tracks)) => {
            match first_decodable(tracks@) {
                Some(t) => (Phase::Requesting, t, samples, DecodeAction::RebuildDecoder),
                None => (
                    Phase::Aborted(PipelineError::NoDecodableTrack),
                    track,
                    samples,
                    DecodeAction::Halt,
                ),
            }
        },
        _ => (phase, track, samples, DecodeAction::Halt),
    }
}

/// The decode loop controller for one file: the selected track, the
/// loop phase, and the accumulator the channel-0 samples grow into.
pub struct DecodeController<T: OutputSample> {
    phase: Phase,
    track: Track,
    acc: SampleAccumulator<T>,
}

impl<T: OutputSample> View for DecodeController<T> {
    type V = Seq<T>;

    /// The samples accumulated so far, in packet arrival order.
    closed spec fn view(&self) -> Seq<T> {
        self.acc@
    }
}

impl<T: OutputSample> DecodeController<T> {
    pub closed spec fn phase(self) -> Phase {
        self.phase
    }

    pub closed spec fn track(self) -> Track {
        self.track
    }

    /// Begin one file's pipeline: select the first decodable track of
    /// the probed container and create the accumulator, pre-reserved to
    /// the track's declared frame count. When no track is decodable the
    /// pipeline fails with `NoDecodableTrack` — and no accumulator is
    /// ever constructed.
    pub fn new(tracks: &Vec<Track>) -> (r: Result<Self, PipelineError>)
        ensures
            match r {
                Ok(c) => first_decodable(tracks@) == Some(c.track()) && c.phase()
                    == Phase::Requesting && c@ == Seq::<T>::empty(),
                Err(e) => e == PipelineError::NoDecodableTrack && first_decodable(tracks@) is None,
            },
    {
        match select_track(tracks) {
            Ok(t) => Ok(
                DecodeController {
                    phase: Phase::Requesting,
                    track: t,
                    acc: SampleAccumulator::with_reserve(t.n_frames),
                },
            ),
            Err(e) => Err(e),
        }
    }

    /// Advance the loop by one observed event and hand back the next
    /// action. The new state and the action are pinned entirely by
    /// [`step_spec`] of the old state and the event: the controller is
    /// deterministic.
    pub fn step(&mut self, ev: DecodeEvent) -> (a: DecodeAction)
        requires
            event_admissible(old(self).phase(), ev),
        ensures
            final(self).phase() == step_spec::<T>(
                old(self).phase(),
                old(self).track(),
                old(self)@,
                ev,
            ).0,
            final(self).track() == step_spec::<T>(
                old(self).phase(),
                old(self).track(),
                old(self)@,
                ev,
            ).1,
            final(self)@ == step_spec::<T>(old(self).phase(), old(self).track(), old(self)@, ev).2,
            a == step_spec::<T>(old(self).phase(), old(self).track(), old(self)@, ev).3,
    {
        match ev {
            DecodeEvent::PacketReady { track_id } => {
                if track_id == self.track.id {
                    self.phase = Phase::Decoding;
                    DecodeAction::DecodePacket
                } else {
                    DecodeAction::SkipPacket
                }
            },
            DecodeEvent::EndOfStream => {
                self.phase = Phase::Done;
                DecodeAction::Halt
            },
            DecodeEvent::IoFailure => {
                self.phase = Phase::Aborted(PipelineError::Io);
                DecodeAction::Halt
            },
            DecodeEvent::Decoded(b) => {
                match self.acc.append_buffer(&b) {
                    Ok(()) => {
                        self.phase = Phase::Requesting;
                        DecodeAction::FetchPacket
                    },
                    Err(_) => {
                        self.phase = Phase::Aborted(PipelineError::UnsupportedSampleLayout);
                        DecodeAction::Halt
                    },
                }
            },
            DecodeEvent::DecodeFailed => {
                self.phase = Phase::Aborted(PipelineError::Decode);
                DecodeAction::Halt
            },
            DecodeEvent::ResetRequired => {
                self.phase = Phase::Suspended;
                DecodeAction::RefreshTracks
            },
            DecodeEvent::TracksChanged(tracks) => {
                match select_track(&tracks) {
                    Ok(t) => {
                        self.track = t;
                        self.phase = Phase::Requesting;
                        DecodeAction::RebuildDecoder
                    },
                    Err(_) => {
                        self.phase = Phase::Aborted(PipelineError::NoDecodableTrack);
                        DecodeAction::Halt
                    },
                }
            },
        }
    }

    /// Finalize the invocation, in a terminal phase only. On `Done` the
    /// buffer is handed to the caller whole; on `Aborted` the error is
    /// returned and the partial buffer is dropped, never exposed.
    pub fn finish(self) -> (r: Result<Vec<T>, PipelineError>)
        requires
            self.phase() is Done || self.phase() is Aborted,
        ensures
            match r {
                Ok(v) => self.phase() is Done && v@ == self@,
                Err(e) => self.phase() == Phase::Aborted(e),
            },
    {
        match self.phase {
            Phase::Aborted(e) => Err(e),
            _ => Ok(self.acc.into_vec()),
        }
    }

    /// The track whose packets are being decoded; the surrounding
    /// program builds its decoder for it.
    pub fn current_track(&self) -> (t: Track)
        ensures
            t == self.track(),
    {
        self.track
    }

    pub fn current_phase(&self) -> (p: Phase)
        ensures
            p == self.phase(),
    {
        self.phase
    }

    /// Whether the loop still awaits events.
    pub fn is_running(&self) -> (b: bool)
        ensures
            b == (!(self.phase() is Done) && !(self.phase() is Aborted)),
    {
        !matches!(self.phase, Phase::Done | Phase::Aborted(_))
    }

    pub fn sample_count(&self) -> (n: usize)
        ensures
            n == self@.len(),
    {
        self.acc.len()
    }
}

/// A whole run of the loop, as a fold of [`step_spec`] over the observed
/// event sequence: the final phase, track and samples.
pub open spec fn run_spec<T: OutputSample>(
    phase: Phase,
    track: Track,
    samples: Seq<T>,
    evs: Seq<DecodeEvent>,
) -> (Phase, Track, Seq<T>)
    decreases evs.len(),
{
    if evs.len() == 0 {
        (phase, track, samples)
    } else {
        let next = step_spec::<T>(phase, track, samples, evs[0]);
        run_spec::<T>(next.0, next.1, next.2, evs.drop_first())
    }
}

/// Whether an event sequence respects the protocol from the given
/// state: each event is admissible in the phase it arrives in.
pub open spec fn admissible_run<T: OutputSample>(
    phase: Phase,
    track: Track,
    samples: Seq<T>,
    evs: Seq<DecodeEvent>,
) -> bool
    decreases evs.len(),
{
    evs.len() == 0 || {
        &&& event_admissible(phase, evs[0])
        &&& {
            let next = step_spec::<T>(phase, track, samples, evs[0]);
            admissible_run::<T>(next.0, next.1, next.2, evs.drop_first())
        }
    }
}

/// The buffers the decoder produced over an event sequence, in arrival
/// order.
pub open spec fn decoded_buffers(evs: Seq<DecodeEvent>) -> Seq<NativeSampleBuffer>
    decreases evs.len(),
{
    if evs.len() == 0 {
        Seq::empty()
    } else {
        let rest = decoded_buffers(evs.drop_first());
        match evs[0] {
            DecodeEvent::Decoded(b) => seq![b] + rest,
            _ => rest,
        }
    }
}

/// The accumulator accumulates exactly the decoded stream: over any
/// protocol-respecting run whose decoded buffers are all in supported
/// layouts, the final sample sequence is the initial one extended by the
/// normalization of every decoded buffer, in packet arrival order — no
/// sample dropped, none duplicated, none reordered.
pub proof fn lemma_run_accumulates<T: OutputSample>(
    phase: Phase,
    track: Track,
    samples: Seq<T>,
    evs: Seq<DecodeEvent>,
)
    requires
        admissible_run::<T>(phase, track, samples, evs),
        forall|i: int|
            0 <= i < evs.len() ==> ((#[trigger] evs[i]) matches DecodeEvent::Decoded(b)
                ==> b.is_supported()),
    ensures
        run_spec::<T>(phase, track, samples, evs).2 == samples + normalized_stream::<T>(
            decoded_buffers(evs),
        ),
    decreases evs.len(),
{
    if evs.len() == 0 {
        assert(samples + normalized_stream::<T>(decoded_buffers(evs)) =~= samples);
    } else {
        let next = step_spec::<T>(phase, track, samples, evs[0]);
        assert forall|i: int|
            0 <= i < evs.drop_first().len() implies ((#[trigger] evs.drop_first()[i])
            matches DecodeEvent::Decoded(b) ==> b.is_supported()) by {
            assert(evs.drop_first()[i] == evs[i + 1]);
        }
        lemma_run_accumulates::<T>(next.0, next.1, next.2, evs.drop_first());
        match evs[0] {
            DecodeEvent::Decoded(b) => {
                assert(next.2 == samples + normalized_frames::<T>(b));
                assert(decoded_buffers(evs) == seq![b] + decoded_buffers(evs.drop_first()));
                assert((seq![b] + decoded_buffers(evs.drop_first())).drop_first()
                    =~= decoded_buffers(evs.drop_first()));
                assert(normalized_stream::<T>(seq![b] + decoded_buffers(evs.drop_first()))
                    == normalized_frames::<T>(b) + normalized_stream::<T>(
                    decoded_buffers(evs.drop_first()),
                ));
                assert((samples + normalized_frames::<T>(b)) + normalized_stream::<T>(
                    decoded_buffers(evs.drop_first()),
                ) =~= samples + normalized_stream::<T>(decoded_buffers(evs)));
            },
            _ => {
                assert(next.2 == samples);
                assert(decoded_buffers(evs) == decoded_buffers(evs.drop_first()));
            },
        }
    }
}

/// Over any protocol-respecting run whose decoded buffers are all in
/// supported layouts, the final buffer length is the initial length
/// plus exactly the total decoded channel-0 frame count: no sample
/// dropped, none duplicated.
pub proof fn lemma_run_length<T: OutputSample>(
    phase: Phase,
    track: Track,
    samples: Seq<T>,
    evs: Seq<DecodeEvent>,
)
    requires
        admissible_run::<T>(phase, track, samples, evs),
        forall|i: int|
            0 <= i < evs.len() ==> ((#[trigger] evs[i]) matches DecodeEvent::Decoded(b)
                ==> b.is_supported()),
    ensures
        run_spec::<T>(phase, track, samples, evs).2.len() == samples.len() + total_frames(
            decoded_buffers(evs),
        ),
{
    lemma_run_accumulates::<T>(phase, track, samples, evs);
    lemma_normalized_stream_len::<T>(decoded_buffers(evs));
}

/// Running the pipeline twice over the same observed events, from the
/// same initial state, ends in the same phase, the same selected track
/// and the identical output sequence: every transition is a function of
/// its inputs alone, with no hidden state.
pub proof fn lemma_run_deterministic<T: OutputSample>(
    phase1: Phase,
    track1: Track,
    samples1: Seq<T>,
    phase2: Phase,
    track2: Track,
    samples2: Seq<T>,
    evs: Seq<DecodeEvent>,
)
    requires
        phase1 == phase2,
        track1 == track2,
        samples1 == samples2,
    ensures
        run_spec::<T>(phase1, track1, samples1, evs) == run_spec::<T>(
            phase2,
            track2,
            samples2,
            evs,
        ),
{
}

} // verus!
