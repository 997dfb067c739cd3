use wavem::controller::DecodeAction;
use wavem::controller::DecodeController;
use wavem::controller::DecodeEvent;
use wavem::controller::Phase;
use wavem::error::PipelineError;
use wavem::sample::NativeSampleBuffer;
use wavem::track::select_track;
use wavem::track::Track;
use wavem::track::CODEC_KIND_NULL;

fn track(id: u64, codec_kind: u64, n_frames: Option<u64>) -> Track {
    Track { id, codec_kind, n_frames }
}

/// The selector picks the first track in declared order whose codec is
/// known — no quality heuristic, no other tie-break.
#[test]
fn selector_picks_first_decodable() {
    let tracks = vec![
        track(10, CODEC_KIND_NULL, None),
        track(11, 4, Some(100)),
        track(12, 9, Some(999)),
    ];
    assert_eq!(select_track(&tracks).unwrap().id, 11);
}

#[test]
fn selector_rejects_empty_and_unknown_lists() {
    let none: Vec<Track> = vec![];
    assert_eq!(select_track(&none).unwrap_err(), PipelineError::NoDecodableTrack);
    let all_null = vec![track(0, CODEC_KIND_NULL, None), track(1, CODEC_KIND_NULL, Some(5))];
    assert_eq!(select_track(&all_null).unwrap_err(), PipelineError::NoDecodableTrack);
}

/// A container with zero decodable tracks fails with
/// `NoDecodableTrackError` before any accumulator exists.
#[test]
fn no_decodable_track_never_starts() {
    let all_null = vec![track(0, CODEC_KIND_NULL, None)];
    let r: Result<DecodeController<i32>, PipelineError> = DecodeController::new(&all_null);
    match r {
        Ok(_) => panic!("a controller was constructed with nothing decodable"),
        Err(e) => assert_eq!(e, PipelineError::NoDecodableTrack),
    }
}

/// The concrete three-packet scenario: native 16-bit samples
/// [[1,2],[3,4],[5]] on channel 0, output type i16, accumulate to
/// [1,2,3,4,5].
#[test]
fn three_packet_s16_stream() {
    let tracks = vec![track(0, 7, Some(5))];
    let mut c: DecodeController<i16> = DecodeController::new(&tracks).unwrap();
    assert_eq!(c.current_track().id, 0);
    let packets: Vec<Vec<i16>> = vec![vec![1, 2], vec![3, 4], vec![5]];
    for p in packets {
        assert_eq!(c.step(DecodeEvent::PacketReady { track_id: 0 }), DecodeAction::DecodePacket);
        assert_eq!(
            c.step(DecodeEvent::Decoded(NativeSampleBuffer::S16(p))),
            DecodeAction::FetchPacket
        );
    }
    assert_eq!(c.step(DecodeEvent::EndOfStream), DecodeAction::Halt);
    assert_eq!(c.current_phase(), Phase::Done);
    assert_eq!(c.finish().unwrap(), vec![1, 2, 3, 4, 5]);
}

/// Native 32-bit float input [0.5, -0.5] normalized to i32 output under
/// raw-cast semantics yields [0, 0]: truncation toward zero, no
/// amplitude rescaling.
#[test]
fn fp32_input_to_i32_output_truncates() {
    let tracks = vec![track(3, 2, None)];
    let mut c: DecodeController<i32> = DecodeController::new(&tracks).unwrap();
    c.step(DecodeEvent::PacketReady { track_id: 3 });
    let bits = vec![(0.5f32).to_bits(), (-0.5f32).to_bits()];
    c.step(DecodeEvent::Decoded(NativeSampleBuffer::Fp32Bits(bits)));
    c.step(DecodeEvent::EndOfStream);
    assert_eq!(c.finish().unwrap(), vec![0, 0]);
}

/// The final buffer holds exactly the decodable frames of the selected
/// track, in packet arrival order; packets of other tracks are skipped
/// without affecting any state.
#[test]
fn accumulates_selected_track_only() {
    let tracks = vec![track(1, 6, Some(4)), track(2, 8, Some(50))];
    let mut c: DecodeController<i32> = DecodeController::new(&tracks).unwrap();
    assert_eq!(c.current_track().id, 1);
    assert_eq!(c.step(DecodeEvent::PacketReady { track_id: 2 }), DecodeAction::SkipPacket);
    assert_eq!(c.step(DecodeEvent::PacketReady { track_id: 1 }), DecodeAction::DecodePacket);
    c.step(DecodeEvent::Decoded(NativeSampleBuffer::U8(vec![5, 6])));
    assert_eq!(c.step(DecodeEvent::PacketReady { track_id: 2 }), DecodeAction::SkipPacket);
    assert_eq!(c.sample_count(), 2);
    c.step(DecodeEvent::PacketReady { track_id: 1 });
    c.step(DecodeEvent::Decoded(NativeSampleBuffer::U8(vec![7, 8])));
    c.step(DecodeEvent::EndOfStream);
    assert_eq!(c.finish().unwrap(), vec![5, 6, 7, 8]);
}

/// A track that declares no frame count still produces a correctly
/// sized final buffer: the accumulator starts at capacity 0 and grows.
#[test]
fn no_declared_frame_count_still_sizes_correctly() {
    let tracks = vec![track(0, 1, None)];
    let mut c: DecodeController<i16> = DecodeController::new(&tracks).unwrap();
    let mut expected: Vec<i16> = Vec::new();
    for k in 0..10i16 {
        c.step(DecodeEvent::PacketReady { track_id: 0 });
        c.step(DecodeEvent::Decoded(NativeSampleBuffer::S16(vec![k, k + 100])));
        expected.push(k);
        expected.push(k + 100);
    }
    c.step(DecodeEvent::EndOfStream);
    let out = c.finish().unwrap();
    assert_eq!(out.len(), 20);
    assert_eq!(out, expected);
}

/// An absurdly large declared frame count is only a reservation hint;
/// it must not be trusted into an allocation.
#[test]
fn huge_declared_frame_count_is_safe() {
    let tracks = vec![track(0, 1, Some(u64::MAX))];
    let mut c: DecodeController<i32> = DecodeController::new(&tracks).unwrap();
    c.step(DecodeEvent::EndOfStream);
    assert_eq!(c.finish().unwrap(), Vec::<i32>::new());
}

fn run_once(events: &[DecodeEvent]) -> Result<Vec<i32>, PipelineError> {
    let tracks = vec![track(0, 5, None)];
    let mut c: DecodeController<i32> = DecodeController::new(&tracks)?;
    for ev in events {
        c.step(ev.clone());
    }
    c.finish()
}

/// Decoding the same stream twice, with no external state in between,
/// yields the identical output sequence.
#[test]
fn pipeline_is_deterministic() {
    let events = vec![
        DecodeEvent::PacketReady { track_id: 0 },
        DecodeEvent::Decoded(NativeSampleBuffer::U16(vec![9, 0xffff, 12])),
        DecodeEvent::PacketReady { track_id: 0 },
        DecodeEvent::Decoded(NativeSampleBuffer::Fp64Bits(vec![(2.9f64).to_bits()])),
        DecodeEvent::EndOfStream,
    ];
    let first = run_once(&events).unwrap();
    let second = run_once(&events).unwrap();
    assert_eq!(first, second);
    assert_eq!(first, vec![9, 0xffff, 12, 2]);
}

/// A mid-stream `ResetRequired` on a two-segment container resumes
/// decoding: the track list is re-read, the first decodable track of
/// the refreshed list is selected, and its packets extend the same
/// buffer.
#[test]
fn reset_required_resumes_second_segment() {
    let seg1 = vec![track(1, 5, Some(2))];
    let mut c: DecodeController<i16> = DecodeController::new(&seg1).unwrap();
    c.step(DecodeEvent::PacketReady { track_id: 1 });
    c.step(DecodeEvent::Decoded(NativeSampleBuffer::S16(vec![1, 2])));
    assert_eq!(c.step(DecodeEvent::ResetRequired), DecodeAction::RefreshTracks);
    assert_eq!(c.current_phase(), Phase::Suspended);
    let seg2 = vec![track(8, CODEC_KIND_NULL, None), track(9, 3, None)];
    assert_eq!(c.step(DecodeEvent::TracksChanged(seg2)), DecodeAction::RebuildDecoder);
    assert_eq!(c.current_track().id, 9);
    c.step(DecodeEvent::PacketReady { track_id: 9 });
    c.step(DecodeEvent::Decoded(NativeSampleBuffer::S16(vec![7])));
    c.step(DecodeEvent::EndOfStream);
    assert_eq!(c.finish().unwrap(), vec![1, 2, 7]);
}

/// A reset whose refreshed list has nothing decodable aborts with
/// `NoDecodableTrack`.
#[test]
fn reset_with_no_decodable_track_aborts() {
    let seg1 = vec![track(1, 5, None)];
    let mut c: DecodeController<i16> = DecodeController::new(&seg1).unwrap();
    c.step(DecodeEvent::ResetRequired);
    let seg2 = vec![track(2, CODEC_KIND_NULL, None)];
    assert_eq!(c.step(DecodeEvent::TracksChanged(seg2)), DecodeAction::Halt);
    assert_eq!(c.finish().unwrap_err(), PipelineError::NoDecodableTrack);
}

/// A codec-level decode failure is a structured fatal error for the
/// file, not a panic, and no partial buffer escapes.
#[test]
fn decode_failure_aborts_file() {
    let tracks = vec![track(0, 5, None)];
    let mut c: DecodeController<i32> = DecodeController::new(&tracks).unwrap();
    c.step(DecodeEvent::PacketReady { track_id: 0 });
    c.step(DecodeEvent::Decoded(NativeSampleBuffer::S32(vec![1, 2, 3])));
    c.step(DecodeEvent::PacketReady { track_id: 0 });
    assert_eq!(c.step(DecodeEvent::DecodeFailed), DecodeAction::Halt);
    assert_eq!(c.current_phase(), Phase::Aborted(PipelineError::Decode));
    assert_eq!(c.finish().unwrap_err(), PipelineError::Decode);
}

/// A hard I/O error while requesting packets aborts the file.
#[test]
fn io_failure_aborts_file() {
    let tracks = vec![track(0, 5, None)];
    let mut c: DecodeController<i32> = DecodeController::new(&tracks).unwrap();
    assert_eq!(c.step(DecodeEvent::IoFailure), DecodeAction::Halt);
    assert_eq!(c.finish().unwrap_err(), PipelineError::Io);
}

/// A buffer in a native layout without a defined conversion is a hard
/// `UnsupportedSampleLayout` error, never silently dropped.
#[test]
fn unsupported_layout_aborts_file() {
    let tracks = vec![track(0, 5, None)];
    let mut c: DecodeController<i32> = DecodeController::new(&tracks).unwrap();
    c.step(DecodeEvent::PacketReady { track_id: 0 });
    assert_eq!(
        c.step(DecodeEvent::Decoded(NativeSampleBuffer::Unsupported)),
        DecodeAction::Halt
    );
    assert_eq!(c.finish().unwrap_err(), PipelineError::UnsupportedSampleLayout);
}

/// Every error kind renders a non-empty description.
#[test]
fn error_messages_exist() {
    let errs = vec![
        PipelineError::Io,
        PipelineError::UnsupportedFormat,
        PipelineError::UnsupportedCodec,
        PipelineError::NoDecodableTrack,
        PipelineError::Decode,
        PipelineError::UnsupportedSampleLayout,
    ];
    for e in errs {
        assert!(!e.message().is_empty());
    }
}
