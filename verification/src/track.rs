//! Tracks and the track selector.

use vstd::prelude::*;
use crate::error::PipelineError;

verus! {

/// The codec kind reserved for "null/unknown codec": a track carrying it
/// cannot be decoded and is never selected.
pub const CODEC_KIND_NULL: u64 = 0;

/// One media track, as the pipeline reads it out of the probed container:
/// an identifier, the codec kind (with [`CODEC_KIND_NULL`] as the
/// unknown-codec sentinel), and the frame count the container declares for
/// the track, when it declares one.
#[derive(Clone, Copy, Debug, PartialEq, Eq, Structural)]
pub struct Track {
    pub id: u64,
    pub codec_kind: u64,
    pub n_frames: Option<u64>,
}

impl Track {
    /// A track is decodable exactly when its codec kind is known.
    pub open spec fn is_decodable(self) -> bool {
        self.codec_kind != CODEC_KIND_NULL
    }

    pub fn decodable(&self) -> (b: bool)
        ensures
            b == self.is_decodable(),
    {
        self.codec_kind != CODEC_KIND_NULL
    }
}

/// The first decodable track at or after position `i`, if any.
pub open spec fn first_decodable_from(tracks: Seq<Track>, i: int) -> Option<Track>
    decreases tracks.len() - i,
{
    if i < 0 || i >= tracks.len() {
        None
    } else if tracks[i].is_decodable() {
        Some(tracks[i])
    } else {
        first_decodable_from(tracks, i + 1)
    }
}

/// The first decodable track of the list, if any.
pub open spec fn first_decodable(tracks: Seq<Track>) -> Option<Track> {
    first_decodable_from(tracks, 0)
}

proof fn lemma_first_decodable_from_characterizes(tracks: Seq<Track>, k: int)
    requires
        0 <= k <= tracks.len(),
    ensures
        match first_decodable_from(tracks, k) {
            Some(t) => exists|i: int|
                k <= i < tracks.len() && #[trigger] tracks[i] == t && tracks[i].is_decodable() && (
                forall|j: int| k <= j < i ==> !(#[trigger] tracks[j]).is_decodable()),
            None => forall|j: int| k <= j < tracks.len() ==> !(#[trigger] tracks[j]).is_decodable(),
        },
    decreases tracks.len() - k,
{
    if k < tracks.len() {
        if tracks[k].is_decodable() {
            assert(k <= k < tracks.len() && tracks[k] == tracks[k] && tracks[k].is_decodable() && (
            forall|j: int| k <= j < k ==> !(#[trigger] tracks[j]).is_decodable()));
        } else {
            lemma_first_decodable_from_characterizes(tracks, k + 1);
            match first_decodable_from(tracks, k + 1) {
                Some(t) => {
                    let i = choose|i: int|
                        k + 1 <= i < tracks.len() && #[trigger] tracks[i] == t
                            && tracks[i].is_decodable() && (forall|j: int|
                            k + 1 <= j < i ==> !(#[trigger] tracks[j]).is_decodable());
                    assert(k <= i < tracks.len() && tracks[i] == t && tracks[i].is_decodable() && (
                    forall|j: int| k <= j < i ==> !(#[trigger] tracks[j]).is_decodable()));
                },
                None => {},
            }
        }
    }
}

/// The tie-break is strictly "first in declared order": when the
/// selector yields a track, that track is decodable and every track
/// declared before it is not; when it yields nothing, no track in the
/// whole list is decodable.
pub proof fn lemma_first_decodable_is_first(tracks: Seq<Track>)
    ensures
        match first_decodable(tracks) {
            Some(t) => exists|i: int|
                0 <= i < tracks.len() && #[trigger] tracks[i] == t && tracks[i].is_decodable() && (
                forall|j: int| 0 <= j < i ==> !(#[trigger] tracks[j]).is_decodable()),
            None => forall|j: int|
                0 <= j < tracks.len() ==> !(#[trigger] tracks[j]).is_decodable(),
        },
{
    lemma_first_decodable_from_characterizes(tracks, 0);
}

/// Track selector: returns the first track in declared order whose codec
/// kind is known, and `NoDecodableTrack` exactly when there is none —
/// including when the list is empty. No heuristic, no side effect.
pub fn select_track(tracks: &Vec<Track>) -> (r: Result<Track, PipelineError>)
    ensures
        match r {
            Ok(t) => first_decodable(tracks@) == Some(t),
            Err(e) => e == PipelineError::NoDecodableTrack && first_decodable(tracks@) is None,
        },
{
    let n = tracks.len();
    let mut i: usize = 0;
    while i < n
        invariant
            n == tracks@.len(),
            0 <= i <= n,
            first_decodable(tracks@) == first_decodable_from(tracks@, i as int),
        decreases n - i,
    {
        if tracks[i].decodable() {
            return Ok(tracks[i]);
        }
        i = i + 1;
    }
    Err(PipelineError::NoDecodableTrack)
}

} // verus!
