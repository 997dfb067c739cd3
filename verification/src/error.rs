//! The error taxonomy of the decode pipeline.

use vstd::prelude::*;

verus! {

/// Every way one file's pipeline invocation can fail.
///
/// End of stream is deliberately absent: running out of packets is the
/// ordinary termination path, not an error. A mid-stream topology change
/// is absent too: the controller resolves it by reselecting a track.
#[derive(Clone, Copy, Debug, PartialEq, Eq, Structural)]
pub enum PipelineError {
    /// The byte stream could not be opened or read.
    Io,
    /// No installed demuxer recognizes the container format.
    UnsupportedFormat,
    /// A decoder could not be constructed for the selected track's codec.
    UnsupportedCodec,
    /// No track in the container has a known codec.
    NoDecodableTrack,
    /// A packet failed to decode; fatal for the current file.
    Decode,
    /// A decoded buffer arrived in a native layout the normalizer does not
    /// define a conversion for; never silently skipped.
    UnsupportedSampleLayout,
}

impl PipelineError {
    /// A short human-readable description, for callers that report errors.
    pub fn message(&self) -> (m: &'static str)
        ensures
            m@ == self.message_spec(),
    {
        match self {
            PipelineError::Io => "i/o error while reading the stream",
            PipelineError::UnsupportedFormat => "unsupported container format",
            PipelineError::UnsupportedCodec => "unsupported codec",
            PipelineError::NoDecodableTrack => "no decodable track",
            PipelineError::Decode => "packet failed to decode",
            PipelineError::UnsupportedSampleLayout => "unsupported native sample layout",
        }
    }

    pub open spec fn message_spec(self) -> Seq<char> {
        match self {
            PipelineError::Io => "i/o error while reading the stream"@,
            PipelineError::UnsupportedFormat => "unsupported container format"@,
            PipelineError::UnsupportedCodec => "unsupported codec"@,
            PipelineError::NoDecodableTrack => "no decodable track"@,
            PipelineError::Decode => "packet failed to decode"@,
            PipelineError::UnsupportedSampleLayout => "unsupported native sample layout"@,
        }
    }
}

} // verus!
