use vstd::prelude::*;

verus! {

/// The kinds of failure a transcoding run can end with.
#[derive(Debug, Clone, Copy, PartialEq, Eq, Structural)]
pub enum AudioError {
    /// Opening, creating, reading or writing a file failed.
    IoError,
    /// The codec or the sample encoding of the source is not handled.
    UnsupportedFormat,
    /// The source holds no decodable audio track.
    NoAudioTrack,
    /// The speed or the source sample rate is not positive.
    InvalidResampleRatio,
    /// The resampler refused a block.
    ResamplerError,
    /// The encoder could not be built, could not encode or could not flush.
    EncoderError,
    /// No file stem could be derived for naming an output.
    NamingError,
}

} // verus!
