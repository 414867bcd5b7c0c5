//! The failures that the extraction pipeline reports.

use vstd::prelude::*;

verus! {

/// Common error type of the pipeline.
#[derive(Clone, Copy, Debug, PartialEq, Eq, Structural)]
pub enum Error {
    /// The container holds no stream of the audio media type.
    NoAudioStreamFound,
    /// The requested seek window does not end before the stream does.
    SeekOutOfBounds,
    /// Rebuilding the resampler for a changed source format did not help.
    UnsupportedFormatTransition,
    /// A decode or resample failure that is not classified otherwise.
    CodecError,
    /// The container could not be read.
    IOError,
}

/// Common result type.
pub type Result<T> = core::result::Result<T, Error>;

} // verus!
