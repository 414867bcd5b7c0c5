//! Selection of the audio stream to decode.

use vstd::prelude::*;
use crate::error::Error;

verus! {

/// Takes the index of the stream that the container ranks best among its
/// audio streams, if it has any, and fails where it has none.
pub fn find_best_stream(best: Option<usize>) -> (stream_idx: Result<usize, Error>)
    ensures
        best.is_some() ==> stream_idx == Ok::<usize, Error>(best.unwrap()),
        best.is_none() ==> stream_idx == Err::<usize, Error>(Error::NoAudioStreamFound),
{
    match best {
        Some(idx) => Ok(idx),
        None => Err(Error::NoAudioStreamFound),
    }
}

} // verus!
