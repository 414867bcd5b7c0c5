//! How the decoder is set up: single-threaded, or with frame-level
//! parallelism on every execution unit of the machine.

use vstd::prelude::*;
use crate::error::Error;

verus! {

/// The kind of parallelism that a decoder is asked for.
#[derive(Clone, Copy, Debug, PartialEq, Eq, Structural)]
pub enum ThreadingKind {
    /// Several frames are decoded at once.
    Frame,
    /// Several parts of one frame are decoded at once.
    Slice,
}

/// A threading configuration of a decoder.
#[derive(Clone, Copy, Debug, PartialEq, Eq, Structural)]
pub struct ThreadingConfig {
    pub kind: ThreadingKind,
    pub count: usize,
}

/// The configuration for a decode, given whether threads were asked for
/// and how many execution units the machine has, if that is known.
pub open spec fn spec_threading_config(threaded: bool, available: Option<usize>) -> Result<
    Option<ThreadingConfig>,
    Error,
> {
    if !threaded {
        Ok(None)
    } else {
        match available {
            Some(count) => Ok(Some(ThreadingConfig { kind: ThreadingKind::Frame, count })),
            None => Err(Error::IOError),
        }
    }
}

/// Builds the threading configuration of the decoder: none where threads
/// were not asked for; else frame-level parallelism with one thread for
/// each execution unit. Fails where threads were asked for and the count of
/// units is not known.
pub fn build_threading_config(threaded: bool, available: Option<usize>) -> (config: Result<
    Option<ThreadingConfig>,
    Error,
>)
    ensures
        config == spec_threading_config(threaded, available),
{
    if !threaded {
        return Ok(None);
    }
    match available {
        Some(count) => Ok(Some(ThreadingConfig { kind: ThreadingKind::Frame, count })),
        None => Err(Error::IOError),
    }
}

} // verus!
