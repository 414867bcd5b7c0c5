//! Extraction of mono PCM audio from media containers: the policy around
//! time conversion, seeking, packet selection, resampler replacement and
//! sample assembly, stated over plain values and verified.

pub mod decode;
pub mod decoder;
pub mod error;
pub mod packets;
pub mod pcm;
pub mod resample;
pub mod seek;
pub mod srt;
pub mod stream;
pub mod time;
