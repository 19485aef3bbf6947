//! Control channel of the Handy dictation app.

use vstd::prelude::*;

pub mod audio;
pub mod cli;
pub mod client;
pub mod endpoint;
pub mod engine_lease;
pub mod handlers;
pub mod paths;
pub mod protocol;
pub mod server;
pub mod shortcut;
pub mod text;
pub mod transport;

verus! {

/// Sample rate every transcription engine expects.
pub const WHISPER_SAMPLE_RATE: u32 = 16000;

} // verus!
