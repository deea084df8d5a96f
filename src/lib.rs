//! Prompts for a video path and an output path, trims what was typed, and
//! decides when the audio extraction may run.
use vstd::prelude::*;

pub mod session;
pub mod text;

verus! {

} // verus!
