//! Speech synthesis: the languages on offer, and the client of the remote
//! text-to-speech service.

pub mod language;
pub mod synth;
