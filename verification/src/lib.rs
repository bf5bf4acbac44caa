//! The core of a bot that reads texts aloud: the dialogue with each user, the
//! splitting of a text into chunks that the speech service takes, the
//! languages on offer, and the client of the speech service.
//!
//! The library does no input or output. It says what is to be sent and which
//! call of the speech service is to be made; what carries the messages makes
//! the call and hands the reply back.

pub mod chars;
pub mod chunk_laws;
pub mod command;
pub mod dialogue;
pub mod dialogue_laws;
pub mod synth;
pub mod text;
pub mod turn;
