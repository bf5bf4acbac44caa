//! One turn of synthesis: the chunks of a text go to the service one after
//! the other, and the audio that comes back is put together in that order.
//! The turn says which call is to be made next; what makes the call hands the
//! reply back.

use crate::synth::language::Language;
use crate::synth::synth::{HttpPost, HttpReply, SynthClient, SynthError, SynthFailure};
use crate::text::{split_chunks, split_text_into_chunks, texts};
use vstd::prelude::*;

verus! {

/// The most characters that go to the service in one call.
pub const MAX_CHUNK_LEN: usize = 5000;

/// A turn that waits for the answer to a call.
#[derive(Debug, PartialEq, Eq)]
pub struct SynthesisTurn {
    language: Language,
    chunks: Vec<String>,
    done: usize,
    audio: Vec<u8>,
}

/// What a `SynthesisTurn` holds: the language, the chunks of the text, how
/// many of them are synthesized, and their audio.
#[verifier::ext_equal]
pub struct TurnView {
    pub language: Language,
    pub chunks: Seq<Seq<char>>,
    pub done: nat,
    pub audio: Seq<u8>,
}

/// What a `TurnStep` says.
#[verifier::ext_equal]
pub enum TurnStepView {
    Call(TurnView),
    Deliver(Seq<u8>),
    Abort(SynthFailure),
}

impl TurnView {
    /// A call is outstanding: not all chunks are synthesized.
    pub open spec fn wf(self) -> bool {
        self.done < self.chunks.len()
    }

    /// The text that the outstanding call asks for.
    pub open spec fn asked(self) -> Seq<char> {
        self.chunks[self.done as int]
    }

    /// How a turn begins: with the call for the first chunk, or, where there
    /// is no chunk, with the delivery of no audio.
    pub open spec fn begin(language: Language, chunks: Seq<Seq<char>>) -> TurnStepView {
        if chunks.len() == 0 {
            TurnStepView::Deliver(Seq::empty())
        } else {
            TurnStepView::Call(TurnView { language, chunks, done: 0, audio: Seq::empty() })
        }
    }

    /// How a turn goes on when the outstanding call comes to `outcome`: a
    /// failure ends it, and nothing is delivered; audio joins what is there,
    /// and the call for the next chunk follows, or, after the last chunk, the
    /// delivery of all the audio.
    pub open spec fn next(self, outcome: Result<Seq<u8>, SynthFailure>) -> TurnStepView {
        match outcome {
            Err(failure) => TurnStepView::Abort(failure),
            Ok(bytes) => if self.done + 1 < self.chunks.len() {
                TurnStepView::Call(
                    TurnView {
                        language: self.language,
                        chunks: self.chunks,
                        done: self.done + 1,
                        audio: self.audio + bytes,
                    },
                )
            } else {
                TurnStepView::Deliver(self.audio + bytes)
            },
        }
    }
}

impl View for SynthesisTurn {
    type V = TurnView;

    closed spec fn view(&self) -> TurnView {
        TurnView {
            language: self.language,
            chunks: texts(self.chunks@),
            done: self.done as nat,
            audio: self.audio@,
        }
    }
}

/// What is to happen next in a turn.
#[derive(Debug, PartialEq, Eq)]
pub enum TurnStep {
    /// The call `post` is to be made, and its reply handed to `turn`.
    Call { turn: SynthesisTurn, post: HttpPost },
    /// The turn is over: `audio` is to be delivered.
    Deliver { audio: Vec<u8> },
    /// The turn is over: it failed with `error`.
    Abort { error: SynthError },
}

impl TurnStep {
    /// Whether this step is `view`, its call made with the key `key`.
    pub open spec fn is(self, view: TurnStepView, key: Seq<char>) -> bool {
        match self {
            TurnStep::Call { turn, post } => {
                &&& view == TurnStepView::Call(turn@)
                &&& turn@.wf()
                &&& post.asks(key, turn@.asked(), &turn@.language)
            },
            TurnStep::Deliver { audio } => view == TurnStepView::Deliver(audio@),
            TurnStep::Abort { error } => view == TurnStepView::Abort(error@),
        }
    }
}

impl SynthesisTurn {
    #[verifier::type_invariant]
    spec fn outstanding(self) -> bool {
        self.done < self.chunks.len()
    }

    /// The language of the turn.
    pub fn language(&self) -> (language: Language)
        ensures
            language == self@.language,
    {
        self.language
    }

    /// The step that this turn is at: the call for the next chunk.
    fn call(self, client: &SynthClient) -> (step: TurnStep)
        ensures
            step.is(TurnStepView::Call(self@), client.api_key()),
    {
        proof {
            use_type_invariant(&self);
        }
        let post = client.request(self.chunks[self.done].as_str(), &self.language);
        TurnStep::Call { turn: self, post }
    }

    /// Begins the turn that speaks `text` in `language`: the text is split
    /// into chunks of at most `MAX_CHUNK_LEN` characters.
    pub fn begin(client: &SynthClient, language: Language, text: &str) -> (step: TurnStep)
        ensures
            step.is(
                TurnView::begin(language, split_chunks(text@, MAX_CHUNK_LEN as int)),
                client.api_key(),
            ),
    {
        let chunks = split_text_into_chunks(text, MAX_CHUNK_LEN);
        if chunks.len() == 0 {
            TurnStep::Deliver { audio: Vec::new() }
        } else {
            let turn = SynthesisTurn { language, chunks, done: 0, audio: Vec::new() };
            turn.call(client)
        }
    }

    /// Goes on with the turn, now that the outstanding call has come to
    /// `reply`.
    pub fn on_reply(self, client: &SynthClient, reply: HttpReply) -> (step: TurnStep)
        ensures
            step.is(self@.next(reply.outcome()), client.api_key()),
    {
        proof {
            use_type_invariant(&self);
        }
        match SynthClient::read_reply(reply) {
            Err(error) => TurnStep::Abort { error },
            Ok(mut bytes) => {
                let SynthesisTurn { language, chunks, done, mut audio } = self;
                audio.append(&mut bytes);
                if done + 1 < chunks.len() {
                    let turn = SynthesisTurn { language, chunks, done: done + 1, audio };
                    turn.call(client)
                } else {
                    TurnStep::Deliver { audio }
                }
            },
        }
    }
}

} // verus!
