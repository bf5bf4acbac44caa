//! What holds of every dialogue and of every turn of synthesis.

use crate::command::{Command, InboundView};
use crate::dialogue::{prompt_text, react, settle, ConversationState, EffectView, Reaction};
use crate::synth::language::{lemma_catalogue_is_complete, Language, LanguageMeta};
use crate::synth::synth::SynthFailure;
use crate::text::split_chunks;
use crate::turn::{TurnStepView, TurnView, MAX_CHUNK_LEN};
use vstd::prelude::*;

verus! {

/// The outcomes of calls that all brought audio: `pieces`, in order.
pub open spec fn good(pieces: Seq<Seq<u8>>) -> Seq<Result<Seq<u8>, SynthFailure>> {
    Seq::new(pieces.len(), |i: int| Ok(pieces[i]))
}

/// The step that a turn is at when it was at `step` and its calls have come
/// to `outcomes`, one after the other. A turn that is over stays as it is.
pub open spec fn run(
    step: TurnStepView,
    outcomes: Seq<Result<Seq<u8>, SynthFailure>>,
) -> TurnStepView
    decreases outcomes.len(),
{
    if outcomes.len() == 0 {
        step
    } else {
        match run(step, outcomes.drop_last()) {
            TurnStepView::Call(turn) => turn.next(outcomes.last()),
            over => over,
        }
    }
}

/// A turn calls the service once for each chunk, in the order of the chunks:
/// when the first `k` calls have brought audio, the turn asks for chunk `k`
/// and holds the audio of the chunks before it, in their order; after the
/// last chunk it delivers the audio of all chunks, in their order.
pub proof fn lemma_turn_takes_chunks_in_order(
    language: Language,
    chunks: Seq<Seq<char>>,
    pieces: Seq<Seq<u8>>,
    k: int,
)
    requires
        0 <= k <= pieces.len(),
        k <= chunks.len(),
    ensures
        run(TurnView::begin(language, chunks), good(pieces.take(k))) == if k < chunks.len() {
            TurnStepView::Call(
                TurnView { language, chunks, done: k as nat, audio: pieces.take(k).flatten() },
            )
        } else {
            TurnStepView::Deliver(pieces.take(k).flatten())
        },
        k < chunks.len() ==> run(
            TurnView::begin(language, chunks),
            good(pieces.take(k)),
        )->Call_0.asked() == chunks[k],
    decreases k,
{
    if k == 0 {
        assert(good(pieces.take(0)) =~= Seq::empty());
        assert(pieces.take(0).flatten() =~= Seq::empty());
    } else {
        lemma_turn_takes_chunks_in_order(language, chunks, pieces, k - 1);
        let outcomes = good(pieces.take(k));
        assert(outcomes.drop_last() =~= good(pieces.take(k - 1)));
        assert(outcomes.last() == Ok::<Seq<u8>, SynthFailure>(pieces[k - 1]));
        assert(pieces.take(k) =~= pieces.take(k - 1).push(pieces[k - 1]));
        pieces.take(k - 1).lemma_flatten_push(pieces[k - 1]);
    }
}

/// A turn delivers all or nothing: where a call fails, the turn ends with
/// that failure, whatever audio the calls before it have brought, and no
/// call is made after it.
pub proof fn lemma_turn_fails_as_a_whole(
    language: Language,
    chunks: Seq<Seq<char>>,
    pieces: Seq<Seq<u8>>,
    failure: SynthFailure,
    later: Seq<Result<Seq<u8>, SynthFailure>>,
)
    requires
        pieces.len() < chunks.len(),
    ensures
        run(TurnView::begin(language, chunks), good(pieces).push(Err(failure)) + later)
            == TurnStepView::Abort(failure),
    decreases later.len(),
{
    let first = good(pieces).push(Err(failure));
    if later.len() == 0 {
        assert(first + later =~= first);
        assert(first.drop_last() =~= good(pieces));
        assert(pieces.take(pieces.len() as int) =~= pieces);
        lemma_turn_takes_chunks_in_order(language, chunks, pieces, pieces.len() as int);
    } else {
        assert((first + later).drop_last() =~= first + later.drop_last());
        lemma_turn_fails_as_a_whole(language, chunks, pieces, failure, later.drop_last());
    }
}

/// The choice of a language, in whatever state, makes the conversation await
/// a text in that language, and the user is asked for a text in a sentence
/// that names the language.
pub proof fn lemma_choice_of_language(
    state: ConversationState,
    command: Command,
    language: Language,
)
    requires
        command.selected() == Some(language),
    ensures
        react(state, InboundView::Command(command)) == (Reaction {
            state: ConversationState::AwaitingText(language),
            effect: EffectView::SendText(prompt_text(language)),
        }),
        ({
            let at = "Send me a plain text in "@.len() as int;
            prompt_text(language).subrange(at, at + language.name().len()) == language.name()
        }),
{
    let at = "Send me a plain text in "@.len() as int;
    assert(prompt_text(language).subrange(at, at + language.name().len()) =~= language.name());
}

/// Help, and a command that is none of the commands, in whatever state, bring
/// the list of commands, and the conversation awaits a command.
pub proof fn lemma_help_lists_commands(state: ConversationState)
    ensures
        react(state, InboundView::Command(Command::Help)).state
            == ConversationState::AwaitingCommand,
        react(state, InboundView::UnknownCommand).state == ConversationState::AwaitingCommand,
        react(state, InboundView::Command(Command::Help)).effect == react(
            ConversationState::AwaitingCommand,
            InboundView::NoText,
        ).effect,
        react(state, InboundView::UnknownCommand).effect == react(
            ConversationState::AwaitingCommand,
            InboundView::NoText,
        ).effect,
{
}

/// A message without text, sent while a text in `language` is awaited,
/// leaves the state as it is, and the user is asked for a text in `language`
/// again.
pub proof fn lemma_no_text_asks_again(language: Language)
    ensures
        react(ConversationState::AwaitingText(language), InboundView::NoText) == (Reaction {
            state: ConversationState::AwaitingText(language),
            effect: EffectView::SendText(prompt_text(language)),
        }),
{
}

/// A text that is sent while a text in `language` is awaited is spoken in
/// `language`: chunk by chunk, in order, with one call for each chunk; while
/// calls are outstanding the state stays as it is; and when every call has
/// brought audio, the audio of all chunks, in their order, is sent as one
/// voice message and the conversation awaits a command again.
pub proof fn lemma_text_is_spoken(
    language: Language,
    text: Seq<char>,
    pieces: Seq<Seq<u8>>,
    k: int,
)
    requires
        0 <= k <= pieces.len(),
        pieces.len() == split_chunks(text, MAX_CHUNK_LEN as int).len(),
    ensures
        ({
            let state = ConversationState::AwaitingText(language);
            let chunks = split_chunks(text, MAX_CHUNK_LEN as int);
            let begun = TurnView::begin(language, chunks);
            &&& react(state, InboundView::Text(text)) == settle(state, begun)
            &&& k < pieces.len() ==> settle(state, run(begun, good(pieces.take(k)))) == (Reaction {
                state,
                effect: EffectView::Call(
                    TurnView { language, chunks, done: k as nat, audio: pieces.take(k).flatten() },
                ),
            })
            &&& settle(state, run(begun, good(pieces))) == (Reaction {
                state: ConversationState::AwaitingCommand,
                effect: EffectView::SendVoice(pieces.flatten()),
            })
        }),
{
    let chunks = split_chunks(text, MAX_CHUNK_LEN as int);
    lemma_turn_takes_chunks_in_order(language, chunks, pieces, k);
    lemma_turn_takes_chunks_in_order(language, chunks, pieces, pieces.len() as int);
    assert(pieces.take(pieces.len() as int) =~= pieces);
}

/// Where the synthesis fails, the failure is told to the conversation, and
/// the conversation goes on awaiting a text in the language that was chosen.
pub proof fn lemma_failure_keeps_language(language: Language, turn: TurnView, failure: SynthFailure)
    ensures
        settle(ConversationState::AwaitingText(language), turn.next(Err(failure))) == (Reaction {
            state: ConversationState::AwaitingText(language),
            effect: EffectView::SendText(failure.notice()),
        }),
{
}

/// The language that a conversation awaits a text in is one of the languages
/// on offer.
pub proof fn lemma_awaited_language_is_on_offer(state: ConversationState)
    ensures
        state matches ConversationState::AwaitingText(language) ==> Language::catalogue().contains(
            language,
        ),
{
    if let ConversationState::AwaitingText(language) = state {
        lemma_catalogue_is_complete(language);
    }
}

} // verus!
