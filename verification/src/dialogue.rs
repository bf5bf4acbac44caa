//! The dialogue with each user: which language the user has chosen, what is
//! expected next, and what is done with each message.
//!
//! A conversation begins awaiting a command. The choice of a language makes
//! it await a text; the text is then spoken in that language, and the
//! conversation awaits a command again. Where the synthesis fails, the
//! conversation goes on awaiting a text, so that the user can send it again
//! without choosing the language once more.

use crate::command::{Command, Inbound, InboundView};
use crate::synth::language::{Language, LanguageMeta};
use crate::synth::synth::{HttpPost, HttpReply, SynthClient};
use crate::text::split_chunks;
use crate::turn::{SynthesisTurn, TurnStep, TurnStepView, TurnView, MAX_CHUNK_LEN};
use std::collections::HashMap;
use vstd::prelude::*;

verus! {

/// What a conversation is waiting for.
#[derive(Clone, Copy, Debug, PartialEq, Eq, Structural)]
pub enum ConversationState {
    /// No language is chosen.
    AwaitingCommand,
    /// A language is chosen: the next text is to be spoken in it.
    AwaitingText(Language),
}

impl Default for ConversationState {
    /// Every conversation begins awaiting a command.
    fn default() -> (state: ConversationState)
        ensures
            state == ConversationState::AwaitingCommand,
    {
        ConversationState::AwaitingCommand
    }
}

/// What is to be done for a conversation.
#[derive(Debug, PartialEq, Eq)]
pub enum Effect {
    /// `text` is to be sent to the conversation.
    SendText { text: String },
    /// `audio` is to be sent to the conversation as a voice message.
    SendVoice { audio: Vec<u8> },
    /// The call `post` is to be made, and its reply handed back with `turn`.
    Call { turn: SynthesisTurn, post: HttpPost },
}

/// What an `Effect` says.
#[verifier::ext_equal]
pub enum EffectView {
    SendText(Seq<char>),
    SendVoice(Seq<u8>),
    Call(TurnView),
}

impl Effect {
    /// Whether this effect is to send the text `text`.
    pub open spec fn sends_text(self, text: Seq<char>) -> bool {
        self matches Effect::SendText { text: sent } && sent@ == text
    }

    /// Whether this effect is `view`, its call made with the key `key`.
    pub open spec fn is(self, view: EffectView, key: Seq<char>) -> bool {
        match self {
            Effect::SendText { text } => view == EffectView::SendText(text@),
            Effect::SendVoice { audio } => view == EffectView::SendVoice(audio@),
            Effect::Call { turn, post } => {
                &&& view == EffectView::Call(turn@)
                &&& turn@.wf()
                &&& post.asks(key, turn@.asked(), &turn@.language)
            },
        }
    }
}

/// A state to go to, and what is to be done.
#[verifier::ext_equal]
pub struct Reaction {
    pub state: ConversationState,
    pub effect: EffectView,
}

/// The text that asks for a text in `language`.
pub open spec fn prompt_text(language: Language) -> Seq<char> {
    "Send me a plain text in "@ + language.name() + "."@
}

/// The line of the command list that tells of `command`.
pub open spec fn command_line(command: Command) -> Seq<char> {
    "/"@ + command.keyword() + " \u{2014} "@ + command.description()
}

/// The lines that tell of `commands`, one below the other.
pub open spec fn command_lines(commands: Seq<Command>) -> Seq<char>
    decreases commands.len(),
{
    if commands.len() == 0 {
        Seq::empty()
    } else if commands.len() == 1 {
        command_line(commands[0])
    } else {
        command_lines(commands.drop_last()) + "\n"@ + command_line(commands.last())
    }
}

/// The text that lists the commands.
pub open spec fn command_list_text() -> Seq<char> {
    "These commands are supported:\n\n"@ + command_lines(Command::catalogue())
}

/// Where a conversation in `state` goes, and what is done, when its turn of
/// synthesis is at `step`: a call leaves the state as it is; audio is
/// delivered as a voice message, and a command is awaited again; a failure
/// is told to the conversation, and the state stays as it is.
pub open spec fn settle(state: ConversationState, step: TurnStepView) -> Reaction {
    match step {
        TurnStepView::Call(turn) => Reaction { state, effect: EffectView::Call(turn) },
        TurnStepView::Deliver(audio) => Reaction {
            state: ConversationState::AwaitingCommand,
            effect: EffectView::SendVoice(audio),
        },
        TurnStepView::Abort(failure) => Reaction {
            state,
            effect: EffectView::SendText(failure.notice()),
        },
    }
}

/// Where a conversation in `state` goes, and what is done, when `inbound`
/// comes in.
pub open spec fn react(state: ConversationState, inbound: InboundView) -> Reaction {
    let list = Reaction {
        state: ConversationState::AwaitingCommand,
        effect: EffectView::SendText(command_list_text()),
    };
    match inbound {
        InboundView::Command(command) => match command.selected() {
            Some(language) => Reaction {
                state: ConversationState::AwaitingText(language),
                effect: EffectView::SendText(prompt_text(language)),
            },
            None => list,
        },
        InboundView::UnknownCommand => list,
        InboundView::Text(text) => match state {
            ConversationState::AwaitingCommand => list,
            ConversationState::AwaitingText(language) => settle(
                state,
                TurnView::begin(language, split_chunks(text, MAX_CHUNK_LEN as int)),
            ),
        },
        InboundView::NoText => match state {
            ConversationState::AwaitingCommand => list,
            ConversationState::AwaitingText(language) => Reaction {
                state,
                effect: EffectView::SendText(prompt_text(language)),
            },
        },
    }
}

/// The text that asks for a text in `language`.
pub fn prompt(language: Language) -> (text: String)
    ensures
        text@ == prompt_text(language),
{
    let mut text = "Send me a plain text in ".to_owned();
    text.append(language.get_name());
    text.append(".");
    text
}

/// The text that lists the commands.
pub fn command_list() -> (text: String)
    ensures
        text@ == command_list_text(),
{
    let commands = Command::all();
    let mut text = "These commands are supported:\n\n".to_owned();
    let mut i: usize = 0;
    while i < commands.len()
        invariant
            commands@ == Command::catalogue(),
            i <= commands.len(),
            text@ == "These commands are supported:\n\n"@ + command_lines(commands@.take(i as int)),
        decreases commands.len() - i,
    {
        let ghost before = text@;
        if i > 0 {
            text.append("\n");
        }
        text.append("/");
        text.append(commands[i].get_keyword());
        text.append(" \u{2014} ");
        text.append(commands[i].get_description());
        proof {
            let listed = commands@.take(i as int + 1);
            assert(listed.drop_last() =~= commands@.take(i as int));
            assert(listed.last() == commands@[i as int]);
            assert(text@ =~= "These commands are supported:\n\n"@ + command_lines(listed));
        }
        i = i + 1;
    }
    assert(commands@.take(commands@.len() as int) =~= commands@);
    text
}

/// What `step` of a turn of synthesis comes to for a conversation in
/// `state`.
fn settle_step(state: ConversationState, step: TurnStep) -> (reaction: (ConversationState, Effect))
    ensures
        forall|view: TurnStepView, key: Seq<char>| #[trigger]
            step.is(view, key) ==> reaction.0 == settle(state, view).state && reaction.1.is(
                settle(state, view).effect,
                key,
            ),
{
    match step {
        TurnStep::Call { turn, post } => (state, Effect::Call { turn, post }),
        TurnStep::Deliver { audio } => (
            ConversationState::AwaitingCommand,
            Effect::SendVoice { audio },
        ),
        TurnStep::Abort { error } => (state, Effect::SendText { text: error.notice() }),
    }
}

/// Where a conversation in `state` goes, and what is to be done, when
/// `inbound` comes in. Calls of the service are made for `client`.
pub fn respond(client: &SynthClient, state: ConversationState, inbound: Inbound) -> (reaction: (
    ConversationState,
    Effect,
))
    ensures
        reaction.0 == react(state, inbound@).state,
        reaction.1.is(react(state, inbound@).effect, client.api_key()),
{
    match inbound {
        Inbound::Command(command) => match command.language() {
            Some(language) => (
                ConversationState::AwaitingText(language),
                Effect::SendText { text: prompt(language) },
            ),
            None => (ConversationState::AwaitingCommand, Effect::SendText { text: command_list() }),
        },
        Inbound::UnknownCommand => (
            ConversationState::AwaitingCommand,
            Effect::SendText { text: command_list() },
        ),
        Inbound::Text(text) => match state {
            ConversationState::AwaitingCommand => (
                ConversationState::AwaitingCommand,
                Effect::SendText { text: command_list() },
            ),
            ConversationState::AwaitingText(language) => {
                let step = SynthesisTurn::begin(client, language, text.as_str());
                settle_step(state, step)
            },
        },
        Inbound::NoText => match state {
            ConversationState::AwaitingCommand => (
                ConversationState::AwaitingCommand,
                Effect::SendText { text: command_list() },
            ),
            ConversationState::AwaitingText(language) => (
                state,
                Effect::SendText { text: prompt(language) },
            ),
        },
    }
}

/// Where a conversation in `state` goes, and what is to be done, when the
/// call that `turn` waits for has come to `reply`.
pub fn resume(
    client: &SynthClient,
    state: ConversationState,
    turn: SynthesisTurn,
    reply: HttpReply,
) -> (reaction: (ConversationState, Effect))
    ensures
        reaction.0 == settle(state, turn@.next(reply.outcome())).state,
        reaction.1.is(settle(state, turn@.next(reply.outcome())).effect, client.api_key()),
{
    let step = turn.on_reply(client, reply);
    settle_step(state, step)
}

/// The dialogues of all conversations: the state of each, kept under the
/// identifier of the conversation, and the client of the speech service. A
/// conversation that has not been heard of awaits a command. The states live
/// as long as the engine and are kept nowhere else.
pub struct DialogueEngine {
    client: SynthClient,
    states: HashMap<i64, ConversationState>,
}

impl DialogueEngine {
    /// The states that are kept, by conversation.
    pub closed spec fn states(&self) -> Map<i64, ConversationState> {
        self.states@
    }

    /// The key with which the engine's calls of the service are made.
    pub closed spec fn api_key(&self) -> Seq<char> {
        self.client.api_key()
    }

    /// The state of `conversation`.
    pub open spec fn state(&self, conversation: i64) -> ConversationState {
        if self.states().contains_key(conversation) {
            self.states()[conversation]
        } else {
            ConversationState::AwaitingCommand
        }
    }

    /// An engine in which every conversation awaits a command.
    pub fn new(client: SynthClient) -> (engine: DialogueEngine)
        ensures
            engine.api_key() == client.api_key(),
            engine.states() == Map::<i64, ConversationState>::empty(),
            forall|conversation: i64|
                #[trigger] engine.state(conversation) == ConversationState::AwaitingCommand,
    {
        DialogueEngine { client, states: HashMap::new() }
    }

    /// The state of `conversation`.
    pub fn state_of(&self, conversation: i64) -> (state: ConversationState)
        ensures
            state == self.state(conversation),
    {
        broadcast use vstd::std_specs::hash::group_hash_axioms;

        match self.states.get(&conversation) {
            Some(state) => *state,
            None => ConversationState::default(),
        }
    }

    /// Takes `inbound` for `conversation`: the conversation goes to its next
    /// state, and what is to be done is handed back. No other conversation
    /// changes.
    pub fn on_message(&mut self, conversation: i64, inbound: Inbound) -> (effect: Effect)
        ensures
            final(self).api_key() == old(self).api_key(),
            final(self).state(conversation) == react(old(self).state(conversation), inbound@).state,
            effect.is(react(old(self).state(conversation), inbound@).effect, old(self).api_key()),
            forall|other: i64|
                other != conversation ==> #[trigger] final(self).state(other) == old(self).state(
                    other,
                ),
            inbound@ matches InboundView::Command(command) ==> (command.selected() matches Some(
                language,
            ) ==> final(self).state(conversation) == ConversationState::AwaitingText(language)
                && effect.sends_text(prompt_text(language))),
            old(self).state(conversation) matches ConversationState::AwaitingText(language) ==> (
            inbound@ == InboundView::NoText ==> final(self).state(conversation) == old(self).state(
                conversation,
            ) && effect.sends_text(prompt_text(language))),
    {
        broadcast use vstd::std_specs::hash::group_hash_axioms;

        let state = self.state_of(conversation);
        let reaction = respond(&self.client, state, inbound);
        self.states.insert(conversation, reaction.0);
        reaction.1
    }

    /// Takes `reply` for the call that `turn` of `conversation` waits for:
    /// the conversation goes to its next state, and what is to be done is
    /// handed back. No other conversation changes.
    pub fn on_reply(&mut self, conversation: i64, turn: SynthesisTurn, reply: HttpReply) -> (effect:
        Effect)
        ensures
            final(self).api_key() == old(self).api_key(),
            final(self).state(conversation) == settle(
                old(self).state(conversation),
                turn@.next(reply.outcome()),
            ).state,
            effect.is(
                settle(old(self).state(conversation), turn@.next(reply.outcome())).effect,
                old(self).api_key(),
            ),
            forall|other: i64|
                other != conversation ==> #[trigger] final(self).state(other) == old(self).state(
                    other,
                ),
    {
        broadcast use vstd::std_specs::hash::group_hash_axioms;

        let state = self.state_of(conversation);
        let reaction = resume(&self.client, state, turn, reply);
        self.states.insert(conversation, reaction.0);
        reaction.1
    }
}

} // verus!
