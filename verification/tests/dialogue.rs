use base64::Engine;
use teloxide::utils::command::{CommandDescription, CommandDescriptions};
use tts_chat::command::{Command, Inbound};
use tts_chat::dialogue::{
    command_list, prompt, respond, resume, ConversationState, DialogueEngine, Effect,
};
use tts_chat::synth::language::{English, Language, Polish, Portuguese};
use tts_chat::synth::synth::{
    DecodeFailure, HttpPost, HttpReply, SynthClient, SynthError, SynthesizeResponse,
};
use tts_chat::text::split_text_into_chunks;
use tts_chat::turn::{SynthesisTurn, TurnStep, MAX_CHUNK_LEN};

const POLISH: Language = Language::Polish(Polish);

fn engine() -> DialogueEngine {
    DialogueEngine::new(SynthClient::create("key"))
}

fn audio_reply(audio: &[u8]) -> HttpReply {
    let encoded = base64::engine::general_purpose::STANDARD.encode(audio);
    HttpReply::Answered {
        status: 200,
        body: format!("{{\"audioContent\":\"{}\"}}", encoded),
        response: Some(SynthesizeResponse { audio_content: encoded }),
    }
}

fn text(effect: Effect) -> String {
    match effect {
        Effect::SendText { text } => text,
        other => panic!("no text: {:?}", other),
    }
}

fn call(effect: Effect) -> (SynthesisTurn, HttpPost) {
    match effect {
        Effect::Call { turn, post } => (turn, post),
        other => panic!("no call: {:?}", other),
    }
}

fn long_text() -> String {
    let mut text = String::new();
    let mut n = 0;
    while n < 400 {
        text.push_str(&format!("This is sentence number {} of a rather long text. ", n));
        n += 1;
    }
    text
}

#[test]
fn chunks_hold_at_most_5000_characters() {
    assert_eq!(MAX_CHUNK_LEN, 5000);
}

#[test]
fn every_conversation_begins_awaiting_a_command() {
    assert_eq!(ConversationState::default(), ConversationState::AwaitingCommand);
    let engine = engine();
    assert_eq!(engine.state_of(0), ConversationState::AwaitingCommand);
    assert_eq!(engine.state_of(-42), ConversationState::AwaitingCommand);
    assert_eq!(engine.state_of(i64::MAX), ConversationState::AwaitingCommand);
}

#[test]
fn prompt_names_the_language() {
    assert_eq!(prompt(POLISH), "Send me a plain text in Polish.");
    assert_eq!(prompt(Language::Portuguese(Portuguese)), "Send me a plain text in Portuguese.");
    for language in Language::all() {
        assert!(prompt(language).contains(tts_chat::synth::language::LanguageMeta::get_name(&language)));
    }
}

#[test]
fn command_list_tells_of_every_command() {
    assert_eq!(
        command_list(),
        "These commands are supported:\n\n\
         /help \u{2014} display this text.\n\
         /portuguese \u{2014} read a text in Portuguese.\n\
         /polish \u{2014} read a text in Polish.\n\
         /english \u{2014} read a text in English.\n\
         /spanish \u{2014} read a text in Spanish.\n\
         /italian \u{2014} read a text in Italian."
    );
}

#[test]
fn command_list_reads_as_teloxide_writes_it() {
    let commands = Command::all();
    let descriptions: Vec<CommandDescription> = commands
        .iter()
        .map(|command| CommandDescription {
            prefix: "/",
            command: command.get_keyword(),
            aliases: &[],
            description: command.get_description(),
        })
        .collect();
    let expected = CommandDescriptions::new(&descriptions)
        .global_description("These commands are supported:")
        .to_string();
    assert_eq!(command_list(), expected);
}

#[test]
fn selecting_polish_awaits_text_and_text_is_spoken() {
    let mut engine = engine();
    assert_eq!(engine.state_of(1), ConversationState::AwaitingCommand);

    let effect = engine.on_message(1, Inbound::Command(Command::Polish));
    assert_eq!(engine.state_of(1), ConversationState::AwaitingText(POLISH));
    assert_eq!(text(effect), "Send me a plain text in Polish.");

    let effect = engine.on_message(1, Inbound::Text("Dzień dobry. Jak się masz?".to_string()));
    assert_eq!(engine.state_of(1), ConversationState::AwaitingText(POLISH));
    let (turn, post) = call(effect);
    assert_eq!(turn.language(), POLISH);
    assert_eq!(post.key, "key");
    assert_eq!(post.body.input.text, "Dzień dobry. Jak się masz?");
    assert_eq!(post.body.voice.language_code, "pl-PL");
    assert_eq!(post.body.voice.name, "pl-PL-Wavenet-B");

    let effect = engine.on_reply(1, turn, audio_reply(b"OggS-audio"));
    assert_eq!(effect, Effect::SendVoice { audio: b"OggS-audio".to_vec() });
    assert_eq!(engine.state_of(1), ConversationState::AwaitingCommand);
}

#[test]
fn each_chunk_is_synthesized_once_and_in_order() {
    let long = long_text();
    let chunks = split_text_into_chunks(&long, 5000);
    assert!(chunks.len() >= 3);

    let mut engine = engine();
    engine.on_message(9, Inbound::Command(Command::English));
    let mut effect = engine.on_message(9, Inbound::Text(long.clone()));
    let mut asked = Vec::new();
    let mut expected_audio = Vec::new();
    let audio = loop {
        match effect {
            Effect::Call { turn, post } => {
                assert_eq!(engine.state_of(9), ConversationState::AwaitingText(Language::English(English)));
                assert_eq!(post.body.voice.name, "en-GB-Neural2-B");
                let piece = format!("<audio {}>", asked.len()).into_bytes();
                expected_audio.extend_from_slice(&piece);
                asked.push(post.body.input.text);
                effect = engine.on_reply(9, turn, audio_reply(&piece));
            }
            Effect::SendVoice { audio } => break audio,
            Effect::SendText { text } => panic!("failed: {}", text),
        }
    };
    assert_eq!(asked, chunks);
    assert_eq!(audio, expected_audio);
    assert_eq!(engine.state_of(9), ConversationState::AwaitingCommand);
}

#[test]
fn non_text_message_while_awaiting_text_asks_again() {
    let mut engine = engine();
    for language in Language::all() {
        engine.on_message(3, Inbound::Command(Command::choosing(language)));
        let effect = engine.on_message(3, Inbound::NoText);
        assert_eq!(effect, Effect::SendText { text: prompt(language) });
        assert_eq!(engine.state_of(3), ConversationState::AwaitingText(language));
    }
}

#[test]
fn anything_but_a_choice_brings_the_command_list_while_awaiting_a_command() {
    let mut engine = engine();
    let list = command_list();
    for inbound in [
        Inbound::Command(Command::Help),
        Inbound::UnknownCommand,
        Inbound::Text("Hello.".to_string()),
        Inbound::NoText,
    ] {
        let effect = engine.on_message(5, inbound);
        assert_eq!(effect, Effect::SendText { text: list.clone() });
        assert_eq!(engine.state_of(5), ConversationState::AwaitingCommand);
    }
}

#[test]
fn help_and_unknown_commands_await_a_command_again() {
    let mut engine = engine();
    for inbound in [Inbound::Command(Command::Help), Inbound::UnknownCommand] {
        engine.on_message(5, Inbound::Command(Command::Spanish));
        let effect = engine.on_message(5, inbound);
        assert_eq!(effect, Effect::SendText { text: command_list() });
        assert_eq!(engine.state_of(5), ConversationState::AwaitingCommand);
    }
}

#[test]
fn another_choice_changes_the_language() {
    let mut engine = engine();
    engine.on_message(5, Inbound::Command(Command::Spanish));
    let effect = engine.on_message(5, Inbound::Command(Command::Italian));
    assert_eq!(text(effect), "Send me a plain text in Italian.");
    assert_eq!(
        engine.state_of(5),
        ConversationState::AwaitingText(Command::Italian.language().unwrap())
    );
}

#[test]
fn failure_is_told_and_the_language_stays_chosen() {
    let failures = [
        (
            HttpReply::Failed { reason: "connection reset".to_string() },
            SynthError::Transport { reason: "connection reset".to_string() },
        ),
        (
            HttpReply::Answered { status: 403, body: "forbidden".to_string(), response: None },
            SynthError::RemoteService { status: 403, body: "forbidden".to_string() },
        ),
        (
            HttpReply::Answered { status: 200, body: "{}".to_string(), response: None },
            SynthError::Decode(DecodeFailure::MissingAudioContent),
        ),
        (
            HttpReply::Answered {
                status: 200,
                body: String::new(),
                response: Some(SynthesizeResponse { audio_content: "***".to_string() }),
            },
            SynthError::Decode(DecodeFailure::InvalidBase64),
        ),
    ];
    for (reply, error) in failures {
        let mut engine = engine();
        engine.on_message(2, Inbound::Command(Command::Polish));
        let (turn, _) = call(engine.on_message(2, Inbound::Text("Raz. Dwa.".to_string())));
        let effect = engine.on_reply(2, turn, reply);
        assert_eq!(effect, Effect::SendText { text: error.notice() });
        assert_eq!(engine.state_of(2), ConversationState::AwaitingText(POLISH));
    }
}

#[test]
fn failure_in_a_later_chunk_delivers_nothing() {
    let long = long_text();
    let mut engine = engine();
    engine.on_message(4, Inbound::Command(Command::Polish));
    let (turn, _) = call(engine.on_message(4, Inbound::Text(long)));
    let (turn, _) = call(engine.on_reply(4, turn, audio_reply(b"first")));
    let effect = engine.on_reply(
        4,
        turn,
        HttpReply::Answered { status: 500, body: "oops".to_string(), response: None },
    );
    assert_eq!(
        text(effect),
        "The speech service refused the request with status 500: oops"
    );
    assert_eq!(engine.state_of(4), ConversationState::AwaitingText(POLISH));
}

#[test]
fn text_without_any_sentence_delivers_no_audio() {
    let mut engine = engine();
    engine.on_message(6, Inbound::Command(Command::Polish));
    let effect = engine.on_message(6, Inbound::Text("  \n ".to_string()));
    assert_eq!(effect, Effect::SendVoice { audio: Vec::new() });
    assert_eq!(engine.state_of(6), ConversationState::AwaitingCommand);
}

#[test]
fn conversations_do_not_touch_each_other() {
    let mut engine = engine();
    engine.on_message(1, Inbound::Command(Command::Polish));
    engine.on_message(2, Inbound::Command(Command::English));
    assert_eq!(engine.state_of(1), ConversationState::AwaitingText(POLISH));
    assert_eq!(engine.state_of(2), ConversationState::AwaitingText(Language::English(English)));
    assert_eq!(engine.state_of(3), ConversationState::AwaitingCommand);
    let (turn, _) = call(engine.on_message(2, Inbound::Text("Hello.".to_string())));
    engine.on_message(1, Inbound::NoText);
    engine.on_reply(2, turn, audio_reply(b"x"));
    assert_eq!(engine.state_of(1), ConversationState::AwaitingText(POLISH));
    assert_eq!(engine.state_of(2), ConversationState::AwaitingCommand);
    assert_eq!(engine.state_of(3), ConversationState::AwaitingCommand);
}

#[test]
fn respond_and_resume_work_on_a_state_alone() {
    let client = SynthClient::create("abc");
    let (state, effect) = respond(&client, ConversationState::AwaitingCommand, Inbound::Command(Command::Polish));
    assert_eq!(state, ConversationState::AwaitingText(POLISH));
    assert_eq!(text(effect), "Send me a plain text in Polish.");
    let (state, effect) = respond(&client, state, Inbound::Text("Tak.".to_string()));
    assert_eq!(state, ConversationState::AwaitingText(POLISH));
    let (turn, post) = call(effect);
    assert_eq!(post.key, "abc");
    assert_eq!(post.body.input.text, "Tak.");
    let (state, effect) = resume(&client, state, turn, audio_reply(&[1, 2, 3]));
    assert_eq!(state, ConversationState::AwaitingCommand);
    assert_eq!(effect, Effect::SendVoice { audio: vec![1, 2, 3] });
}

#[test]
fn turn_begins_with_the_first_chunk() {
    let client = SynthClient::create("abc");
    match SynthesisTurn::begin(&client, POLISH, "") {
        TurnStep::Deliver { audio } => assert!(audio.is_empty()),
        other => panic!("{:?}", other),
    }
    match SynthesisTurn::begin(&client, POLISH, "Raz. Dwa. Trzy.") {
        TurnStep::Call { turn, post } => {
            assert_eq!(post.body.input.text, "Raz. Dwa. Trzy.");
            match turn.on_reply(&client, audio_reply(b"abc")) {
                TurnStep::Deliver { audio } => assert_eq!(audio, b"abc"),
                other => panic!("{:?}", other),
            }
        }
        other => panic!("{:?}", other),
    }
    match SynthesisTurn::begin(&client, POLISH, "Raz.") {
        TurnStep::Call { turn, .. } => {
            let reply = HttpReply::Failed { reason: "down".to_string() };
            assert_eq!(
                turn.on_reply(&client, reply),
                TurnStep::Abort { error: SynthError::Transport { reason: "down".to_string() } }
            );
        }
        other => panic!("{:?}", other),
    }
}
