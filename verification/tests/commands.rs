use tts_chat::command::{Command, Inbound};
use tts_chat::synth::language::{English, Italian, Language, Polish, Portuguese, Spanish};

#[test]
fn commands_are_listed_in_order() {
    assert_eq!(
        Command::all(),
        vec![
            Command::Help,
            Command::Portuguese,
            Command::Polish,
            Command::English,
            Command::Spanish,
            Command::Italian,
        ]
    );
}

#[test]
fn each_command_has_keyword_and_description() {
    let expected = [
        (Command::Help, "help", "display this text."),
        (Command::Portuguese, "portuguese", "read a text in Portuguese."),
        (Command::Polish, "polish", "read a text in Polish."),
        (Command::English, "english", "read a text in English."),
        (Command::Spanish, "spanish", "read a text in Spanish."),
        (Command::Italian, "italian", "read a text in Italian."),
    ];
    for (command, keyword, description) in expected {
        assert_eq!(command.get_keyword(), keyword);
        assert_eq!(command.get_description(), description);
    }
}

#[test]
fn each_language_command_chooses_its_language() {
    assert_eq!(Command::Help.language(), None);
    assert_eq!(Command::Portuguese.language(), Some(Language::Portuguese(Portuguese)));
    assert_eq!(Command::Polish.language(), Some(Language::Polish(Polish)));
    assert_eq!(Command::English.language(), Some(Language::English(English)));
    assert_eq!(Command::Spanish.language(), Some(Language::Spanish(Spanish)));
    assert_eq!(Command::Italian.language(), Some(Language::Italian(Italian)));
    for language in Language::all() {
        assert_eq!(Command::choosing(language).language(), Some(language));
    }
}

#[test]
fn keywords_are_case_insensitive() {
    assert_eq!(Command::from_keyword("help"), Some(Command::Help));
    assert_eq!(Command::from_keyword("HELP"), Some(Command::Help));
    assert_eq!(Command::from_keyword("Polish"), Some(Command::Polish));
    assert_eq!(Command::from_keyword("pOrTuGuEsE"), Some(Command::Portuguese));
    for command in Command::all() {
        assert_eq!(Command::from_keyword(command.get_keyword()), Some(command));
        assert_eq!(Command::from_keyword(&command.get_keyword().to_uppercase()), Some(command));
    }
}

#[test]
fn other_keywords_give_no_command() {
    for keyword in ["", "start", "german", "/help", "help ", "polis", "helpp"] {
        assert_eq!(Command::from_keyword(keyword), None, "{:?}", keyword);
    }
}

#[test]
fn classify_tells_commands_text_and_no_text_apart() {
    assert_eq!(Inbound::classify(Some("/polish"), Some("polish")), Inbound::Command(Command::Polish));
    assert_eq!(Inbound::classify(Some("/HELP"), Some("HELP")), Inbound::Command(Command::Help));
    assert_eq!(Inbound::classify(Some("/german"), Some("german")), Inbound::UnknownCommand);
    assert_eq!(Inbound::classify(None, Some("english")), Inbound::Command(Command::English));
    assert_eq!(Inbound::classify(Some("Good morning."), None), Inbound::Text("Good morning.".to_string()));
    assert_eq!(Inbound::classify(Some(""), None), Inbound::Text(String::new()));
    assert_eq!(Inbound::classify(None, None), Inbound::NoText);
}

#[test]
fn from_message_finds_the_command_word() {
    assert_eq!(Inbound::from_message(Some("/polish"), "speaker_bot"), Inbound::Command(Command::Polish));
    assert_eq!(Inbound::from_message(Some("/Polish"), "speaker_bot"), Inbound::Command(Command::Polish));
    assert_eq!(
        Inbound::from_message(Some("/spanish and some more"), "speaker_bot"),
        Inbound::Command(Command::Spanish)
    );
    assert_eq!(
        Inbound::from_message(Some("/italian@Speaker_Bot"), "speaker_bot"),
        Inbound::Command(Command::Italian)
    );
    assert_eq!(Inbound::from_message(Some("/help"), ""), Inbound::Command(Command::Help));
}

#[test]
fn from_message_knows_an_unknown_command() {
    assert_eq!(Inbound::from_message(Some("/german"), "speaker_bot"), Inbound::UnknownCommand);
    assert_eq!(Inbound::from_message(Some("/"), "speaker_bot"), Inbound::UnknownCommand);
    assert_eq!(Inbound::from_message(Some("/polish!"), "speaker_bot"), Inbound::UnknownCommand);
}

#[test]
fn from_message_takes_everything_else_as_text_or_no_text() {
    assert_eq!(
        Inbound::from_message(Some("Good morning."), "speaker_bot"),
        Inbound::Text("Good morning.".to_string())
    );
    assert_eq!(
        Inbound::from_message(Some(" /polish"), "speaker_bot"),
        Inbound::Text(" /polish".to_string())
    );
    assert_eq!(
        Inbound::from_message(Some("polish"), "speaker_bot"),
        Inbound::Text("polish".to_string())
    );
    // A command for another bot is no command for this one.
    assert_eq!(
        Inbound::from_message(Some("/polish@other_bot"), "speaker_bot"),
        Inbound::Text("/polish@other_bot".to_string())
    );
    assert_eq!(Inbound::from_message(Some(""), "speaker_bot"), Inbound::Text(String::new()));
    assert_eq!(Inbound::from_message(None, "speaker_bot"), Inbound::NoText);
}
