//! The commands that a user can give, and what an inbound message is.

use crate::chars::{ascii_lower, eq_ignoring_case, same_ignoring_case};
use crate::synth::language::{English, Italian, Language, Polish, Portuguese, Spanish};
use vstd::prelude::*;

verus! {

/// A command: help, or the choice of a language.
#[derive(Clone, Copy, Debug, PartialEq, Eq, Structural)]
pub enum Command {
    Help,
    Portuguese,
    Polish,
    English,
    Spanish,
    Italian,
}

impl Command {
    /// The commands, in the order in which they are listed.
    pub open spec fn catalogue() -> Seq<Command> {
        seq![
            Command::Help,
            Command::Portuguese,
            Command::Polish,
            Command::English,
            Command::Spanish,
            Command::Italian,
        ]
    }

    /// The language that the command chooses; none for help.
    pub open spec fn selected(self) -> Option<Language> {
        match self {
            Command::Help => None,
            Command::Portuguese => Some(Language::Portuguese(Portuguese)),
            Command::Polish => Some(Language::Polish(Polish)),
            Command::English => Some(Language::English(English)),
            Command::Spanish => Some(Language::Spanish(Spanish)),
            Command::Italian => Some(Language::Italian(Italian)),
        }
    }

    /// The word by which the command is given.
    pub open spec fn keyword(self) -> Seq<char> {
        match self {
            Command::Help => "help"@,
            Command::Portuguese => "portuguese"@,
            Command::Polish => "polish"@,
            Command::English => "english"@,
            Command::Spanish => "spanish"@,
            Command::Italian => "italian"@,
        }
    }

    /// What the command does, in words.
    pub open spec fn description(self) -> Seq<char> {
        match self {
            Command::Help => "display this text."@,
            Command::Portuguese => "read a text in Portuguese."@,
            Command::Polish => "read a text in Polish."@,
            Command::English => "read a text in English."@,
            Command::Spanish => "read a text in Spanish."@,
            Command::Italian => "read a text in Italian."@,
        }
    }

    /// The command that `keyword` gives: the first of the catalogue whose
    /// word is `keyword`, in upper or lower case.
    pub open spec fn named(keyword: Seq<char>) -> Option<Command> {
        if same_ignoring_case(keyword, Command::Help.keyword()) {
            Some(Command::Help)
        } else if same_ignoring_case(keyword, Command::Portuguese.keyword()) {
            Some(Command::Portuguese)
        } else if same_ignoring_case(keyword, Command::Polish.keyword()) {
            Some(Command::Polish)
        } else if same_ignoring_case(keyword, Command::English.keyword()) {
            Some(Command::English)
        } else if same_ignoring_case(keyword, Command::Spanish.keyword()) {
            Some(Command::Spanish)
        } else if same_ignoring_case(keyword, Command::Italian.keyword()) {
            Some(Command::Italian)
        } else {
            None
        }
    }

    /// The commands, in the order in which they are listed.
    pub fn all() -> (commands: Vec<Command>)
        ensures
            commands@ == Command::catalogue(),
    {
        let mut commands: Vec<Command> = Vec::new();
        commands.push(Command::Help);
        commands.push(Command::Portuguese);
        commands.push(Command::Polish);
        commands.push(Command::English);
        commands.push(Command::Spanish);
        commands.push(Command::Italian);
        assert(commands@ =~= Command::catalogue());
        commands
    }

    /// The language that the command chooses; none for help.
    pub fn language(&self) -> (language: Option<Language>)
        ensures
            language == self.selected(),
    {
        match self {
            Command::Help => None,
            Command::Portuguese => Some(Language::Portuguese(Portuguese)),
            Command::Polish => Some(Language::Polish(Polish)),
            Command::English => Some(Language::English(English)),
            Command::Spanish => Some(Language::Spanish(Spanish)),
            Command::Italian => Some(Language::Italian(Italian)),
        }
    }

    /// The command that chooses `language`.
    pub fn choosing(language: Language) -> (command: Command)
        ensures
            command.selected() == Some(language),
    {
        match language {
            Language::Portuguese(_) => Command::Portuguese,
            Language::Polish(_) => Command::Polish,
            Language::English(_) => Command::English,
            Language::Spanish(_) => Command::Spanish,
            Language::Italian(_) => Command::Italian,
        }
    }

    /// The word by which the command is given.
    pub fn get_keyword(&self) -> (keyword: &'static str)
        ensures
            keyword@ == self.keyword(),
    {
        match self {
            Command::Help => "help",
            Command::Portuguese => "portuguese",
            Command::Polish => "polish",
            Command::English => "english",
            Command::Spanish => "spanish",
            Command::Italian => "italian",
        }
    }

    /// What the command does, in words.
    pub fn get_description(&self) -> (description: &'static str)
        ensures
            description@ == self.description(),
    {
        match self {
            Command::Help => "display this text.",
            Command::Portuguese => "read a text in Portuguese.",
            Command::Polish => "read a text in Polish.",
            Command::English => "read a text in English.",
            Command::Spanish => "read a text in Spanish.",
            Command::Italian => "read a text in Italian.",
        }
    }

    /// The command that `keyword` gives, if it gives one. Upper and lower
    /// case are the same in a keyword.
    pub fn from_keyword(keyword: &str) -> (command: Option<Command>)
        ensures
            command == Command::named(keyword@),
            command matches Some(c) ==> same_ignoring_case(keyword@, c.keyword()),
            command is None ==> forall|c: Command|
                !same_ignoring_case(keyword@, #[trigger] c.keyword()),
    {
        if eq_ignoring_case(keyword, Command::Help.get_keyword()) {
            Some(Command::Help)
        } else if eq_ignoring_case(keyword, Command::Portuguese.get_keyword()) {
            Some(Command::Portuguese)
        } else if eq_ignoring_case(keyword, Command::Polish.get_keyword()) {
            Some(Command::Polish)
        } else if eq_ignoring_case(keyword, Command::English.get_keyword()) {
            Some(Command::English)
        } else if eq_ignoring_case(keyword, Command::Spanish.get_keyword()) {
            Some(Command::Spanish)
        } else if eq_ignoring_case(keyword, Command::Italian.get_keyword()) {
            Some(Command::Italian)
        } else {
            None
        }
    }
}

/// No two commands have the same word, in whatever case: a keyword gives
/// one command at most.
pub proof fn lemma_keywords_differ(a: Command, b: Command, keyword: Seq<char>)
    requires
        same_ignoring_case(keyword, a.keyword()),
        same_ignoring_case(keyword, b.keyword()),
    ensures
        a == b,
        Command::named(keyword) == Some(a),
{
    reveal_strlit("help");
    reveal_strlit("portuguese");
    reveal_strlit("polish");
    reveal_strlit("english");
    reveal_strlit("spanish");
    reveal_strlit("italian");
    if keyword.len() > 0 {
        assert(ascii_lower(keyword[0]) == ascii_lower(a.keyword()[0]));
        assert(ascii_lower(keyword[0]) == ascii_lower(b.keyword()[0]));
    }
}

/// What a user has sent.
#[derive(Debug, PartialEq, Eq)]
pub enum Inbound {
    /// One of the commands.
    Command(Command),
    /// A command that is none of the commands.
    UnknownCommand,
    /// A message with text that is no command.
    Text(String),
    /// A message without text.
    NoText,
}

/// What an `Inbound` says.
pub enum InboundView {
    Command(Command),
    UnknownCommand,
    Text(Seq<char>),
    NoText,
}

impl View for Inbound {
    type V = InboundView;

    open spec fn view(&self) -> InboundView {
        match self {
            Inbound::Command(command) => InboundView::Command(*command),
            Inbound::UnknownCommand => InboundView::UnknownCommand,
            Inbound::Text(text) => InboundView::Text(text@),
            Inbound::NoText => InboundView::NoText,
        }
    }
}

/// The text of a message, if it has one.
pub open spec fn text_of(text: Option<&str>) -> Option<Seq<char>> {
    match text {
        Some(t) => Some(t@),
        None => None,
    }
}

/// The command word that stands at the start of `text`, for the bot called
/// `bot_name`: what follows the `/` up to the first whitespace, without the
/// mention of the bot. `None` where `text` begins with no command for this
/// bot.
pub uninterp spec fn command_word(text: Seq<char>, bot_name: Seq<char>) -> Option<Seq<char>>;

/// `teloxide::utils::command::parse_command`, of which the command word is
/// kept and the arguments are dropped. It finds no command in a text that
/// does not begin with `/`. The result depends on the two arguments alone.
#[verifier::external_body]
fn parse_command_word(text: &str, bot_name: &str) -> (word: Option<String>)
    ensures
        match word {
            Some(w) => command_word(text@, bot_name@) == Some(w@),
            None => command_word(text@, bot_name@) is None,
        },
        word is Some ==> text@.len() > 0 && text@[0] == '/',
{
    match teloxide::utils::command::parse_command(text, bot_name) {
        Some((word, _)) => Some(word.to_owned()),
        None => None,
    }
}

impl Inbound {
    /// What a message is, given its text and the command word that was found
    /// in it: a command where the word gives one, an unknown command where
    /// it gives none, and else text or no text.
    pub open spec fn classified(
        text: Option<Seq<char>>,
        keyword: Option<Seq<char>>,
    ) -> InboundView {
        match keyword {
            Some(word) => match Command::named(word) {
                Some(command) => InboundView::Command(command),
                None => InboundView::UnknownCommand,
            },
            None => match text {
                Some(t) => InboundView::Text(t),
                None => InboundView::NoText,
            },
        }
    }

    /// What a message is, given its text and the command word that was found
    /// in it.
    pub fn classify(text: Option<&str>, keyword: Option<&str>) -> (inbound: Inbound)
        ensures
            inbound@ == Inbound::classified(text_of(text), text_of(keyword)),
    {
        match keyword {
            Some(word) => match Command::from_keyword(word) {
                Some(command) => Inbound::Command(command),
                None => Inbound::UnknownCommand,
            },
            None => match text {
                Some(t) => Inbound::Text(t.to_owned()),
                None => Inbound::NoText,
            },
        }
    }

    /// What a message with the text `text` is, when it was sent to the bot
    /// called `bot_name`. A text that does not begin with `/` is never a
    /// command.
    pub fn from_message(text: Option<&str>, bot_name: &str) -> (inbound: Inbound)
        ensures
            inbound@ == Inbound::classified(
                text_of(text),
                match text {
                    Some(t) => command_word(t@, bot_name@),
                    None => None,
                },
            ),
            text matches Some(t) ==> (t@.len() == 0 || t@[0] != '/' ==> inbound@
                == InboundView::Text(t@)),
            text is None ==> inbound@ == InboundView::NoText,
    {
        match text {
            Some(t) => match parse_command_word(t, bot_name) {
                Some(word) => Inbound::classify(text, Some(word.as_str())),
                None => Inbound::classify(text, None),
            },
            None => Inbound::classify(None, None),
        }
    }
}

} // verus!
