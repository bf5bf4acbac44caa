//! The languages on offer, each with its voice.

use crate::chars::{ascii_lower, eq_ignoring_case, same_ignoring_case};
use crate::synth::synth::{AudioConfig, AudioEncoding, SpeakingRate, SynthParams, Voice};
use vstd::prelude::*;

verus! {

/// What a language is called.
pub trait LanguageMeta {
    /// The name of the language.
    spec fn name(&self) -> Seq<char>;

    /// The name of the language.
    fn get_name(&self) -> (name: &'static str)
        ensures
            name@ == self.name(),
    ;
}

/// Polish, spoken by the voice `pl-PL-Wavenet-B`.
#[derive(Clone, Copy, Debug, PartialEq, Eq, Structural)]
pub struct Polish;

impl LanguageMeta for Polish {
    open spec fn name(&self) -> Seq<char> {
        "Polish"@
    }

    fn get_name(&self) -> &'static str {
        "Polish"
    }
}

impl SynthParams for Polish {
    open spec fn language_code(&self) -> Seq<char> {
        "pl-PL"@
    }

    open spec fn voice_name(&self) -> Seq<char> {
        "pl-PL-Wavenet-B"@
    }

    open spec fn rate(&self) -> (nat, nat) {
        (1, 1)
    }

    fn get_voice(&self) -> Voice {
        Voice { language_code: "pl-PL", name: "pl-PL-Wavenet-B" }
    }

    fn get_audio_config(&self) -> AudioConfig {
        AudioConfig {
            audio_encoding: AudioEncoding::OggOpus,
            speaking_rate: SpeakingRate::default(),
        }
    }
}

/// Portuguese, spoken by the voice `pt-PT-Wavenet-C`, a little slower than it ordinarily speaks.
#[derive(Clone, Copy, Debug, PartialEq, Eq, Structural)]
pub struct Portuguese;

impl LanguageMeta for Portuguese {
    open spec fn name(&self) -> Seq<char> {
        "Portuguese"@
    }

    fn get_name(&self) -> &'static str {
        "Portuguese"
    }
}

impl SynthParams for Portuguese {
    open spec fn language_code(&self) -> Seq<char> {
        "pt-PT"@
    }

    open spec fn voice_name(&self) -> Seq<char> {
        "pt-PT-Wavenet-C"@
    }

    open spec fn rate(&self) -> (nat, nat) {
        (4, 5)
    }

    fn get_voice(&self) -> Voice {
        Voice { language_code: "pt-PT", name: "pt-PT-Wavenet-C" }
    }

    fn get_audio_config(&self) -> AudioConfig {
        AudioConfig {
            audio_encoding: AudioEncoding::OggOpus,
            speaking_rate: SpeakingRate::ratio(4, 5),
        }
    }
}

/// English, spoken by the voice `en-GB-Neural2-B`.
#[derive(Clone, Copy, Debug, PartialEq, Eq, Structural)]
pub struct English;

impl LanguageMeta for English {
    open spec fn name(&self) -> Seq<char> {
        "English"@
    }

    fn get_name(&self) -> &'static str {
        "English"
    }
}

impl SynthParams for English {
    open spec fn language_code(&self) -> Seq<char> {
        "en-GB"@
    }

    open spec fn voice_name(&self) -> Seq<char> {
        "en-GB-Neural2-B"@
    }

    open spec fn rate(&self) -> (nat, nat) {
        (1, 1)
    }

    fn get_voice(&self) -> Voice {
        Voice { language_code: "en-GB", name: "en-GB-Neural2-B" }
    }

    fn get_audio_config(&self) -> AudioConfig {
        AudioConfig {
            audio_encoding: AudioEncoding::OggOpus,
            speaking_rate: SpeakingRate::default(),
        }
    }
}

/// Spanish, spoken by the voice `es-ES-Neural2-F`.
#[derive(Clone, Copy, Debug, PartialEq, Eq, Structural)]
pub struct Spanish;

impl LanguageMeta for Spanish {
    open spec fn name(&self) -> Seq<char> {
        "Spanish"@
    }

    fn get_name(&self) -> &'static str {
        "Spanish"
    }
}

impl SynthParams for Spanish {
    open spec fn language_code(&self) -> Seq<char> {
        "es-ES"@
    }

    open spec fn voice_name(&self) -> Seq<char> {
        "es-ES-Neural2-F"@
    }

    open spec fn rate(&self) -> (nat, nat) {
        (1, 1)
    }

    fn get_voice(&self) -> Voice {
        Voice { language_code: "es-ES", name: "es-ES-Neural2-F" }
    }

    fn get_audio_config(&self) -> AudioConfig {
        AudioConfig {
            audio_encoding: AudioEncoding::OggOpus,
            speaking_rate: SpeakingRate::default(),
        }
    }
}

/// Italian, spoken by the voice `it-IT-Chirp3-HD-Zephyr`.
#[derive(Clone, Copy, Debug, PartialEq, Eq, Structural)]
pub struct Italian;

impl LanguageMeta for Italian {
    open spec fn name(&self) -> Seq<char> {
        "Italian"@
    }

    fn get_name(&self) -> &'static str {
        "Italian"
    }
}

impl SynthParams for Italian {
    open spec fn language_code(&self) -> Seq<char> {
        "it-IT"@
    }

    open spec fn voice_name(&self) -> Seq<char> {
        "it-IT-Chirp3-HD-Zephyr"@
    }

    open spec fn rate(&self) -> (nat, nat) {
        (1, 1)
    }

    fn get_voice(&self) -> Voice {
        Voice { language_code: "it-IT", name: "it-IT-Chirp3-HD-Zephyr" }
    }

    fn get_audio_config(&self) -> AudioConfig {
        AudioConfig {
            audio_encoding: AudioEncoding::OggOpus,
            speaking_rate: SpeakingRate::default(),
        }
    }
}

/// One of the languages on offer.
#[derive(Clone, Copy, Debug, PartialEq, Eq, Structural)]
pub enum Language {
    Polish(Polish),
    Portuguese(Portuguese),
    English(English),
    Spanish(Spanish),
    Italian(Italian),
}

impl LanguageMeta for Language {
    open spec fn name(&self) -> Seq<char> {
        match self {
            Language::Polish(lang) => lang.name(),
            Language::Portuguese(lang) => lang.name(),
            Language::English(lang) => lang.name(),
            Language::Spanish(lang) => lang.name(),
            Language::Italian(lang) => lang.name(),
        }
    }

    fn get_name(&self) -> &'static str {
        match self {
            Language::Polish(lang) => lang.get_name(),
            Language::Portuguese(lang) => lang.get_name(),
            Language::English(lang) => lang.get_name(),
            Language::Spanish(lang) => lang.get_name(),
            Language::Italian(lang) => lang.get_name(),
        }
    }
}

impl SynthParams for Language {
    open spec fn language_code(&self) -> Seq<char> {
        match self {
            Language::Polish(params) => params.language_code(),
            Language::Portuguese(params) => params.language_code(),
            Language::English(params) => params.language_code(),
            Language::Spanish(params) => params.language_code(),
            Language::Italian(params) => params.language_code(),
        }
    }

    open spec fn voice_name(&self) -> Seq<char> {
        match self {
            Language::Polish(params) => params.voice_name(),
            Language::Portuguese(params) => params.voice_name(),
            Language::English(params) => params.voice_name(),
            Language::Spanish(params) => params.voice_name(),
            Language::Italian(params) => params.voice_name(),
        }
    }

    open spec fn rate(&self) -> (nat, nat) {
        match self {
            Language::Polish(params) => params.rate(),
            Language::Portuguese(params) => params.rate(),
            Language::English(params) => params.rate(),
            Language::Spanish(params) => params.rate(),
            Language::Italian(params) => params.rate(),
        }
    }

    fn get_voice(&self) -> Voice {
        match self {
            Language::Polish(params) => params.get_voice(),
            Language::Portuguese(params) => params.get_voice(),
            Language::English(params) => params.get_voice(),
            Language::Spanish(params) => params.get_voice(),
            Language::Italian(params) => params.get_voice(),
        }
    }

    fn get_audio_config(&self) -> AudioConfig {
        match self {
            Language::Polish(params) => params.get_audio_config(),
            Language::Portuguese(params) => params.get_audio_config(),
            Language::English(params) => params.get_audio_config(),
            Language::Spanish(params) => params.get_audio_config(),
            Language::Italian(params) => params.get_audio_config(),
        }
    }
}

/// An identifier that names none of the languages on offer.
#[derive(Debug, PartialEq, Eq)]
pub struct UnknownLanguage {
    pub identifier: String,
}

impl Language {
    /// The languages on offer, in the order in which they are listed.
    pub open spec fn catalogue() -> Seq<Language> {
        seq![
            Language::Polish(Polish),
            Language::Portuguese(Portuguese),
            Language::English(English),
            Language::Spanish(Spanish),
            Language::Italian(Italian),
        ]
    }

    /// The languages on offer, in the order in which they are listed.
    pub fn all() -> (languages: Vec<Language>)
        ensures
            languages@ == Language::catalogue(),
    {
        let mut languages: Vec<Language> = Vec::new();
        languages.push(Language::Polish(Polish));
        languages.push(Language::Portuguese(Portuguese));
        languages.push(Language::English(English));
        languages.push(Language::Spanish(Spanish));
        languages.push(Language::Italian(Italian));
        assert(languages@ =~= Language::catalogue());
        languages
    }

    /// Whether `identifier` names this language: its name, in upper or lower
    /// case.
    pub open spec fn is_named(self, identifier: Seq<char>) -> bool {
        same_ignoring_case(identifier, self.name())
    }

    /// The language that `identifier` names: the first of the catalogue that
    /// it names, if it names one.
    pub open spec fn named(identifier: Seq<char>) -> Option<Language> {
        if Language::Polish(Polish).is_named(identifier) {
            Some(Language::Polish(Polish))
        } else if Language::Portuguese(Portuguese).is_named(identifier) {
            Some(Language::Portuguese(Portuguese))
        } else if Language::English(English).is_named(identifier) {
            Some(Language::English(English))
        } else if Language::Spanish(Spanish).is_named(identifier) {
            Some(Language::Spanish(Spanish))
        } else if Language::Italian(Italian).is_named(identifier) {
            Some(Language::Italian(Italian))
        } else {
            None
        }
    }

    /// The language that `identifier` names. The identifier is the name of
    /// the language, in upper or lower case. An identifier that names no
    /// language on offer is handed back in the error.
    pub fn resolve(identifier: &str) -> (found: Result<Language, UnknownLanguage>)
        ensures
            match found {
                Ok(language) => Language::named(identifier@) == Some(language)
                    && language.is_named(identifier@),
                Err(unknown) => Language::named(identifier@) is None && unknown.identifier@
                    == identifier@ && forall|language: Language|
                    !(#[trigger] language.is_named(identifier@)),
            },
    {
        if eq_ignoring_case(identifier, Polish.get_name()) {
            Ok(Language::Polish(Polish))
        } else if eq_ignoring_case(identifier, Portuguese.get_name()) {
            Ok(Language::Portuguese(Portuguese))
        } else if eq_ignoring_case(identifier, English.get_name()) {
            Ok(Language::English(English))
        } else if eq_ignoring_case(identifier, Spanish.get_name()) {
            Ok(Language::Spanish(Spanish))
        } else if eq_ignoring_case(identifier, Italian.get_name()) {
            Ok(Language::Italian(Italian))
        } else {
            Err(UnknownLanguage { identifier: identifier.to_owned() })
        }
    }
}

/// Every language is in the catalogue.
pub proof fn lemma_catalogue_is_complete(language: Language)
    ensures
        Language::catalogue().contains(language),
{
    let all = Language::catalogue();
    match language {
        Language::Polish(_) => assert(all[0] == language),
        Language::Portuguese(_) => assert(all[1] == language),
        Language::English(_) => assert(all[2] == language),
        Language::Spanish(_) => assert(all[3] == language),
        Language::Italian(_) => assert(all[4] == language),
    }
}

/// No two languages have the same name, in whatever case: an identifier
/// names one language at most.
pub proof fn lemma_names_differ(a: Language, b: Language, identifier: Seq<char>)
    requires
        a.is_named(identifier),
        b.is_named(identifier),
    ensures
        a == b,
{
    reveal_strlit("Polish");
    reveal_strlit("Portuguese");
    reveal_strlit("English");
    reveal_strlit("Spanish");
    reveal_strlit("Italian");
    if identifier.len() > 0 {
        assert(ascii_lower(identifier[0]) == ascii_lower(a.name()[0]));
        assert(ascii_lower(identifier[0]) == ascii_lower(b.name()[0]));
    }
}

} // verus!
