use tts_chat::synth::language::{
    English, Italian, Language, LanguageMeta, Polish, Portuguese, Spanish, UnknownLanguage,
};
use tts_chat::synth::synth::{AudioEncoding, SpeakingRate, SynthParams};

#[test]
fn each_language_has_its_name() {
    assert_eq!(Polish.get_name(), "Polish");
    assert_eq!(Portuguese.get_name(), "Portuguese");
    assert_eq!(English.get_name(), "English");
    assert_eq!(Spanish.get_name(), "Spanish");
    assert_eq!(Italian.get_name(), "Italian");
    assert_eq!(Language::Polish(Polish).get_name(), "Polish");
    assert_eq!(Language::Portuguese(Portuguese).get_name(), "Portuguese");
    assert_eq!(Language::English(English).get_name(), "English");
    assert_eq!(Language::Spanish(Spanish).get_name(), "Spanish");
    assert_eq!(Language::Italian(Italian).get_name(), "Italian");
}

#[test]
fn each_language_has_its_voice() {
    let voices = [
        (Language::Polish(Polish), "pl-PL", "pl-PL-Wavenet-B"),
        (Language::Portuguese(Portuguese), "pt-PT", "pt-PT-Wavenet-C"),
        (Language::English(English), "en-GB", "en-GB-Neural2-B"),
        (Language::Spanish(Spanish), "es-ES", "es-ES-Neural2-F"),
        (Language::Italian(Italian), "it-IT", "it-IT-Chirp3-HD-Zephyr"),
    ];
    for (language, code, name) in voices {
        let voice = language.get_voice();
        assert_eq!(voice.language_code, code);
        assert_eq!(voice.name, name);
    }
    assert_eq!(Polish.get_voice(), Language::Polish(Polish).get_voice());
    assert_eq!(Portuguese.get_voice(), Language::Portuguese(Portuguese).get_voice());
    assert_eq!(English.get_voice(), Language::English(English).get_voice());
    assert_eq!(Spanish.get_voice(), Language::Spanish(Spanish).get_voice());
    assert_eq!(Italian.get_voice(), Language::Italian(Italian).get_voice());
}

#[test]
fn each_language_has_its_audio_config() {
    for language in Language::all() {
        let config = language.get_audio_config();
        assert_eq!(config.audio_encoding, AudioEncoding::OggOpus);
        let rate = config.speaking_rate;
        if language == Language::Portuguese(Portuguese) {
            assert_eq!((rate.numerator(), rate.denominator()), (4, 5));
        } else {
            assert_eq!((rate.numerator(), rate.denominator()), (1, 1));
        }
    }
    assert_eq!(Portuguese.get_audio_config(), Language::Portuguese(Portuguese).get_audio_config());
    assert_eq!(Polish.get_audio_config(), Language::Polish(Polish).get_audio_config());
}

#[test]
fn encoding_has_the_name_of_the_service() {
    assert_eq!(AudioEncoding::OggOpus.get_name(), "OGG_OPUS");
}

#[test]
fn speaking_rate_is_greater_than_zero() {
    assert_eq!(SpeakingRate::new(0, 1), None);
    assert_eq!(SpeakingRate::new(1, 0), None);
    assert_eq!(SpeakingRate::new(0, 0), None);
    let rate = SpeakingRate::new(4, 5).unwrap();
    assert_eq!((rate.numerator(), rate.denominator()), (4, 5));
    let ordinary = SpeakingRate::default();
    assert_eq!((ordinary.numerator(), ordinary.denominator()), (1, 1));
}

#[test]
fn all_languages_are_listed_in_order() {
    assert_eq!(
        Language::all(),
        vec![
            Language::Polish(Polish),
            Language::Portuguese(Portuguese),
            Language::English(English),
            Language::Spanish(Spanish),
            Language::Italian(Italian),
        ]
    );
}

#[test]
fn resolve_finds_a_language_by_its_name_in_any_case() {
    assert_eq!(Language::resolve("Polish"), Ok(Language::Polish(Polish)));
    assert_eq!(Language::resolve("polish"), Ok(Language::Polish(Polish)));
    assert_eq!(Language::resolve("PORTUGUESE"), Ok(Language::Portuguese(Portuguese)));
    assert_eq!(Language::resolve("eNgLiSh"), Ok(Language::English(English)));
    assert_eq!(Language::resolve("Spanish"), Ok(Language::Spanish(Spanish)));
    assert_eq!(Language::resolve("italian"), Ok(Language::Italian(Italian)));
    for language in Language::all() {
        assert_eq!(Language::resolve(language.get_name()), Ok(language));
    }
}

#[test]
fn resolve_fails_with_unknown_language() {
    for identifier in ["", "German", "Polis", "Polish ", "pl-PL", "help"] {
        assert_eq!(
            Language::resolve(identifier),
            Err(UnknownLanguage { identifier: identifier.to_string() })
        );
    }
}
