use base64::Engine;
use tts_chat::synth::language::{Language, Polish, Portuguese};
use tts_chat::synth::synth::{
    AudioEncoding, DecodeFailure, HttpReply, SynthClient, SynthError, SynthesizeResponse,
    TTS_ENDPOINT,
};

fn answered(status: u16, body: &str, audio_content: Option<&str>) -> HttpReply {
    HttpReply::Answered {
        status,
        body: body.to_string(),
        response: audio_content.map(|s| SynthesizeResponse { audio_content: s.to_string() }),
    }
}

#[test]
fn request_carries_key_text_voice_and_audio_config() {
    let client = SynthClient::create("secret-key");
    let post = client.request("Dzień dobry.", &Language::Polish(Polish));
    assert_eq!(post.url, "https://texttospeech.googleapis.com/v1/text:synthesize");
    assert_eq!(post.url, TTS_ENDPOINT);
    assert_eq!(post.key, "secret-key");
    assert_eq!(post.body.input.text, "Dzień dobry.");
    assert_eq!(post.body.voice.language_code, "pl-PL");
    assert_eq!(post.body.voice.name, "pl-PL-Wavenet-B");
    assert_eq!(post.body.audio_config.audio_encoding, AudioEncoding::OggOpus);
    assert_eq!(post.body.audio_config.speaking_rate.numerator(), 1);
    assert_eq!(post.body.audio_config.speaking_rate.denominator(), 1);
}

#[test]
fn request_takes_any_synth_params() {
    let client = SynthClient::create("k");
    let post = client.request("Bom dia.", &Portuguese);
    assert_eq!(post.body.voice.language_code, "pt-PT");
    assert_eq!(post.body.voice.name, "pt-PT-Wavenet-C");
    assert_eq!(post.body.audio_config.speaking_rate.numerator(), 4);
    assert_eq!(post.body.audio_config.speaking_rate.denominator(), 5);
}

#[test]
fn reply_with_audio_gives_the_decoded_bytes() {
    let reply = answered(200, "{\"audioContent\":\"aGVsbG8=\"}", Some("aGVsbG8="));
    assert_eq!(SynthClient::read_reply(reply), Ok(b"hello".to_vec()));
    assert_eq!(SynthClient::read_reply(answered(200, "", Some(""))), Ok(Vec::new()));
    assert_eq!(SynthClient::read_reply(answered(200, "", Some("AAEC/f7/"))), Ok(vec![0, 1, 2, 253, 254, 255]));
}

#[test]
fn non_200_reply_is_a_remote_service_error() {
    for status in [100, 201, 204, 301, 400, 403, 404, 429, 500, 503] {
        assert_eq!(
            SynthClient::read_reply(answered(status, "quota exceeded", Some("aGVsbG8="))),
            Err(SynthError::RemoteService { status, body: "quota exceeded".to_string() })
        );
        assert_eq!(
            SynthClient::read_reply(answered(status, "", None)),
            Err(SynthError::RemoteService { status, body: String::new() })
        );
    }
}

#[test]
fn reply_without_audio_content_is_a_decode_error() {
    assert_eq!(
        SynthClient::read_reply(answered(200, "{}", None)),
        Err(SynthError::Decode(DecodeFailure::MissingAudioContent))
    );
}

#[test]
fn reply_with_malformed_audio_content_is_a_decode_error() {
    for malformed in ["not base64!", "aGVsbG8", "aGVsbG8==", "a", "aGVs bG8=", "aGVsbG9="] {
        assert_eq!(
            SynthClient::read_reply(answered(200, "", Some(malformed))),
            Err(SynthError::Decode(DecodeFailure::InvalidBase64)),
            "{:?}",
            malformed
        );
    }
}

#[test]
fn failed_call_is_a_transport_error() {
    assert_eq!(
        SynthClient::read_reply(HttpReply::Failed { reason: "connection refused".to_string() }),
        Err(SynthError::Transport { reason: "connection refused".to_string() })
    );
}

#[test]
fn audio_of_maps_what_decoding_gave() {
    assert_eq!(SynthClient::audio_of(Ok(vec![1, 2, 3])), Ok(vec![1, 2, 3]));
    assert_eq!(
        SynthClient::audio_of(Err(base64::DecodeError::InvalidLength(3))),
        Err(SynthError::Decode(DecodeFailure::InvalidBase64))
    );
    assert_eq!(
        SynthClient::audio_of(Err(base64::DecodeError::InvalidPadding)),
        Err(SynthError::Decode(DecodeFailure::InvalidBase64))
    );
    assert_eq!(
        SynthClient::audio_of(base64::engine::general_purpose::STANDARD.decode("Zm9v")),
        Ok(b"foo".to_vec())
    );
}

#[test]
fn notices_tell_of_each_failure() {
    assert_eq!(
        SynthError::Transport { reason: "timed out".to_string() }.notice(),
        "The speech service could not be reached: timed out"
    );
    assert_eq!(
        SynthError::RemoteService { status: 429, body: "quota exceeded".to_string() }.notice(),
        "The speech service refused the request with status 429: quota exceeded"
    );
    assert_eq!(
        SynthError::RemoteService { status: 65535, body: String::new() }.notice(),
        "The speech service refused the request with status 65535: "
    );
    assert_eq!(
        SynthError::Decode(DecodeFailure::MissingAudioContent).notice(),
        "The speech service sent an answer without audio."
    );
    assert_eq!(
        SynthError::Decode(DecodeFailure::InvalidBase64).notice(),
        "The speech service sent audio that cannot be decoded."
    );
}
