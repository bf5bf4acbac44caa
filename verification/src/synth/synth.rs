//! The client of the remote text-to-speech service: what it asks of the
//! service for one piece of text, and what it makes of the answer. The call
//! itself is made outside this library.

use crate::chars::{decimal, push_decimal};
use vstd::prelude::*;

verus! {

/// Where the service takes requests.
pub const TTS_ENDPOINT: &'static str = "https://texttospeech.googleapis.com/v1/text:synthesize";

/// The voice that speaks: the locale, and the service's name for the voice.
#[derive(Clone, Copy, Debug, PartialEq, Eq)]
pub struct Voice {
    pub language_code: &'static str,
    pub name: &'static str,
}

/// The form in which the service hands the audio back.
#[derive(Clone, Copy, Debug, PartialEq, Eq, Structural)]
pub enum AudioEncoding {
    OggOpus,
}

impl AudioEncoding {
    /// The service's name for the encoding.
    pub open spec fn name(self) -> Seq<char> {
        "OGG_OPUS"@
    }

    /// The service's name for the encoding.
    pub fn get_name(&self) -> (name: &'static str)
        ensures
            name@ == self.name(),
    {
        "OGG_OPUS"
    }
}

/// How fast the voice speaks, as a fraction of its ordinary speed that is
/// greater than zero.
#[derive(Clone, Copy, Debug, PartialEq, Eq)]
pub struct SpeakingRate {
    numerator: u32,
    denominator: u32,
}

impl SpeakingRate {
    /// The fraction's numerator.
    pub closed spec fn num(self) -> nat {
        self.numerator as nat
    }

    /// The fraction's denominator.
    pub closed spec fn den(self) -> nat {
        self.denominator as nat
    }

    /// A rate is greater than zero.
    pub open spec fn wf(self) -> bool {
        self.num() > 0 && self.den() > 0
    }

    /// The rate `numerator / denominator`, where both are greater than zero.
    pub fn new(numerator: u32, denominator: u32) -> (rate: Option<SpeakingRate>)
        ensures
            rate is Some <==> numerator > 0 && denominator > 0,
            rate matches Some(r) ==> r.wf() && r.num() == numerator && r.den() == denominator,
    {
        if numerator > 0 && denominator > 0 {
            Some(SpeakingRate { numerator, denominator })
        } else {
            None
        }
    }

    /// The rate `numerator / denominator`.
    pub(crate) fn ratio(numerator: u32, denominator: u32) -> (rate: SpeakingRate)
        requires
            numerator > 0,
            denominator > 0,
        ensures
            rate.wf(),
            rate.num() == numerator,
            rate.den() == denominator,
    {
        SpeakingRate { numerator, denominator }
    }

    /// The fraction's numerator.
    pub fn numerator(&self) -> (n: u32)
        ensures
            n == self.num(),
    {
        self.numerator
    }

    /// The fraction's denominator.
    pub fn denominator(&self) -> (d: u32)
        ensures
            d == self.den(),
    {
        self.denominator
    }
}

impl Default for SpeakingRate {
    /// The ordinary speed.
    fn default() -> (rate: SpeakingRate)
        ensures
            rate.wf(),
            rate.num() == 1,
            rate.den() == 1,
    {
        SpeakingRate { numerator: 1, denominator: 1 }
    }
}

/// How the audio is to be made.
#[derive(Clone, Copy, Debug, PartialEq, Eq)]
pub struct AudioConfig {
    pub audio_encoding: AudioEncoding,
    pub speaking_rate: SpeakingRate,
}

/// What the service needs to know of a language to speak in it.
pub trait SynthParams {
    /// The locale of the voice.
    spec fn language_code(&self) -> Seq<char>;

    /// The service's name for the voice.
    spec fn voice_name(&self) -> Seq<char>;

    /// The speaking rate, as numerator and denominator.
    spec fn rate(&self) -> (nat, nat);

    /// The voice that speaks the language.
    fn get_voice(&self) -> (voice: Voice)
        ensures
            voice.language_code@ == self.language_code(),
            voice.name@ == self.voice_name(),
    ;

    /// How the audio is to be made for the language: always as Ogg Opus, at
    /// the speaking rate of the language.
    fn get_audio_config(&self) -> (config: AudioConfig)
        ensures
            config.audio_encoding == AudioEncoding::OggOpus,
            config.speaking_rate.wf(),
            config.speaking_rate.num() == self.rate().0,
            config.speaking_rate.den() == self.rate().1,
    ;
}

/// The text to speak.
#[derive(Debug, PartialEq, Eq)]
pub struct SynthesisInput {
    pub text: String,
}

/// What the service is asked for: the text, the voice, and how the audio is
/// to be made.
#[derive(Debug, PartialEq, Eq)]
pub struct SynthesizeRequest {
    pub input: SynthesisInput,
    pub voice: Voice,
    pub audio_config: AudioConfig,
}

/// What the service answers where it has made the audio: the audio, encoded
/// in base64.
#[derive(Debug, PartialEq, Eq)]
pub struct SynthesizeResponse {
    pub audio_content: String,
}

/// One call of the service: where the request goes, the key that comes with
/// it, and the request itself.
#[derive(Debug, PartialEq, Eq)]
pub struct HttpPost {
    pub url: &'static str,
    pub key: String,
    pub body: SynthesizeRequest,
}

impl HttpPost {
    /// Whether this is the call that asks the service, with `key`, to speak
    /// `text` in `language`.
    pub open spec fn asks<P: SynthParams>(
        self,
        key: Seq<char>,
        text: Seq<char>,
        language: &P,
    ) -> bool {
        &&& self.url@ == TTS_ENDPOINT@
        &&& self.key@ == key
        &&& self.body.input.text@ == text
        &&& self.body.voice.language_code@ == language.language_code()
        &&& self.body.voice.name@ == language.voice_name()
        &&& self.body.audio_config.audio_encoding == AudioEncoding::OggOpus
        &&& self.body.audio_config.speaking_rate.wf()
        &&& self.body.audio_config.speaking_rate.num() == language.rate().0
        &&& self.body.audio_config.speaking_rate.den() == language.rate().1
    }
}

/// What came back from one call of the service.
#[derive(Debug, PartialEq, Eq)]
pub enum HttpReply {
    /// No answer: the service was not reached, or its answer was not read to
    /// the end.
    Failed { reason: String },
    /// The service answered with `status` and `body`. `response` is what the
    /// body holds, where it is an answer with audio content.
    Answered { status: u16, body: String, response: Option<SynthesizeResponse> },
}

impl HttpReply {
    /// What the reply comes to: the audio, or why there is none.
    pub open spec fn outcome(self) -> Result<Seq<u8>, SynthFailure> {
        match self {
            HttpReply::Failed { reason } => Err(SynthFailure::Transport { reason: reason@ }),
            HttpReply::Answered { status, body, response } => if status != 200 {
                Err(SynthFailure::RemoteService { status, body: body@ })
            } else {
                match response {
                    None => Err(SynthFailure::Decode(DecodeFailure::MissingAudioContent)),
                    Some(answer) => match base64_decoded(answer.audio_content@) {
                        Some(bytes) => Ok(bytes),
                        None => Err(SynthFailure::Decode(DecodeFailure::InvalidBase64)),
                    },
                }
            },
        }
    }
}

/// Why no audio could be taken from an answer of the service.
#[derive(Clone, Copy, Debug, PartialEq, Eq, Structural)]
pub enum DecodeFailure {
    /// The answer holds no audio content.
    MissingAudioContent,
    /// The audio content is no base64.
    InvalidBase64,
}

/// Why a piece of text was not synthesized.
#[derive(Debug, PartialEq, Eq)]
pub enum SynthError {
    /// The service could not be reached.
    Transport { reason: String },
    /// The service answered with a status other than 200.
    RemoteService { status: u16, body: String },
    /// The service answered with 200, but no audio could be taken from the
    /// answer.
    Decode(DecodeFailure),
}

/// What a `SynthError` says.
pub enum SynthFailure {
    Transport { reason: Seq<char> },
    RemoteService { status: u16, body: Seq<char> },
    Decode(DecodeFailure),
}

impl View for SynthError {
    type V = SynthFailure;

    open spec fn view(&self) -> SynthFailure {
        match self {
            SynthError::Transport { reason } => SynthFailure::Transport { reason: reason@ },
            SynthError::RemoteService { status, body } => SynthFailure::RemoteService {
                status: *status,
                body: body@,
            },
            SynthError::Decode(failure) => SynthFailure::Decode(*failure),
        }
    }
}

impl SynthFailure {
    /// The notice that tells a conversation of the failure.
    pub open spec fn notice(self) -> Seq<char> {
        match self {
            SynthFailure::Transport { reason } => "The speech service could not be reached: "@
                + reason,
            SynthFailure::RemoteService { status, body } =>
                "The speech service refused the request with status "@ + decimal(status as nat)
                    + ": "@ + body,
            SynthFailure::Decode(DecodeFailure::MissingAudioContent) =>
                "The speech service sent an answer without audio."@,
            SynthFailure::Decode(DecodeFailure::InvalidBase64) =>
                "The speech service sent audio that cannot be decoded."@,
        }
    }
}

impl SynthError {
    /// The notice that tells a conversation of the failure.
    pub fn notice(&self) -> (text: String)
        ensures
            text@ == self@.notice(),
    {
        match self {
            SynthError::Transport { reason } => {
                let mut text = "The speech service could not be reached: ".to_owned();
                text.append(reason.as_str());
                text
            },
            SynthError::RemoteService { status, body } => {
                let mut text = "The speech service refused the request with status ".to_owned();
                push_decimal(&mut text, *status as u64);
                text.append(": ");
                text.append(body.as_str());
                text
            },
            SynthError::Decode(DecodeFailure::MissingAudioContent) => {
                "The speech service sent an answer without audio.".to_owned()
            },
            SynthError::Decode(DecodeFailure::InvalidBase64) => {
                "The speech service sent audio that cannot be decoded.".to_owned()
            },
        }
    }
}

/// `base64::DecodeError`: why an input is no base64. Nothing is claimed of
/// what it holds.
#[verifier::external_type_specification]
#[verifier::external_body]
pub struct ExBase64DecodeError(base64::DecodeError);

/// The bytes that `input` stands for in base64, with the standard alphabet
/// and padding; `None` where `input` is no such encoding.
pub uninterp spec fn base64_decoded(input: Seq<char>) -> Option<Seq<u8>>;

/// `base64::Engine::decode` on the engine `general_purpose::STANDARD`: the
/// bytes that `input` stands for, or an error where `input` is no base64 with
/// the standard alphabet and padding. The result depends on `input` alone.
#[verifier::external_body]
fn decode_base64(input: &str) -> (decoded: Result<Vec<u8>, base64::DecodeError>)
    ensures
        match decoded {
            Ok(bytes) => base64_decoded(input@) == Some(bytes@),
            Err(_) => base64_decoded(input@) is None,
        },
{
    base64::Engine::decode(&base64::engine::general_purpose::STANDARD, input)
}

/// The client of the text-to-speech service.
pub struct SynthClient {
    ts_api_key: String,
}

impl SynthClient {
    /// The key that the client sends with each request.
    pub closed spec fn api_key(&self) -> Seq<char> {
        self.ts_api_key@
    }

    /// A client that sends `ts_api_key` with each request.
    pub fn create(ts_api_key: &str) -> (client: SynthClient)
        ensures
            client.api_key() == ts_api_key@,
    {
        SynthClient { ts_api_key: ts_api_key.to_owned() }
    }

    /// The call that asks the service to speak `text` in `language`.
    pub fn request<P: SynthParams>(&self, text: &str, language: &P) -> (post: HttpPost)
        ensures
            post.asks(self.api_key(), text@, language),
    {
        HttpPost {
            url: TTS_ENDPOINT,
            key: self.ts_api_key.clone(),
            body: SynthesizeRequest {
                input: SynthesisInput { text: text.to_owned() },
                voice: language.get_voice(),
                audio_config: language.get_audio_config(),
            },
        }
    }

    /// The audio that decoding has given, or the failure to decode.
    pub fn audio_of(decoded: Result<Vec<u8>, base64::DecodeError>) -> (audio: Result<
        Vec<u8>,
        SynthError,
    >)
        ensures
            match decoded {
                Ok(bytes) => audio matches Ok(a) && a@ == bytes@,
                Err(_) => audio matches Err(e) && e@ == SynthFailure::Decode(
                    DecodeFailure::InvalidBase64,
                ),
            },
    {
        match decoded {
            Ok(bytes) => Ok(bytes),
            Err(_) => Err(SynthError::Decode(DecodeFailure::InvalidBase64)),
        }
    }

    /// What a reply of the service comes to: the audio, where the service
    /// answered with status 200 and audio content in base64; else the error.
    /// Any other status is an error of the service, whatever the body holds.
    pub fn read_reply(reply: HttpReply) -> (audio: Result<Vec<u8>, SynthError>)
        ensures
            match audio {
                Ok(bytes) => reply.outcome() == Ok::<Seq<u8>, SynthFailure>(bytes@),
                Err(error) => reply.outcome() == Err::<Seq<u8>, SynthFailure>(error@),
            },
            reply matches HttpReply::Answered { status, .. } && status != 200 ==> audio matches Err(
                SynthError::RemoteService { .. },
            ),
            reply matches HttpReply::Answered { status, response, .. } && status == 200
                && response is None ==> audio matches Err(SynthError::Decode(_)),
            reply matches HttpReply::Answered { status, response: Some(answer), .. } && status
                == 200 && base64_decoded(answer.audio_content@) is None ==> audio matches Err(
                SynthError::Decode(_),
            ),
    {
        match reply {
            HttpReply::Failed { reason } => Err(SynthError::Transport { reason }),
            HttpReply::Answered { status, body, response } => {
                if status != 200 {
                    Err(SynthError::RemoteService { status, body })
                } else {
                    match response {
                        None => Err(SynthError::Decode(DecodeFailure::MissingAudioContent)),
                        Some(answer) => SynthClient::audio_of(
                            decode_base64(answer.audio_content.as_str()),
                        ),
                    }
                }
            },
        }
    }
}

} // verus!
