//! The transcription request: which endpoint and key, which model, and
//! what a response amounts to.
//!
//! Groq's Whisper endpoint is schema-identical to OpenAI's own
//! `/audio/transcriptions`, so one request shape covers Groq, OpenAI and any
//! self-hosted OpenAI-compatible endpoint; only the base URL, the API key's
//! environment variable and the default model differ. A failed request is
//! never turned into text: every failure is an error the caller reports.
use vstd::prelude::*;

use crate::config::{Config, Provider};
use crate::text::{chars_of, push_range, trim, trim_string};

verus! {

/// What one transcription call sends.
#[derive(Debug, Clone, PartialEq, Eq)]
pub struct TranscriptionRequest {
    /// The recording to send.
    pub audio_path: String,
    pub model: String,
    /// Context hint; empty sends none.
    pub prompt: String,
    /// Forced language; `None` lets the model detect it.
    pub language: Option<String>,
}

/// The model used when none is configured: Groq's large model for long
/// recordings and its turbo model otherwise, `whisper-1` for OpenAI, and
/// none for a custom endpoint.
pub open spec fn default_model_of(provider: Provider, is_long: bool) -> Seq<char> {
    match provider {
        Provider::Groq => if is_long {
            "whisper-large-v3"@
        } else {
            "whisper-large-v3-turbo"@
        },
        Provider::OpenAi => "whisper-1"@,
        Provider::Custom => ""@,
    }
}

/// Picks the model to send when the user has not set one; `is_long` tells
/// whether the recording is longer than `long-recording-threshold`.
pub fn default_model(provider: Provider, is_long: bool) -> (r: &'static str)
    ensures
        r@ == default_model_of(provider, is_long),
{
    match provider {
        Provider::Groq => if is_long {
            "whisper-large-v3"
        } else {
            "whisper-large-v3-turbo"
        },
        Provider::OpenAi => "whisper-1",
        Provider::Custom => "",
    }
}

/// The base URL requests go to, and the environment variable the API key
/// comes from.
pub open spec fn endpoint_of(provider: Provider, api_base_url: Seq<char>) -> (Seq<char>, Seq<char>) {
    match provider {
        Provider::Groq => ("https://api.groq.com/openai/v1"@, "GROQ_API_KEY"@),
        Provider::OpenAi => ("https://api.openai.com/v1"@, "OPENAI_API_KEY"@),
        Provider::Custom => (api_base_url, "RHISPER_API_KEY"@),
    }
}

/// The configured provider's base URL and API key variable.
pub fn resolve_provider(config: &Config) -> (r: (String, &'static str))
    ensures
        (r.0@, r.1@) == endpoint_of(config.provider, config.api_base_url@),
{
    match config.provider {
        Provider::Groq => (String::from_str("https://api.groq.com/openai/v1"), "GROQ_API_KEY"),
        Provider::OpenAi => (String::from_str("https://api.openai.com/v1"), "OPENAI_API_KEY"),
        Provider::Custom => (config.api_base_url.clone(), "RHISPER_API_KEY"),
    }
}

/// The request for `audio_path`: the configured model, or the provider's
/// default; the configured prompt; the configured language, when set.
pub fn transcription_request(config: &Config, audio_path: &str, is_long: bool) -> (r: TranscriptionRequest)
    ensures
        r.audio_path@ == audio_path@,
        r.model@ == (if config.model@.len() > 0 {
            config.model@
        } else {
            default_model_of(config.provider, is_long)
        }),
        r.prompt@ == config.transcription_prompt@,
        match r.language {
            Some(l) => config.language@.len() > 0 && l@ == config.language@,
            None => config.language@.len() == 0,
        },
{
    let model = if !config.model.as_str().is_empty() {
        config.model.clone()
    } else {
        String::from_str(default_model(config.provider, is_long))
    };
    let language = if !config.language.as_str().is_empty() {
        Some(config.language.clone())
    } else {
        None
    };
    TranscriptionRequest {
        audio_path: String::from_str(audio_path),
        model,
        prompt: config.transcription_prompt.clone(),
        language,
    }
}

/// The message for a missing API key, naming the variable to set.
pub fn missing_key_message(env_var: &str) -> (r: String)
    ensures
        r@ == "missing API key: set $"@ + env_var@,
{
    let mut m = String::from_str("missing API key: set $");
    let v = chars_of(env_var);
    push_range(&mut m, &v, 0, v.len());
    proof {
        assert(v@.subrange(0, v@.len() as int) =~= v@);
    }
    m
}

/// The `text` member of the JSON object `body`, when `body` is a JSON
/// object whose `text` member is a string.
pub uninterp spec fn json_text_of(body: Seq<char>) -> Option<Seq<char>>;

/// `serde_json::from_str` reads `body` as a JSON value; when it is an
/// object with a string member `text`, that string is returned. The
/// contract names the result and says nothing more of it.
#[verifier::external_body]
fn json_text_field(body: &str) -> (r: Option<String>)
    ensures
        match r {
            Some(t) => json_text_of(body@) == Some(t@),
            None => json_text_of(body@) is None,
        },
{
    match serde_json::from_str::<serde_json::Value>(body) {
        Ok(serde_json::Value::Object(mut fields)) => match fields.remove("text") {
            Some(serde_json::Value::String(text)) => Some(text),
            _ => None,
        },
        _ => None,
    }
}

/// Why a response yields no transcript.
#[derive(Debug, Clone, PartialEq, Eq)]
pub enum ResponseError {
    /// The server answered with a status outside 200 to 299.
    Http { status: u16, body: String },
    /// The body is not a JSON object with a string `text`.
    UnexpectedResponseShape(String),
}

/// What a response with `status` and `body` amounts to, given the `text`
/// member the body holds (if any): the text with surrounding white space
/// removed for a successful status, else the error.
pub fn outcome_from(status: u16, body: String, text: Option<String>) -> (r: Result<String, ResponseError>)
    ensures
        !(200 <= status < 300) ==> (r matches Err(ResponseError::Http { status: s, body: b }) && s == status
            && b@ == body@),
        (200 <= status < 300 && text is None) ==> (r matches Err(
            ResponseError::UnexpectedResponseShape(b),
        ) && b@ == body@),
        (200 <= status < 300 && text is Some) ==> (r matches Ok(t) && t@ == trim(text->0@)),
{
    if !(200 <= status && status < 300) {
        return Err(ResponseError::Http { status, body });
    }
    match text {
        Some(t) => Ok(trim_string(t.as_str())),
        None => Err(ResponseError::UnexpectedResponseShape(body)),
    }
}

/// What the response with `status` and `body` amounts to: the transcript
/// of a successful response whose body is a JSON object with a string
/// `text`, else the error.
pub fn interpret_response(status: u16, body: String) -> (r: Result<String, ResponseError>)
    ensures
        !(200 <= status < 300) ==> (r matches Err(ResponseError::Http { status: s, body: b }) && s == status
            && b@ == body@),
        (200 <= status < 300 && json_text_of(body@) is None) ==> (r matches Err(
            ResponseError::UnexpectedResponseShape(b),
        ) && b@ == body@),
        (200 <= status < 300 && json_text_of(body@) is Some) ==> (r matches Ok(t) && t@ == trim(
            json_text_of(body@)->0,
        )),
{
    if !(200 <= status && status < 300) {
        return Err(ResponseError::Http { status, body });
    }
    let text = json_text_field(body.as_str());
    outcome_from(status, body, text)
}

} // verus!
