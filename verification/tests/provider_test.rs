use rhisper_core::config::{parse, Provider};
use rhisper_core::provider::{
    default_model, interpret_response, missing_key_message, outcome_from, resolve_provider,
    transcription_request, ResponseError,
};

#[test]
fn success_response_is_parsed_and_leading_space_trimmed() {
    let r = interpret_response(200, "{\"text\": \" hello world\"}".to_string());
    assert_eq!(r, Ok("hello world".to_string()));
}

#[test]
fn http_error_status_never_produces_a_transcript() {
    let r = interpret_response(401, "{\"error\":\"invalid api key\"}".to_string());
    match r {
        Err(ResponseError::Http { status, body }) => {
            assert_eq!(status, 401);
            assert!(body.contains("invalid api key"));
        }
        other => panic!("expected Http error, got {other:?}"),
    }
}

#[test]
fn malformed_json_body_is_reported_not_swallowed() {
    let r = interpret_response(200, "not valid json at all".to_string());
    match r {
        Err(ResponseError::UnexpectedResponseShape(body)) => {
            assert!(body.contains("not valid json"));
        }
        other => panic!("expected UnexpectedResponseShape error, got {other:?}"),
    }
}

#[test]
fn response_missing_text_field_is_reported() {
    let r = interpret_response(200, "{\"other\": true}".to_string());
    assert!(matches!(r, Err(ResponseError::UnexpectedResponseShape(_))));
    let r = interpret_response(200, "{\"text\": 5}".to_string());
    assert!(matches!(r, Err(ResponseError::UnexpectedResponseShape(_))));
}

#[test]
fn outcome_of_a_known_text_member() {
    assert_eq!(outcome_from(200, "b".to_string(), Some("  hi \n".to_string())), Ok("hi".to_string()));
    assert_eq!(
        outcome_from(299, "b".to_string(), None),
        Err(ResponseError::UnexpectedResponseShape("b".to_string()))
    );
    assert_eq!(
        outcome_from(500, "b".to_string(), Some("hi".to_string())),
        Err(ResponseError::Http { status: 500, body: "b".to_string() })
    );
}

#[test]
fn models_and_endpoints() {
    assert_eq!(default_model(Provider::Groq, true), "whisper-large-v3");
    assert_eq!(default_model(Provider::Groq, false), "whisper-large-v3-turbo");
    assert_eq!(default_model(Provider::OpenAi, true), "whisper-1");
    assert_eq!(default_model(Provider::Custom, false), "");
    let groq = parse("");
    assert_eq!(resolve_provider(&groq), ("https://api.groq.com/openai/v1".to_string(), "GROQ_API_KEY"));
    let custom = parse("provider: custom\napi-base-url: http://localhost:9000/v1\n");
    assert_eq!(resolve_provider(&custom), ("http://localhost:9000/v1".to_string(), "RHISPER_API_KEY"));
    let openai = parse("provider: openai\n");
    assert_eq!(resolve_provider(&openai), ("https://api.openai.com/v1".to_string(), "OPENAI_API_KEY"));
}

#[test]
fn requests_use_the_configured_model_and_language() {
    let c = parse("language: de\ntranscription-prompt: Verus\n");
    let r = transcription_request(&c, "/tmp/rhisper.wav", false);
    assert_eq!(r.model, "whisper-large-v3-turbo");
    assert_eq!(r.language, Some("de".to_string()));
    assert_eq!(r.prompt, "Verus");
    assert_eq!(r.audio_path, "/tmp/rhisper.wav");
    let c = parse("model: gpt-4o-transcribe\n");
    let r = transcription_request(&c, "a.wav", true);
    assert_eq!(r.model, "gpt-4o-transcribe");
    assert_eq!(r.language, None);
}

#[test]
fn missing_key_names_the_variable() {
    assert_eq!(missing_key_message("GROQ_API_KEY"), "missing API key: set $GROQ_API_KEY");
}
