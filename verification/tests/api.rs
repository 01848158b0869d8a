use linwhisper::api::TranscriptionError;
use linwhisper::api::interpret_response;
use linwhisper::api::transcription_endpoint;
use linwhisper::config::Config;
use linwhisper::config::Provider;
use linwhisper::config::select_provider;

#[test]
fn success_body_yields_the_text_field() {
    let got = interpret_response(200, "{\"text\": \"hello world\"}".to_string());
    assert_eq!(got.unwrap(), "hello world");
}

#[test]
fn nested_and_extra_fields_are_ignored() {
    let body = "{\"task\": \"transcribe\", \"text\": \"ok then\", \"duration\": 2.5}";
    let got = interpret_response(299, body.to_string());
    assert_eq!(got.unwrap(), "ok then");
}

#[test]
fn non_success_status_carries_status_and_body() {
    let got = interpret_response(404, "not here".to_string());
    match got {
        Err(TranscriptionError::Status(status, body)) => {
            assert_eq!(status, 404);
            assert_eq!(body, "not here");
        }
        _ => panic!("expected a status failure"),
    }
}

#[test]
fn status_300_is_not_a_success() {
    assert!(matches!(
        interpret_response(300, "{\"text\": \"x\"}".to_string()),
        Err(TranscriptionError::Status(300, _))
    ));
}

#[test]
fn malformed_body_is_a_malformed_response() {
    assert!(matches!(
        interpret_response(200, "it broke".to_string()),
        Err(TranscriptionError::MalformedResponse)
    ));
}

#[test]
fn json_without_text_field_is_missing_text() {
    assert!(matches!(
        interpret_response(200, "{\"word\": \"hello\"}".to_string()),
        Err(TranscriptionError::MissingTextField)
    ));
}

#[test]
fn non_string_text_field_is_missing_text() {
    assert!(matches!(
        interpret_response(200, "{\"text\": 5}".to_string()),
        Err(TranscriptionError::MissingTextField)
    ));
}

#[test]
fn endpoint_appends_the_request_path() {
    let got = transcription_endpoint(b"https://api.example.com/v1");
    assert_eq!(got, b"https://api.example.com/v1/audio/transcriptions".to_vec());
}

#[test]
fn endpoint_drops_trailing_slashes() {
    let got = transcription_endpoint(b"https://api.example.com/v1///");
    assert_eq!(got, b"https://api.example.com/v1/audio/transcriptions".to_vec());
}

#[test]
fn endpoint_of_empty_base_is_just_the_path() {
    let got = transcription_endpoint(b"");
    assert_eq!(got, b"/audio/transcriptions".to_vec());
}

fn config_with_key(key: Option<&str>) -> Config {
    Config {
        api_base_url: "https://api.example.com/v1".to_string(),
        api_key: key.map(|k| k.to_string()),
        api_model: "base".to_string(),
        whisper_model_path: "model.bin".to_string(),
    }
}

#[test]
fn credential_presence_selects_the_remote_provider() {
    assert_eq!(select_provider(&config_with_key(Some("k"))), Provider::Remote);
}

#[test]
fn credential_absence_selects_the_local_provider() {
    assert_eq!(select_provider(&config_with_key(None)), Provider::Local);
}
