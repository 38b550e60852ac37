use backend_actix_web::completion::{
    prepare_call, read_reply, report_from_reply, CompletionError, ProviderConfig, ProviderReply,
    Role, API_KEY_VAR,
};
use backend_actix_web::form::{parse_report_request, FormPart};
use backend_actix_web::prompt::{build_prompt, ReportResponse};

fn answered(status: u16, choices: Result<Vec<&str>, &str>) -> ProviderReply {
    ProviderReply::Answered {
        status,
        choices: choices
            .map(|c| c.into_iter().map(|s| s.to_string()).collect())
            .map_err(|e| e.to_string()),
    }
}

#[test]
fn missing_credential_whatever_the_prompt() {
    let config = ProviderConfig::new(None);
    for prompt in ["Test prompt", "Say hello in a medical style.", ""] {
        let err = prepare_call(&config, prompt.to_string()).unwrap_err();
        assert_eq!(err, CompletionError::MissingCredential);
        assert!(err.message().contains("OPENAI_API_KEY"));
        assert!(err.message().contains(API_KEY_VAR));
    }
}

#[test]
fn call_carries_persona_and_prompt() {
    let config = ProviderConfig::new(Some("SECRET-REDACTED".to_string()));
    let call = prepare_call(&config, "Say hello".to_string()).unwrap();
    assert_eq!(call.endpoint, "https://api.openai.com/v1/chat/completions");
    assert_eq!(call.bearer_token, "SECRET-REDACTED");
    assert_eq!(call.request.model, "gpt-4o");
    assert_eq!(call.request.messages.len(), 2);
    assert_eq!(call.request.messages[0].role, Role::System);
    assert_eq!(
        call.request.messages[0].content,
        "You are a medical documentation expert. Please produce detailed, professional, and insurance-appropriate clinical narratives."
    );
    assert_eq!(call.request.messages[1].role, Role::User);
    assert_eq!(call.request.messages[1].content, "Say hello");
}

#[test]
fn first_choice_is_trimmed() {
    let r = read_reply(answered(200, Ok(vec![" Hello there ", "ignored"])));
    assert_eq!(r, Ok("Hello there".to_string()));
}

#[test]
fn no_choices_is_empty_response() {
    assert_eq!(read_reply(answered(200, Ok(vec![]))), Err(CompletionError::EmptyResponse));
    assert_eq!(
        CompletionError::EmptyResponse.message(),
        "No choices returned in OpenAI response"
    );
}

#[test]
fn failing_status_is_provider_error() {
    let err = read_reply(answered(500, Ok(vec!["unused"]))).unwrap_err();
    assert_eq!(err, CompletionError::ProviderError(500));
    assert!(err.message().contains("500"));
    assert_eq!(
        CompletionError::ProviderError(404).message(),
        "OpenAI API responded with non-success status: 404"
    );
    assert_eq!(
        CompletionError::ProviderError(7).message(),
        "OpenAI API responded with non-success status: 7"
    );
    assert_eq!(
        read_reply(answered(199, Ok(vec!["x"]))),
        Err(CompletionError::ProviderError(199))
    );
    assert_eq!(read_reply(answered(299, Ok(vec!["x"]))), Ok("x".to_string()));
}

#[test]
fn unparsable_body_is_decode_error() {
    let err = read_reply(answered(200, Err("expected value"))).unwrap_err();
    assert_eq!(err, CompletionError::DecodeError("expected value".to_string()));
    assert_eq!(err.message(), "Failed to parse OpenAI response JSON: expected value");
}

#[test]
fn unreachable_provider_is_transport_error() {
    let err = read_reply(ProviderReply::Unreachable("connection refused".to_string())).unwrap_err();
    assert_eq!(err, CompletionError::Transport("connection refused".to_string()));
    assert_eq!(err.message(), "Failed to send OpenAI request: connection refused");
}

#[test]
fn submission_to_report_end_to_end() {
    let parts = vec![
        FormPart {
            name: Some("report_type".to_string()),
            filename: None,
            data: b"Appeal".to_vec(),
        },
        FormPart {
            name: Some("denial_text".to_string()),
            filename: None,
            data: b"Lacked documentation".to_vec(),
        },
        FormPart {
            name: Some("files[]".to_string()),
            filename: Some("note.txt".to_string()),
            data: b"Subjective: pain".to_vec(),
        },
    ];
    let request = parse_report_request(&parts).unwrap();
    let prompt = build_prompt(&request);
    assert!(prompt.contains("Report type: Appeal"));
    assert!(prompt.contains("--- note.txt ---\nSubjective: pain\n"));

    let config = ProviderConfig::new(Some("SECRET-REDACTED".to_string()));
    let call = prepare_call(&config, prompt.clone()).unwrap();
    assert_eq!(call.request.messages[1].content, prompt);

    // A stub provider that always answers with one fixed string.
    let reply = answered(200, Ok(vec!["Fixed report."]));
    let response = report_from_reply(reply).unwrap();
    assert_eq!(response, ReportResponse { report: "Fixed report.".to_string() });

    let mut body = serde_json::Map::new();
    body.insert("report".to_string(), serde_json::Value::String(response.report));
    assert_eq!(
        serde_json::Value::Object(body).to_string(),
        "{\"report\":\"Fixed report.\"}"
    );
}
