use llm_gateway::config::{parse_u16, port_or_default, startup_config};
use llm_gateway::dispatch::{
    chain_prompt, direct_request, direct_error_reply, dispatch_chain_response,
    dispatch_direct_response, ChainOutcome, DirectOutcome, UpstreamError,
};
use llm_gateway::extract::extract_answer;
use llm_gateway::greet::{greet_default, greet_with_name};
use llm_gateway::json::JsonValue;

fn chat_body(content: &str) -> String {
    format!(
        "{{\"choices\":[{{\"message\":{{\"content\":\"{}\"}}}}]}}",
        content
    )
}

#[test]
fn direct_success_returns_content() {
    let outcome = DirectOutcome::Response(200, Some(chat_body("X")));
    let reply = dispatch_direct_response(outcome);
    assert_eq!(reply.status, 200);
    assert!(reply.json);
    assert_eq!(reply.body, "{\"answer\":\"X\"}");
}

#[test]
fn direct_success_any_success_status() {
    let outcome = DirectOutcome::Response(204, Some(chat_body("ok")));
    let reply = dispatch_direct_response(outcome);
    assert_eq!(reply.status, 200);
    assert_eq!(reply.body, "{\"answer\":\"ok\"}");
}

#[test]
fn direct_malformed_missing_choices() {
    let outcome = DirectOutcome::Response(200, Some("{}".to_string()));
    let reply = dispatch_direct_response(outcome);
    assert_eq!(reply.status, 200);
    assert_eq!(reply.body, "{\"answer\":\"No answer received\"}");
}

#[test]
fn direct_malformed_empty_choices_array() {
    let outcome = DirectOutcome::Response(200, Some("{\"choices\":[]}".to_string()));
    let reply = dispatch_direct_response(outcome);
    assert_eq!(reply.status, 200);
    assert_eq!(reply.body, "{\"answer\":\"No answer received\"}");
}

#[test]
fn direct_malformed_non_string_content() {
    let body = "{\"choices\":[{\"message\":{\"content\":42}}]}".to_string();
    let reply = dispatch_direct_response(DirectOutcome::Response(200, Some(body)));
    assert_eq!(reply.status, 200);
    assert_eq!(reply.body, "{\"answer\":\"No answer received\"}");
}

#[test]
fn direct_malformed_choices_not_array() {
    let body = "{\"choices\":\"zero\"}".to_string();
    let reply = dispatch_direct_response(DirectOutcome::Response(200, Some(body)));
    assert_eq!(reply.status, 200);
    assert_eq!(reply.body, "{\"answer\":\"No answer received\"}");
}

#[test]
fn direct_empty_content_is_fallback_answer() {
    let outcome = DirectOutcome::Response(200, Some(chat_body("")));
    let reply = dispatch_direct_response(outcome);
    assert_eq!(reply.status, 200);
    assert_eq!(reply.body, "{\"answer\":\"No answer received\"}");
}

#[test]
fn extract_substitutes_fallback_for_empty_content() {
    let doc = JsonValue::Obj(vec![(
        "choices".to_string(),
        JsonValue::Arr(vec![JsonValue::Obj(vec![(
            "message".to_string(),
            JsonValue::Obj(vec![(
                "content".to_string(),
                JsonValue::Str(String::new()),
            )]),
        )])]),
    )]);
    assert_eq!(extract_answer(&doc), "No answer received");
}

#[test]
fn direct_unparseable_body_is_internal_error() {
    let reply = dispatch_direct_response(DirectOutcome::Response(200, Some("not json".to_string())));
    assert_eq!(reply.status, 500);
    assert!(!reply.json);
    assert_eq!(reply.body, "Failed to parse response");
}

#[test]
fn direct_unreadable_success_body_is_internal_error() {
    let reply = dispatch_direct_response(DirectOutcome::Response(200, None));
    assert_eq!(reply.status, 500);
    assert_eq!(reply.body, "Failed to parse response");
}

#[test]
fn direct_pass_through_keeps_status_and_body() {
    let upstream = "{\"error\":\"rate limited\"}".to_string();
    let reply = dispatch_direct_response(DirectOutcome::Response(429, Some(upstream)));
    assert_eq!(reply.status, 429);
    assert!(reply.json);
    assert_eq!(reply.body, "{\"error\":\"{\\\"error\\\":\\\"rate limited\\\"}\"}");
}

#[test]
fn direct_pass_through_unreadable_body() {
    let reply = dispatch_direct_response(DirectOutcome::Response(503, None));
    assert_eq!(reply.status, 503);
    assert_eq!(reply.body, "{\"error\":\"Unknown error\"}");
}

#[test]
fn direct_send_failure_is_internal_error() {
    let reply = dispatch_direct_response(DirectOutcome::SendFailed("boom".to_string()));
    assert_eq!(reply.status, 500);
    assert!(!reply.json);
    assert_eq!(reply.body, "Request failed: boom");
}

#[test]
fn direct_missing_credential_fails_fast() {
    let r = direct_request("why is the sky blue", None);
    let e = match r {
        Err(e) => e,
        Ok(_) => panic!("a request was prepared without a credential"),
    };
    assert!(matches!(e, UpstreamError::MissingCredential));
    let reply = direct_error_reply(&e);
    assert_eq!(reply.status, 500);
    assert_eq!(reply.body, "GROQ_API_KEY not set");
}

#[test]
fn direct_request_carries_question_and_key() {
    let r = direct_request("hi", Some("k-123")).unwrap();
    assert_eq!(r.url, "https://api.groq.com/openai/v1/chat/completions");
    assert_eq!(r.auth, "Bearer k-123");
    assert_eq!(
        r.body,
        "{\"model\":\"groq/compound-mini\",\"messages\":[{\"role\":\"user\",\"content\":\"hi\"}]}"
    );
}

#[test]
fn direct_request_escapes_question() {
    let r = direct_request("a\"b\\c\nd", Some("k")).unwrap();
    assert_eq!(
        r.body,
        "{\"model\":\"groq/compound-mini\",\"messages\":[{\"role\":\"user\",\"content\":\"a\\\"b\\\\c\\nd\"}]}"
    );
}

#[test]
fn answer_with_control_characters_is_escaped() {
    let body = "{\"choices\":[{\"message\":{\"content\":\"a\\\"b\\nc\\u0001\"}}]}".to_string();
    let reply = dispatch_direct_response(DirectOutcome::Response(200, Some(body)));
    assert_eq!(reply.status, 200);
    assert_eq!(reply.body, "{\"answer\":\"a\\\"b\\nc\\u0001\"}");
}

#[test]
fn extract_navigates_hand_built_document() {
    let doc = JsonValue::Obj(vec![(
        "choices".to_string(),
        JsonValue::Arr(vec![JsonValue::Obj(vec![(
            "message".to_string(),
            JsonValue::Obj(vec![(
                "content".to_string(),
                JsonValue::Str("hello".to_string()),
            )]),
        )])]),
    )]);
    assert_eq!(extract_answer(&doc), "hello");
}

#[test]
fn extract_falls_back_on_wrong_shapes() {
    assert_eq!(extract_answer(&JsonValue::Null), "No answer received");
    assert_eq!(
        extract_answer(&JsonValue::Obj(vec![(
            "choices".to_string(),
            JsonValue::Num("7".to_string()),
        )])),
        "No answer received"
    );
    assert_eq!(
        extract_answer(&JsonValue::Obj(vec![(
            "choices".to_string(),
            JsonValue::Arr(vec![JsonValue::Obj(vec![(
                "message".to_string(),
                JsonValue::Obj(vec![("content".to_string(), JsonValue::Bool(true))]),
            )])]),
        )])),
        "No answer received"
    );
}

#[test]
fn chain_success_returns_primary_text() {
    let reply = dispatch_chain_response(ChainOutcome::Resolved(Some("Y".to_string())));
    assert_eq!(reply.status, 200);
    assert!(reply.json);
    assert_eq!(reply.body, "{\"answer\":\"Y\"}");
}

#[test]
fn chain_missing_output_is_fallback_answer() {
    let reply = dispatch_chain_response(ChainOutcome::Resolved(None));
    assert_eq!(reply.status, 200);
    assert_eq!(reply.body, "{\"answer\":\"No answer received\"}");
}

#[test]
fn chain_empty_output_is_fallback_answer() {
    let reply = dispatch_chain_response(ChainOutcome::Resolved(Some(String::new())));
    assert_eq!(reply.status, 200);
    assert_eq!(reply.body, "{\"answer\":\"No answer received\"}");
}

#[test]
fn chain_run_failure_is_internal_error_not_fallback() {
    let reply = dispatch_chain_response(ChainOutcome::RunFailed("upstream said no".to_string()));
    assert_eq!(reply.status, 500);
    assert!(!reply.json);
    assert_eq!(reply.body, "upstream said no");
}

#[test]
fn chain_resolve_failure_is_internal_error_not_fallback() {
    let reply = dispatch_chain_response(ChainOutcome::ResolveFailed("lost it".to_string()));
    assert_eq!(reply.status, 500);
    assert_eq!(reply.body, "lost it");
}

#[test]
fn chain_prompt_substitutes_question() {
    assert_eq!(
        chain_prompt("why?"),
        "You are a helpful assistant. Answer concisely:\nwhy?"
    );
}

#[test]
fn repeated_question_gives_identical_reply() {
    let body = chat_body("same answer");
    let first = dispatch_direct_response(DirectOutcome::Response(200, Some(body.clone())));
    let second = dispatch_direct_response(DirectOutcome::Response(200, Some(body)));
    assert_eq!(first.status, second.status);
    assert_eq!(first.json, second.json);
    assert_eq!(first.body, second.body);

    let c1 = dispatch_chain_response(ChainOutcome::Resolved(Some("Z".to_string())));
    let c2 = dispatch_chain_response(ChainOutcome::Resolved(Some("Z".to_string())));
    assert_eq!(c1.status, c2.status);
    assert_eq!(c1.body, c2.body);
}

#[test]
fn startup_without_chain_credential_is_fatal() {
    let r = startup_config(None, Some("some-model".to_string()));
    assert_eq!(r.err().unwrap(), "OPENROUTER_API_KEY not set");
}

#[test]
fn startup_with_credential_fills_defaults() {
    let c = startup_config(Some("or-key".to_string()), None).unwrap();
    assert_eq!(c.api_key, "or-key");
    assert_eq!(c.api_base, "https://openrouter.ai/api/v1");
    assert_eq!(c.model, "meta-llama/llama-3.2-3b-instruct");
}

#[test]
fn startup_keeps_chosen_model() {
    let c = startup_config(Some("or-key".to_string()), Some("my/model".to_string())).unwrap();
    assert_eq!(c.model, "my/model");
}

#[test]
fn port_defaults_and_bounds() {
    assert_eq!(port_or_default(None), 8080);
    assert_eq!(port_or_default(Some("3000")), 3000);
    assert_eq!(port_or_default(Some("+80")), 80);
    assert_eq!(port_or_default(Some("0080")), 80);
    assert_eq!(port_or_default(Some("65535")), 65535);
    assert_eq!(port_or_default(Some("65536")), 8080);
    assert_eq!(port_or_default(Some("")), 8080);
    assert_eq!(port_or_default(Some("+")), 8080);
    assert_eq!(port_or_default(Some("80x")), 8080);
    assert_eq!(port_or_default(Some("-1")), 8080);
}

#[test]
fn port_parse_matches_standard_parse() {
    let samples = [
        "", "0", "8080", "65535", "65536", "99999999999999999999", "+1", "++1", "+", "-0",
        " 80", "80 ", "008", "8x", "x8",
    ];
    for s in samples {
        assert_eq!(parse_u16(s), s.parse::<u16>().ok(), "sample {:?}", s);
    }
}

#[test]
fn greetings() {
    assert_eq!(greet_with_name("Ada"), "Hello, Ada!");
    assert_eq!(greet_default(), "Hello, world!");
}
