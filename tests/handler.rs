use dream_analyzer::handler::{
    analysis_from_doc, build_request, check_prompt, frame_analysis, on_binding_failure, on_body,
    on_inference_failure, on_inference_output, on_method, prompt_from_doc, success_reply, Action,
    HandlerConfig, ResponseShape, Role, FALLBACK_ANALYSIS, SYSTEM_PROMPT,
};
use dream_analyzer::http::{cors_headers, error_reply, HandlerError, Method, Reply, ReplyBody};
use dream_analyzer::json::{find_member, JsonDoc};

fn cors_pairs() -> Vec<(String, String)> {
    vec![
        ("Access-Control-Allow-Origin".to_string(), "*".to_string()),
        ("Access-Control-Allow-Methods".to_string(), "POST, OPTIONS".to_string()),
        ("Access-Control-Allow-Headers".to_string(), "Content-Type".to_string()),
        ("Access-Control-Max-Age".to_string(), "86400".to_string()),
    ]
}

fn expect_text(r: &Reply, status: u16, message: &str) {
    assert_eq!(r.status, status);
    assert_eq!(r.body, ReplyBody::Text(message.to_string()));
    assert_eq!(r.headers, cors_pairs());
}

fn respond(a: Action) -> Reply {
    match a {
        Action::Respond(r) => r,
        other => panic!("expected a reply, got {:?}", other),
    }
}

fn body_text(r: &Reply) -> String {
    match &r.body {
        ReplyBody::Json(b) => b.clone(),
        ReplyBody::Text(b) => b.clone(),
        ReplyBody::Empty => String::new(),
    }
}

#[test]
fn cors_headers_are_the_four_pairs() {
    assert_eq!(cors_headers(), cors_pairs());
}

#[test]
fn other_methods_get_405() {
    for m in [
        Method::Get,
        Method::Head,
        Method::Put,
        Method::Patch,
        Method::Delete,
        Method::Connect,
        Method::Trace,
        Method::Report,
    ] {
        expect_text(&respond(on_method(m)), 405, "Please use POST method");
    }
}

#[test]
fn options_is_empty_preflight() {
    let r = respond(on_method(Method::Options));
    assert_eq!(r.status, 200);
    assert_eq!(r.body, ReplyBody::Empty);
    assert_eq!(r.headers, cors_pairs());
}

#[test]
fn post_reads_the_body() {
    assert_eq!(on_method(Method::Post), Action::ReadBody);
}

#[test]
fn malformed_json_is_400() {
    let config = HandlerConfig::current();
    for body in ["{not json", "", "{\"dreamPrompt\": \"x\"", "dreamPrompt"] {
        let r = respond(on_body(&config, body));
        assert_eq!(r.status, 400);
        assert_eq!(r.headers, cors_pairs());
        assert!(body_text(&r).starts_with("Invalid JSON: "));
    }
}

#[test]
fn empty_blank_or_absent_prompt_is_missing() {
    let config = HandlerConfig::current();
    for body in ["{\"dreamPrompt\":\"\"}", "{\"dreamPrompt\":\"   \"}", "{}", "{\"other\":\"x\"}"] {
        let r = respond(on_body(&config, body));
        expect_text(&r, 400, "Missing dreamPrompt in request body");
        assert!(body_text(&r).contains("dreamPrompt"));
    }
}

#[test]
fn wrong_shape_is_400() {
    let config = HandlerConfig::current();
    for body in ["{\"dreamPrompt\":5}", "[1,2]", "\"just text\"", "null"] {
        expect_text(
            &respond(on_body(&config, body)),
            400,
            "Invalid JSON: expected an object with a string dreamPrompt",
        );
    }
}

fn body_with_prompt(p: &str) -> String {
    format!("{{\"dreamPrompt\":\"{}\"}}", p)
}

#[test]
fn prompt_over_limit_is_400() {
    let config = HandlerConfig::current();
    let body = body_with_prompt(&format!("  {}  ", "a".repeat(5001)));
    let r = respond(on_body(&config, &body));
    expect_text(&r, 400, "Dream prompt is too long. Maximum length is 5000 characters");
    assert!(body_text(&r).contains("5000"));
}

#[test]
fn prompt_at_limit_proceeds() {
    let config = HandlerConfig::current();
    let prompt = "a".repeat(5000);
    match on_body(&config, &body_with_prompt(&format!(" {} ", prompt))) {
        Action::Invoke(_, req) => {
            assert_eq!(req.messages[1].content, format!("Analyze this dream: {}", prompt))
        }
        other => panic!("expected an inference, got {:?}", other),
    }
}

#[test]
fn limit_counts_characters_not_bytes() {
    let config = HandlerConfig::current();
    let prompt = "é".repeat(5000);
    assert!(matches!(on_body(&config, &body_with_prompt(&prompt)), Action::Invoke(_, _)));
    let longer = "é".repeat(5001);
    assert_eq!(respond(on_body(&config, &body_with_prompt(&longer))).status, 400);
}

#[test]
fn check_prompt_bounds() {
    assert_eq!(check_prompt(""), Err(HandlerError::MissingPrompt));
    assert_eq!(check_prompt("x"), Ok(()));
    assert_eq!(check_prompt(&"x".repeat(5000)), Ok(()));
    assert_eq!(check_prompt(&"x".repeat(5001)), Err(HandlerError::PromptTooLong));
}

#[test]
fn payload_has_system_then_user_message() {
    let config = HandlerConfig::current();
    match on_body(&config, "{\"dreamPrompt\":\"  falling down stairs \\n\"}") {
        Action::Invoke(model, req) => {
            assert_eq!(model, "@hf/mistral/mistral-7b-instruct-v0.2");
            assert_eq!(req.messages.len(), 2);
            assert_eq!(req.messages[0].role, Role::System);
            assert_eq!(req.messages[0].content, SYSTEM_PROMPT);
            assert_eq!(req.messages[1].role, Role::User);
            assert_eq!(req.messages[1].content, "Analyze this dream: falling down stairs");
            assert_eq!(req.max_tokens, Some(1024));
        }
        other => panic!("expected an inference, got {:?}", other),
    }
}

#[test]
fn legacy_payload_has_no_token_cap() {
    let config = HandlerConfig::legacy();
    match on_body(&config, "{\"dreamPrompt\":\"teeth falling out\"}") {
        Action::Invoke(model, req) => {
            assert_eq!(model, "@cf/mistral/mistral-7b-instruct-v0.1");
            assert_eq!(req.max_tokens, None);
            assert_eq!(req.messages.len(), 2);
        }
        other => panic!("expected an inference, got {:?}", other),
    }
}

#[test]
fn build_request_prefixes_the_prompt() {
    let req = build_request(Some(7), "a dream");
    assert_eq!(req.messages[1].content, "Analyze this dream: a dream");
    assert_eq!(req.max_tokens, Some(7));
}

#[test]
fn bare_string_output_is_the_analysis() {
    assert_eq!(analysis_from_doc(&JsonDoc::Text("hello".to_string())), "hello");
    let r = on_inference_output(&HandlerConfig::current(), "\"hello\"");
    assert_eq!(r.status, 200);
    assert_eq!(r.body, ReplyBody::Json("{\"analysis\":{\"response\":\"hello\"}}".to_string()));
    assert_eq!(r.headers, cors_pairs());
}

#[test]
fn result_key_is_used() {
    let r = on_inference_output(&HandlerConfig::current(), "{\"result\": \"hi there\"}");
    assert_eq!(body_text(&r), "{\"analysis\":{\"response\":\"hi there\"}}");
}

#[test]
fn key_priority_is_response_result_output() {
    let doc = JsonDoc::Object(vec![
        ("output".to_string(), Some("o".to_string())),
        ("result".to_string(), Some("r".to_string())),
        ("response".to_string(), Some("p".to_string())),
    ]);
    assert_eq!(analysis_from_doc(&doc), "p");
    let doc = JsonDoc::Object(vec![
        ("output".to_string(), Some("o".to_string())),
        ("response".to_string(), None),
    ]);
    assert_eq!(analysis_from_doc(&doc), "o");
    let r = on_inference_output(&HandlerConfig::current(), "{\"response\": 5, \"result\": \"r\"}");
    assert_eq!(body_text(&r), "{\"analysis\":{\"response\":\"r\"}}");
}

#[test]
fn unusable_output_falls_back() {
    let expected = format!("{{\"analysis\":{{\"response\":\"{}\"}}}}", FALLBACK_ANALYSIS);
    for out in ["{\"unrelated\": 5}", "5", "[1, 2]", "null", "{}", "not json"] {
        assert_eq!(body_text(&on_inference_output(&HandlerConfig::current(), out)), expected);
    }
    assert_eq!(analysis_from_doc(&JsonDoc::Other), "Unable to analyze the dream at this time.");
}

#[test]
fn inference_failure_is_500_with_description() {
    let r = on_inference_failure("model overloaded");
    expect_text(&r, 500, "AI error: model overloaded");
    assert!(body_text(&r).contains("model overloaded"));
}

#[test]
fn binding_failure_is_500() {
    expect_text(&on_binding_failure("no binding AI"), 500, "Failed to get AI binding: no binding AI");
}

#[test]
fn end_to_end_flying_dream() {
    let config = HandlerConfig::current();
    assert_eq!(on_method(Method::Post), Action::ReadBody);
    match on_body(&config, "{\"dreamPrompt\":\"I was flying over a city\"}") {
        Action::Invoke(_, req) => {
            assert_eq!(req.messages[1].content, "Analyze this dream: I was flying over a city")
        }
        other => panic!("expected an inference, got {:?}", other),
    }
    let r = on_inference_output(&config, "\"Flying dreams often represent...\"");
    assert_eq!(r.status, 200);
    assert_eq!(
        r.body,
        ReplyBody::Json("{\"analysis\":{\"response\":\"Flying dreams often represent...\"}}".to_string())
    );
    assert_eq!(r.headers, cors_pairs());
}

#[test]
fn flat_shape_for_legacy() {
    let r = on_inference_output(&HandlerConfig::legacy(), "\"hello\"");
    assert_eq!(body_text(&r), "{\"analysis\":\"hello\"}");
}

#[test]
fn analysis_is_escaped() {
    let r = on_inference_output(&HandlerConfig::current(), "\"say \\\"hi\\\"\\nnow\"");
    assert_eq!(body_text(&r), "{\"analysis\":{\"response\":\"say \\\"hi\\\"\\nnow\"}}");
}

#[test]
fn framing_and_encoding_failure() {
    assert_eq!(frame_analysis(ResponseShape::Nested, "\"x\""), "{\"analysis\":{\"response\":\"x\"}}");
    assert_eq!(frame_analysis(ResponseShape::Flat, "\"x\""), "{\"analysis\":\"x\"}");
    expect_text(&success_reply(ResponseShape::Nested, None), 500, "Failed to encode the analysis");
}

#[test]
fn prompt_field_lookup() {
    let doc = JsonDoc::Object(vec![("dreamPrompt".to_string(), Some(" a ".to_string()))]);
    assert_eq!(prompt_from_doc(&doc), Ok(" a ".to_string()));
    let doc = JsonDoc::Object(vec![("dreamPrompt".to_string(), None)]);
    assert_eq!(prompt_from_doc(&doc), Err(HandlerError::WrongShape));
    assert_eq!(prompt_from_doc(&JsonDoc::Object(vec![])), Err(HandlerError::MissingPrompt));
    let fields = vec![("k".to_string(), None), ("k".to_string(), Some("v".to_string()))];
    assert_eq!(find_member(&fields, &"k".to_string()), Some(None));
    assert_eq!(find_member(&fields, &"z".to_string()), None);
}

#[test]
fn error_replies_by_kind() {
    expect_text(&error_reply(HandlerError::InvalidJson("eof".to_string())), 400, "Invalid JSON: eof");
    expect_text(&error_reply(HandlerError::MethodNotAllowed), 405, "Please use POST method");
    expect_text(&error_reply(HandlerError::PromptTooLong), 400, "Dream prompt is too long. Maximum length is 5000 characters");
}
