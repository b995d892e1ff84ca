use gemini_gateway::error::GatewayError;
use gemini_gateway::forward::{Exchange, UpstreamCall};
use gemini_gateway::gateway::{answered, canonical_decoded, legacy_decoded, receive, Step};
use gemini_gateway::relay::Reply;
use gemini_gateway::schema::{Body, Content, LegacyBody, LegacyMessage, Part};
use serde_json::Value;

const GENERIC: &str = "Failed to communicate with Gemini API.";

fn body(text: &str) -> Value {
    serde_json::from_str::<Value>(text).unwrap()
}

fn hi_request(model: Option<&str>) -> Body {
    Body {
        contents: vec![Content {
            parts: vec![Part { text: "hi".to_string() }],
            role: Some("user".to_string()),
        }],
        model: model.map(|m| m.to_string()),
    }
}

fn hi_legacy(model: Option<&str>) -> LegacyBody {
    LegacyBody {
        messages: vec![LegacyMessage { role: "user".to_string(), content: "hi".to_string() }],
        max_tokens: None,
        model: model.map(|m| m.to_string()),
    }
}

#[test]
fn legacy_hi_is_adapted_and_forwarded_with_default_model() {
    let inbound = body(r#"{"messages":[{"role":"user","content":"hi"}]}"#);
    assert_eq!(receive(&inbound), Step::DecodeLegacy);
    let step = legacy_decoded(Some(hi_legacy(None)), "KEY");
    assert_eq!(
        step,
        Step::Forward(UpstreamCall {
            url: "https://generativelanguage.googleapis.com/v1beta/models/gemini-2.0-flash:generateContent?key=KEY"
                .to_string(),
            content_type: "application/json".to_string(),
            body: hi_request(None),
        })
    );
}

#[test]
fn upstream_quota_error_is_answered_with_generic_500() {
    let step = answered(Exchange::Answered {
        status: 429,
        body: Some("{\"error\":\"quota\"}".to_string()),
    });
    match step {
        Step::Respond { reply, error } => {
            assert_eq!(reply.status, 500);
            assert_eq!(reply.body, GENERIC);
            assert!(!reply.body.contains("quota"));
            assert_eq!(reply.content_type, None);
            assert_eq!(
                error,
                Some(GatewayError::UpstreamHttpError {
                    status: 429,
                    body: "{\"error\":\"quota\"}".to_string(),
                })
            );
        }
        other => panic!("expected a reply, got {:?}", other),
    }
}

#[test]
fn empty_object_is_answered_with_400_naming_both_keys() {
    match receive(&body("{}")) {
        Step::Respond { reply, error } => {
            assert_eq!(reply.status, 400);
            assert!(reply.body.contains("'contents'"));
            assert!(reply.body.contains("'messages'"));
            assert_eq!(error, Some(GatewayError::UnrecognizedFormat));
        }
        other => panic!("expected a reply, got {:?}", other),
    }
}

#[test]
fn contents_that_is_no_array_is_answered_with_400_naming_the_canonical_schema() {
    let inbound = body(r#"{"contents":"not-an-array"}"#);
    assert_eq!(receive(&inbound), Step::DecodeCanonical);
    // The server's decoder cannot read a string as the list of turns.
    assert!(serde_json::from_value::<Vec<Value>>(inbound["contents"].clone()).is_err());
    let step = canonical_decoded(None, "KEY");
    assert_eq!(
        step,
        Step::Respond {
            reply: Reply { status: 400, content_type: None, body: "Invalid Gemini format".to_string() },
            error: Some(GatewayError::MalformedCanonical),
        }
    );
}

#[test]
fn body_with_contents_is_decoded_as_canonical() {
    assert_eq!(receive(&body(r#"{"contents":[]}"#)), Step::DecodeCanonical);
    assert_eq!(receive(&body(r#"{"contents":[],"messages":[]}"#)), Step::DecodeCanonical);
    assert_eq!(receive(&body(r#"{"x":1,"contents":7}"#)), Step::DecodeCanonical);
}

#[test]
fn body_with_messages_only_is_decoded_as_legacy() {
    assert_eq!(receive(&body(r#"{"messages":[]}"#)), Step::DecodeLegacy);
    assert_eq!(receive(&body(r#"{"model":"m","messages":"?"}"#)), Step::DecodeLegacy);
}

#[test]
fn body_with_neither_key_is_refused() {
    for text in ["{}", "[]", "null", "7", "\"messages\"", r#"{"prompt":"hi"}"#, r#"{"a":{"contents":[]}}"#] {
        match receive(&body(text)) {
            Step::Respond { reply, error } => {
                assert_eq!(
                    reply,
                    Reply {
                        status: 400,
                        content_type: None,
                        body: "Request must contain either 'contents' (Gemini format) or 'messages' (legacy format)"
                            .to_string(),
                    }
                );
                assert_eq!(error, Some(GatewayError::UnrecognizedFormat));
            }
            other => panic!("expected a reply for {}, got {:?}", text, other),
        }
    }
}

#[test]
fn canonical_request_passes_through_unchanged() {
    let step = canonical_decoded(Some(hi_request(Some("gemini-1.5-pro"))), "s3cret");
    assert_eq!(
        step,
        Step::Forward(UpstreamCall {
            url: "https://generativelanguage.googleapis.com/v1beta/models/gemini-1.5-pro:generateContent?key=s3cret"
                .to_string(),
            content_type: "application/json".to_string(),
            body: hi_request(Some("gemini-1.5-pro")),
        })
    );
}

#[test]
fn canonical_request_without_model_goes_to_default_model() {
    match canonical_decoded(Some(hi_request(None)), "s3cret") {
        Step::Forward(call) => {
            assert_eq!(
                call.url,
                "https://generativelanguage.googleapis.com/v1beta/models/gemini-2.0-flash:generateContent?key=s3cret"
            );
            assert_eq!(call.body, hi_request(None));
        }
        other => panic!("expected a call, got {:?}", other),
    }
}

#[test]
fn legacy_request_keeps_its_model() {
    match legacy_decoded(Some(hi_legacy(Some("gemini-2.5-pro"))), "s3cret") {
        Step::Forward(call) => {
            assert_eq!(
                call.url,
                "https://generativelanguage.googleapis.com/v1beta/models/gemini-2.5-pro:generateContent?key=s3cret"
            );
            assert_eq!(call.body, hi_request(Some("gemini-2.5-pro")));
        }
        other => panic!("expected a call, got {:?}", other),
    }
}

#[test]
fn undecodable_legacy_request_is_refused() {
    assert_eq!(
        legacy_decoded(None, "KEY"),
        Step::Respond {
            reply: Reply { status: 400, content_type: None, body: "Invalid legacy format".to_string() },
            error: Some(GatewayError::MalformedLegacy),
        }
    );
}

#[test]
fn upstream_success_is_relayed() {
    let text = "{\"candidates\":[]}";
    assert_eq!(
        answered(Exchange::Answered { status: 200, body: Some(text.to_string()) }),
        Step::Respond {
            reply: Reply {
                status: 200,
                content_type: Some("application/json".to_string()),
                body: text.to_string(),
            },
            error: None,
        }
    );
}

#[test]
fn transport_failure_is_answered_with_generic_500() {
    assert_eq!(
        answered(Exchange::Failed),
        Step::Respond {
            reply: Reply { status: 500, content_type: None, body: GENERIC.to_string() },
            error: Some(GatewayError::UpstreamTransportError),
        }
    );
}

#[test]
fn unreadable_success_body_is_answered_with_generic_500() {
    assert_eq!(
        answered(Exchange::Answered { status: 200, body: None }),
        Step::Respond {
            reply: Reply { status: 500, content_type: None, body: GENERIC.to_string() },
            error: Some(GatewayError::UpstreamTransportError),
        }
    );
}

#[test]
fn unreadable_error_body_is_recorded_with_placeholder() {
    assert_eq!(
        answered(Exchange::Answered { status: 502, body: None }),
        Step::Respond {
            reply: Reply { status: 500, content_type: None, body: GENERIC.to_string() },
            error: Some(GatewayError::UpstreamHttpError {
                status: 502,
                body: "Could not read error body".to_string(),
            }),
        }
    );
}

#[test]
fn a_request_runs_its_whole_course() {
    let inbound = body(r#"{"messages":[{"role":"user","content":"hi"}],"max_tokens":16}"#);
    let mut steps = 0;
    let mut step = receive(&inbound);
    let reply = loop {
        steps += 1;
        step = match step {
            Step::DecodeCanonical => panic!("a message-list body is not decoded as content-list"),
            Step::DecodeLegacy => legacy_decoded(Some(hi_legacy(None)), "KEY"),
            Step::Forward(call) => {
                assert_eq!(call.body, hi_request(None));
                answered(Exchange::Answered { status: 200, body: Some("{\"ok\":true}".to_string()) })
            }
            Step::Respond { reply, error } => {
                assert_eq!(error, None);
                break reply;
            }
        };
    };
    assert_eq!(steps, 3);
    assert_eq!(reply.status, 200);
    assert_eq!(reply.body, "{\"ok\":true}");
}
