use idea_core::errors::IdeaError;
use idea_core::extract::extract_json;
use idea_core::idea::decode_idea;
use idea_core::prompt::build_prompt;
use idea_core::response::decode_completion;
use idea_core::response::finish_generate;
use idea_core::response::finish_probe;
use idea_core::response::HttpOutcome;
use idea_core::wire::encode_request;
use idea_core::wire::generate_request_body;
use idea_core::wire::probe_request_body;

const IDEA_JSON: &str = "{\"concept\":\"A planner.\",\"platform\":\"Web\",\"target_audience\":\"Students\",\"key_features\":[\"f1\",\"f2\",\"f3\",\"f4\",\"f5\"],\"monetization\":\"Ads\",\"value_proposition\":\"Saves time.\"}";

#[test]
fn prompt_names_the_category_industry() {
    let p = build_prompt("Finance");
    assert!(p.contains("the Finance industry"));
    assert!(p.starts_with(
        "Generate a detailed startup or application idea for the Finance industry.\n\n"
    ));
    assert!(p.ends_with("Include 5-8 key features."));
}

#[test]
fn prompt_for_sentinel_names_no_industry() {
    let p = build_prompt("All Categories");
    assert!(p.contains("any domain or industry"));
    assert!(p.starts_with(
        "Generate a detailed startup or application idea for any domain or industry.\n\n"
    ));
}

#[test]
fn extract_tagged_fence_yields_payload() {
    assert_eq!(extract_json("```json\n{\"a\":1}\n```"), "{\"a\":1}");
}

#[test]
fn extract_unterminated_fence_yields_whole_text_trimmed() {
    assert_eq!(extract_json("```json\n{\"a\":1}"), "```json\n{\"a\":1}");
    assert_eq!(extract_json("  text ``` tail "), "text ``` tail");
}

#[test]
fn extract_bare_text_only_trims() {
    assert_eq!(extract_json("  {\"a\":1} \n"), "{\"a\":1}");
    assert_eq!(extract_json(""), "");
    assert_eq!(extract_json("   \t\n"), "");
}

#[test]
fn extract_trims_unicode_whitespace() {
    assert_eq!(extract_json("\u{a0} {\"a\":1} \u{2003}\u{3000}"), "{\"a\":1}");
}

#[test]
fn generation_decode_failure_embeds_the_offending_payload() {
    let body = completion_body(&["  this is not an idea payload  "]);
    match finish_generate(HttpOutcome::Response(200, body)) {
        Err(IdeaError::Decode(d)) => assert!(d.contains("this is not an idea payload")),
        _ => panic!("expected a decode error"),
    }
}

#[test]
fn generation_schema_failure_names_the_member_and_embeds_the_payload() {
    let payload = "{\"concept\":\"c\",\"platform\":\"p\",\"target_audience\":\"t\",\"monetization\":\"m\",\"value_proposition\":\"v\"}";
    let body = completion_body(&[payload]);
    match finish_generate(HttpOutcome::Response(200, body)) {
        Err(IdeaError::Decode(d)) => {
            assert!(d.contains("key_features"));
            assert!(d.contains(payload));
        }
        _ => panic!("expected a decode error"),
    }
}

#[test]
fn extract_untagged_fence_yields_payload() {
    assert_eq!(extract_json("before ```\npayload\n``` after"), "payload");
}

#[test]
fn extract_prefers_tagged_fence() {
    assert_eq!(extract_json("``` x ``` then ```json\n{\"b\":2}\n```"), "{\"b\":2}");
}

#[test]
fn decode_accepts_exactly_the_six_fields() {
    let idea = match decode_idea(IDEA_JSON) {
        Ok(i) => i,
        Err(_) => panic!("expected a decoded idea"),
    };
    assert_eq!(idea.concept, "A planner.");
    assert_eq!(idea.platform, "Web");
    assert_eq!(idea.target_audience, "Students");
    assert_eq!(idea.key_features, vec!["f1", "f2", "f3", "f4", "f5"]);
    assert_eq!(idea.monetization, "Ads");
    assert_eq!(idea.value_proposition, "Saves time.");
}

#[test]
fn decode_ignores_unknown_extra_fields() {
    let text = "{\"concept\":\"c\",\"platform\":\"Web\",\"target_audience\":\"t\",\"key_features\":[\"a\",\"b\"],\"monetization\":\"m\",\"value_proposition\":\"v\",\"extra\":123,\"more\":[true,null]}";
    let idea = match decode_idea(text) {
        Ok(i) => i,
        Err(_) => panic!("expected extra fields to be ignored"),
    };
    assert_eq!(idea.concept, "c");
    assert_eq!(idea.key_features, vec!["a", "b"]);
}

#[test]
fn decode_rejects_missing_key_features() {
    let text = "{\"concept\":\"c\",\"platform\":\"Web\",\"target_audience\":\"t\",\"monetization\":\"m\",\"value_proposition\":\"v\"}";
    match decode_idea(text) {
        Ok(_) => panic!("expected a decode error"),
        Err(IdeaError::Decode(d)) => {
            assert!(d.contains("key_features"));
            assert!(d.contains(text));
        }
        Err(_) => panic!("expected a decode error"),
    }
}

#[test]
fn decode_rejects_mistyped_key_features() {
    let text = "{\"concept\":\"c\",\"platform\":\"Web\",\"target_audience\":\"t\",\"key_features\":[\"a\",1],\"monetization\":\"m\",\"value_proposition\":\"v\"}";
    match decode_idea(text) {
        Ok(_) => panic!("expected a decode error"),
        Err(e) => assert!(matches!(e, IdeaError::Decode(_))),
    }
}

#[test]
fn decode_rejects_malformed_json_with_diagnostic_and_text() {
    match decode_idea("nope") {
        Ok(_) => panic!("expected a decode error"),
        Err(IdeaError::Decode(d)) => assert!(d.contains("nope")),
        Err(_) => panic!("expected a decode error"),
    }
}

fn completion_body(texts: &[&str]) -> String {
    let blocks: Vec<serde_json::Value> = texts
        .iter()
        .map(|t| {
            let mut block = serde_json::Map::new();
            block.insert("text".to_string(), serde_json::Value::String(t.to_string()));
            serde_json::Value::Object(block)
        })
        .collect();
    let mut top = serde_json::Map::new();
    top.insert("content".to_string(), serde_json::Value::Array(blocks));
    serde_json::Value::Object(top).to_string()
}

#[test]
fn completion_texts_come_back_in_order() {
    let body = completion_body(&["one", "two"]);
    let texts = match decode_completion(&body) {
        Ok(t) => t,
        Err(_) => panic!("expected the body to decode"),
    };
    assert_eq!(texts, vec!["one", "two"]);
}

#[test]
fn completion_without_content_array_is_a_decode_error() {
    match decode_completion("{\"content\":\"not an array\"}") {
        Err(IdeaError::Decode(_)) => {}
        _ => panic!("expected a decode error"),
    }
    match decode_completion("{\"other\":[]}") {
        Err(IdeaError::Decode(_)) => {}
        _ => panic!("expected a decode error"),
    }
}

#[test]
fn completion_block_without_text_is_a_decode_error() {
    match decode_completion("{\"content\":[{\"text\":\"ok\"},{\"kind\":\"image\"}]}") {
        Err(IdeaError::Decode(_)) => {}
        _ => panic!("expected a decode error"),
    }
}

#[test]
fn extract_finds_fence_after_leading_prose() {
    assert_eq!(
        extract_json("Sure, here it is:\n```json\n{\"a\":1}\n```\nEnjoy!"),
        "{\"a\":1}"
    );
}

#[test]
fn generation_succeeds_on_fenced_payload() {
    let reply = format!("Here you go:\n```json\n{}\n```", IDEA_JSON);
    let body = completion_body(&[&reply]);
    let idea = match finish_generate(HttpOutcome::Response(200, body)) {
        Ok(i) => i,
        Err(_) => panic!("expected a generated idea"),
    };
    assert_eq!(idea.platform, "Web");
    assert_eq!(idea.key_features.len(), 5);
}

#[test]
fn generation_surfaces_api_error_with_status_and_body() {
    match finish_generate(HttpOutcome::Response(401, "unauthorized".to_string())) {
        Ok(_) => panic!("expected an API error"),
        Err(IdeaError::Api(status, body)) => {
            assert_eq!(status, 401);
            assert_eq!(body, "unauthorized");
        }
        Err(_) => panic!("expected an API error"),
    }
}

#[test]
fn generation_surfaces_transport_error() {
    match finish_generate(HttpOutcome::Transport("dns failure".to_string())) {
        Err(IdeaError::Transport(d)) => assert_eq!(d, "dns failure"),
        _ => panic!("expected a transport error"),
    }
}

#[test]
fn generation_reports_empty_content() {
    let body = completion_body(&[]);
    match finish_generate(HttpOutcome::Response(200, body)) {
        Err(IdeaError::EmptyResponse) => {}
        _ => panic!("expected an empty-response error"),
    }
}

#[test]
fn generation_reports_malformed_body() {
    match finish_generate(HttpOutcome::Response(200, "not json".to_string())) {
        Err(IdeaError::Decode(_)) => {}
        _ => panic!("expected a decode error"),
    }
}

#[test]
fn generation_consults_only_the_first_block() {
    let reply = format!("```json\n{}\n```", IDEA_JSON);
    let body = completion_body(&[&reply, "garbage that is not JSON"]);
    assert!(finish_generate(HttpOutcome::Response(200, body)).is_ok());
}

#[test]
fn probe_is_a_pure_status_check() {
    match finish_probe(HttpOutcome::Response(200, String::new())) {
        Ok(b) => assert!(b),
        Err(_) => panic!("expected a verdict"),
    }
    match finish_probe(HttpOutcome::Response(299, "ignored".to_string())) {
        Ok(b) => assert!(b),
        Err(_) => panic!("expected a verdict"),
    }
    match finish_probe(HttpOutcome::Response(300, String::new())) {
        Ok(b) => assert!(!b),
        Err(_) => panic!("expected a verdict"),
    }
    match finish_probe(HttpOutcome::Response(404, "not json".to_string())) {
        Ok(b) => assert!(!b),
        Err(_) => panic!("expected a verdict"),
    }
    match finish_probe(HttpOutcome::Response(500, String::new())) {
        Ok(b) => assert!(!b),
        Err(_) => panic!("expected a verdict"),
    }
}

#[test]
fn probe_errs_only_on_transport_failure() {
    match finish_probe(HttpOutcome::Transport("connection refused".to_string())) {
        Err(IdeaError::Transport(d)) => assert_eq!(d, "connection refused"),
        _ => panic!("expected a transport error"),
    }
}

#[test]
fn errors_carry_descriptive_messages() {
    assert_eq!(
        IdeaError::Api(401, "unauthorized".to_string()).message(),
        "API error 401: unauthorized"
    );
    assert_eq!(IdeaError::Transport("no route".to_string()).message(), "no route");
    assert_eq!(IdeaError::EmptyResponse.message(), "No content in response");
    assert_eq!(IdeaError::Store("locked".to_string()).message(), "locked");
    assert_eq!(IdeaError::Decode("bad".to_string()).message(), "bad");
}

#[test]
fn request_body_has_the_fixed_wire_shape() {
    assert_eq!(
        probe_request_body("m1"),
        "{\"model\":\"m1\",\"max_tokens\":10,\"messages\":[{\"role\":\"user\",\"content\":\"Hi\"}]}"
    );
}

#[test]
fn request_body_escapes_string_content() {
    let body = encode_request("m", 2048, "a\"b\\c\nd\u{1}");
    assert_eq!(
        body,
        "{\"model\":\"m\",\"max_tokens\":2048,\"messages\":[{\"role\":\"user\",\"content\":\"a\\\"b\\\\c\\nd\\u0001\"}]}"
    );
}

#[test]
fn request_body_is_valid_json_carrying_the_prompt() {
    let body = generate_request_body("m1", "Health & \"Wellness\"");
    let v: serde_json::Value = serde_json::from_str(&body).expect("the body must be valid JSON");
    assert_eq!(v.get("model").unwrap().as_str().unwrap(), "m1");
    assert_eq!(v.get("max_tokens").unwrap().as_u64().unwrap(), 2048);
    let messages = v.get("messages").unwrap().as_array().unwrap();
    assert_eq!(messages.len(), 1);
    assert_eq!(messages[0].get("role").unwrap().as_str().unwrap(), "user");
    let content = messages[0].get("content").unwrap().as_str().unwrap();
    assert!(content.contains("the Health & \"Wellness\" industry"));
}
