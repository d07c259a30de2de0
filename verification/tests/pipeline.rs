use llmweb::LlmWeb;
use llmweb::browser::BrowserConfig;
use llmweb::browser::RenderEvent;
use llmweb::browser::browser_config;
use llmweb::browser::is_js_blocked;
use llmweb::browser::render_outcome;
use llmweb::error::LlmWebError;
use llmweb::models::CompletionEvent;
use llmweb::models::SCHEMA_LABEL;
use llmweb::models::SYSTEM_PROMPT;
use llmweb::models::completion_outcome;
use llmweb::pipeline::AfterRender;
use llmweb::pipeline::advance_after_render;
use llmweb::pipeline::decode_extraction;
use llmweb::pipeline::parse_schema_str;

fn sample_schema() -> serde_json::Value {
    let schema_text = r#"{
        "type": "array",
        "items": {
            "type": "object",
            "properties": {
                "by": { "type": "string" },
                "comments_url": { "type": "string" },
                "points": { "type": "number" },
                "title": { "type": "string" }
            },
            "required": ["by", "comments_url", "points", "title"]
        }
    }"#;
    serde_json::from_str(schema_text).unwrap()
}

#[test]
fn js_block_detection() {
    assert!(is_js_blocked(
        "<html><body><h1>JavaScript is not available.</h1></body></html>"
    ));
    assert!(is_js_blocked(
        "<html><body>Please enable JavaScript to continue.</body></html>"
    ));
    assert!(!is_js_blocked("<html><body><p>All stories</p></body></html>"));
    assert!(!is_js_blocked(""));
}

#[test]
fn js_blocked_page_fails_rendering_with_distinct_kind() {
    let blocked = "<html><body>Please enable JavaScript</body></html>".to_string();
    let r = render_outcome(RenderEvent::Rendered(blocked));
    match r {
        Err(e) => assert!(matches!(e, LlmWebError::JsBlocked)),
        Ok(_) => panic!("a JavaScript-blocked page must not fetch successfully"),
    }
}

#[test]
fn rendering_failure_never_reaches_completion() {
    // A failure injected at the rendering stage ends the call: no
    // completion request is built, so a completion service is never
    // handed anything.
    let step = advance_after_render(
        sample_schema(),
        RenderEvent::Failed("navigation timed out".to_string()),
    );
    assert!(!matches!(step, AfterRender::SendCompletion(_)));
    match step {
        AfterRender::Fail(LlmWebError::Browser(m)) => {
            assert_eq!(m, "navigation timed out");
        }
        _ => panic!("a rendering failure must surface as a Browser failure"),
    }
}

#[test]
fn successful_render_builds_the_fixed_request() {
    let html = "<html><body>fixed</body></html>".to_string();
    let step = advance_after_render(sample_schema(), RenderEvent::Rendered(html));
    match step {
        AfterRender::SendCompletion(req) => {
            assert_eq!(req.system, SYSTEM_PROMPT);
            assert_eq!(req.user, "<html><body>fixed</body></html>");
            assert_eq!(req.schema_label, SCHEMA_LABEL);
            assert_eq!(req.schema, sample_schema());
        }
        AfterRender::Fail(_) => panic!("a plain page must reach the completion stage"),
    }
}

#[test]
fn round_trip_happy_path() {
    // Fake rendering service returns fixed HTML.
    let html = "<html><body><a>A</a></body></html>".to_string();
    let step = advance_after_render(sample_schema(), RenderEvent::Rendered(html));
    let req = match step {
        AfterRender::SendCompletion(req) => req,
        AfterRender::Fail(_) => panic!("rendering must succeed"),
    };
    assert_eq!(req.user, "<html><body><a>A</a></body></html>");

    // Fake completion service returns a fenced JSON answer.
    let raw = "```json\n[{\"title\":\"A\",\"points\":5,\"by\":null,\"comments_url\":null}]\n```"
        .to_string();
    let text = match completion_outcome(CompletionEvent::Content(raw)) {
        Ok(text) => text,
        Err(_) => panic!("textual content must normalize successfully"),
    };
    assert_eq!(
        text,
        "[{\"title\":\"A\",\"points\":5,\"by\":null,\"comments_url\":null}]"
    );

    let value: serde_json::Value = match decode_extraction(&text) {
        Ok(v) => v,
        Err(_) => panic!("the normalized answer must deserialize"),
    };
    let list = value.as_array().expect("the answer is a list");
    assert_eq!(list.len(), 1);
    let record = &list[0];
    assert_eq!(record.get("title").and_then(|v| v.as_str()), Some("A"));
    assert_eq!(record.get("points").and_then(|v| v.as_i64()), Some(5));
    assert!(record.get("by").expect("field present").is_null());
    assert!(record.get("comments_url").expect("field present").is_null());
}

#[test]
fn malformed_output_is_distinguishable_from_completion_failure() {
    // Fake completion service answers, but with text that is not JSON.
    let r = completion_outcome(CompletionEvent::Content("not json".to_string()));
    let text = match r {
        Ok(text) => text,
        Err(_) => panic!("content must pass the completion stage"),
    };
    let decoded: Result<serde_json::Value, LlmWebError> = decode_extraction(&text);
    match decoded {
        Err(e) => {
            assert!(matches!(e, LlmWebError::MalformedResult(_)));
            assert!(!matches!(e, LlmWebError::ModelClient(_)));
        }
        Ok(_) => panic!("\"not json\" must not decode"),
    }
}

#[test]
fn completion_failures_keep_their_kind_and_message() {
    let r = completion_outcome(CompletionEvent::NoContent);
    match r {
        Err(LlmWebError::ModelClient(m)) => assert_eq!(m, "No content in response"),
        _ => panic!("an empty response must fail as a completion failure"),
    }
    let r = completion_outcome(CompletionEvent::NoText);
    match r {
        Err(LlmWebError::ModelClient(m)) => assert_eq!(m, "Content to string error"),
        _ => panic!("untextual content must fail as a completion failure"),
    }
    let r = completion_outcome(CompletionEvent::Failed("quota exceeded".to_string()));
    match r {
        Err(LlmWebError::ModelClient(m)) => assert_eq!(m, "quota exceeded"),
        _ => panic!("a service failure must keep its message"),
    }
}

#[test]
fn schema_text_parsing_succeeds_exactly_on_valid_json() {
    let ok = parse_schema_str("{\"type\": \"array\"}");
    assert!(ok.is_ok());
    let bad = parse_schema_str("{not json");
    match bad {
        Err(e) => assert!(matches!(e, LlmWebError::InputFailure(_))),
        Ok(_) => panic!("invalid schema text must be rejected"),
    }
}

#[test]
fn browser_config_carries_the_stealth_flags() {
    let c: BrowserConfig = browser_config();
    assert!(c.headless);
    assert_eq!(c.window_width, 1200);
    assert_eq!(c.window_height, 800);
    assert_eq!(c.args.len(), 11);
    assert_eq!(c.args[0], "--disable-blink-features=AutomationControlled");
    assert_eq!(c.args[1], "--no-sandbox");
    assert_eq!(c.args[2], "--disable-web-security");
    assert_eq!(
        c.args[3],
        "--user-agent=Mozilla/5.0 (Windows NT 10.0; Win64; x64) AppleWebKit/537.36 (KHTML, like Gecko) Chrome/91.0.4472.124 Safari/537.36"
    );
    assert_eq!(c.args[4], "--lang=en-US,en;q=0.9");
    assert_eq!(c.args[5], "--disable-dev-shm-usage");
    assert_eq!(c.args[6], "--disable-gpu");
    assert_eq!(c.args[7], "--disable-infobars");
    assert_eq!(c.args[8], "--no-first-run");
    assert_eq!(c.args[9], "--enable-automation=false");
    assert_eq!(c.args[10], "--enable-javascript=true");
}

#[test]
fn llmweb_records_the_model_name() {
    let w = LlmWeb::new("gemini-1.5-flash");
    assert_eq!(w.model, "gemini-1.5-flash");
}

#[test]
fn errors_describe_their_stage() {
    assert_eq!(
        LlmWebError::Browser("boom".to_string()).describe(),
        "Browser error: boom"
    );
    assert_eq!(
        LlmWebError::JsBlocked.describe(),
        "Browser error: JavaScript is required but was not executed"
    );
    assert_eq!(
        LlmWebError::ModelClient("down".to_string()).describe(),
        "Model client error: down"
    );
    assert_eq!(
        LlmWebError::MalformedResult("bad".to_string()).describe(),
        "Malformed model output: bad"
    );
    assert_eq!(
        LlmWebError::InputFailure("bad".to_string()).describe(),
        "Invalid schema input: bad"
    );
}
