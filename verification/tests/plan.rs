//! The plan provider: request building, reply unwrapping, fence stripping,
//! parsing and validation.

use qutebrowser_agent::errors::AgentError;
use qutebrowser_agent::gemini::{
    build_plan_request, extract_candidate_text, generate_content_url, parse_browser_plan,
    validate_plan, GEMINI_BASE_URL, SYSTEM_PROMPT,
};
use qutebrowser_agent::text::extract_json_text;
use qutebrowser_agent::types::{
    BrowserCommand, BrowserPlan, GeminiCandidate, GeminiContent, GeminiPart, GeminiResponse,
};

fn plan(action: &str, steps: Option<Vec<&str>>) -> BrowserPlan {
    BrowserPlan {
        action: String::from(action),
        thought: String::from("some thought"),
        witty_message: String::from("✨"),
        steps: steps.map(|cmds| {
            cmds.into_iter()
                .map(|c| BrowserCommand { command: String::from(c) })
                .collect()
        }),
    }
}

#[test]
fn validate_rejects_execute_without_steps() {
    assert!(validate_plan(&plan("execute", None)).is_err());
    assert!(validate_plan(&plan("execute", Some(vec![]))).is_err());
}

#[test]
fn validate_rejects_for_any_decoration() {
    let mut p = plan("execute", None);
    p.thought = String::from("anything at all");
    p.witty_message = String::new();
    assert!(matches!(validate_plan(&p), Err(AgentError::InvalidPlan)));
}

#[test]
fn validate_accepts_execute_with_steps_and_finish_without() {
    assert!(validate_plan(&plan("execute", Some(vec![":hint"]))).is_ok());
    assert!(validate_plan(&plan("finish", None)).is_ok());
    assert!(validate_plan(&plan("finish", Some(vec![]))).is_ok());
}

const PLAIN_PLAN: &str = r#"{"action":"execute","thought":"open it","wittyMessage":"🔮","steps":[{"command":":open https://example.com"},{"command":":hint"}]}"#;

#[test]
fn parse_plain_json_plan() {
    let p = parse_browser_plan(PLAIN_PLAN).expect("parses");
    assert_eq!(p.action, "execute");
    assert_eq!(p.thought, "open it");
    assert_eq!(p.witty_message, "🔮");
    let steps = p.steps.expect("steps present");
    assert_eq!(steps.len(), 2);
    assert_eq!(steps[0].command, ":open https://example.com");
    assert_eq!(steps[1].command, ":hint");
}

#[test]
fn parse_fenced_json_identical_to_plain() {
    let fenced_tagged = format!("```json\n{}\n```", PLAIN_PLAN);
    let fenced_plain = format!("```\n{}\n```", PLAIN_PLAN);
    for text in [fenced_tagged.as_str(), fenced_plain.as_str(), PLAIN_PLAN] {
        let p = parse_browser_plan(text).expect("parses");
        assert_eq!(p.action, "execute");
        assert_eq!(p.thought, "open it");
        assert_eq!(p.steps.as_ref().unwrap().len(), 2);
    }
}

#[test]
fn extract_json_text_strips_fences() {
    assert_eq!(extract_json_text("```json\n{\"a\":1}\n```"), "{\"a\":1}");
    assert_eq!(extract_json_text("```\nline one\nline two\n```"), "line one\nline two");
    assert_eq!(extract_json_text("{\"a\":1}"), "{\"a\":1}");
    // Text after the closing fence is dropped, as line-wise stripping does.
    assert_eq!(extract_json_text("```json\n{}\n```\ntrailing"), "{}");
}

#[test]
fn parse_failure_keeps_raw_and_cleaned_text() {
    let text = "```json\nnot json at all\n```";
    match parse_browser_plan(text) {
        Err(AgentError::MalformedPlan { raw, cleaned }) => {
            assert_eq!(raw, text);
            assert_eq!(cleaned, "not json at all");
        }
        other => panic!("expected MalformedPlan, got {:?}", other),
    }
}

#[test]
fn parse_missing_required_field_is_malformed() {
    // No wittyMessage: the schema's required string is absent.
    let text = r#"{"action":"finish","thought":"done"}"#;
    assert!(matches!(
        parse_browser_plan(text),
        Err(AgentError::MalformedPlan { .. })
    ));
}

#[test]
fn parse_execute_without_steps_is_invalid() {
    let text = r#"{"action":"execute","thought":"t","wittyMessage":"w"}"#;
    assert!(matches!(parse_browser_plan(text), Err(AgentError::InvalidPlan)));
    let empty = r#"{"action":"execute","thought":"t","wittyMessage":"w","steps":[]}"#;
    assert!(matches!(parse_browser_plan(empty), Err(AgentError::InvalidPlan)));
}

#[test]
fn parse_non_object_or_bad_step_is_malformed() {
    // A top-level array has no string fields to read.
    assert!(matches!(
        parse_browser_plan("[1,2,3]"),
        Err(AgentError::MalformedPlan { .. })
    ));
    // A step element without a string command does not read as a plan.
    let bad = r#"{"action":"execute","thought":"t","wittyMessage":"w","steps":[{"cmd":":x"}]}"#;
    assert!(matches!(
        parse_browser_plan(bad),
        Err(AgentError::MalformedPlan { .. })
    ));
    // steps as a non-array is rejected the same way.
    let nonarr = r#"{"action":"execute","thought":"t","wittyMessage":"w","steps":5}"#;
    assert!(matches!(
        parse_browser_plan(nonarr),
        Err(AgentError::MalformedPlan { .. })
    ));
}

#[test]
fn parse_null_steps_reads_as_absent() {
    let text = r#"{"action":"finish","thought":"t","wittyMessage":"w","steps":null}"#;
    let p = parse_browser_plan(text).expect("parses");
    assert!(p.steps.is_none());
}

fn text_response(texts: Vec<Option<&str>>) -> GeminiResponse {
    GeminiResponse {
        candidates: vec![GeminiCandidate {
            content: GeminiContent {
                role: String::from("model"),
                parts: texts
                    .into_iter()
                    .map(|t| GeminiPart { text: t.map(String::from), inline_data: None })
                    .collect(),
            },
        }],
    }
}

#[test]
fn extract_candidate_text_happy_path() {
    let resp = text_response(vec![Some("{\"x\":1}")]);
    assert_eq!(extract_candidate_text(&resp).unwrap(), "{\"x\":1}");
}

#[test]
fn extract_candidate_text_empty_cases() {
    let none = GeminiResponse { candidates: vec![] };
    match extract_candidate_text(&none) {
        Err(AgentError::EmptyResponse { detail }) => {
            assert_eq!(detail, "No candidates in Gemini response")
        }
        other => panic!("unexpected: {:?}", other),
    }
    let no_parts = text_response(vec![]);
    match extract_candidate_text(&no_parts) {
        Err(AgentError::EmptyResponse { detail }) => {
            assert_eq!(detail, "No parts in Gemini response")
        }
        other => panic!("unexpected: {:?}", other),
    }
    let no_text = text_response(vec![None]);
    match extract_candidate_text(&no_text) {
        Err(AgentError::EmptyResponse { detail }) => {
            assert_eq!(detail, "No text in Gemini response")
        }
        other => panic!("unexpected: {:?}", other),
    }
}

#[test]
fn build_plan_request_prepends_system_turn() {
    let conv = vec![GeminiContent {
        role: String::from("user"),
        parts: vec![GeminiPart { text: Some(String::from("hi")), inline_data: None }],
    }];
    let req = build_plan_request(conv);
    assert_eq!(req.contents.len(), 2);
    assert_eq!(req.contents[0].role, "user");
    assert_eq!(req.contents[0].parts.len(), 1);
    assert_eq!(req.contents[0].parts[0].text.as_deref(), Some(SYSTEM_PROMPT));
    assert_eq!(req.contents[1].parts[0].text.as_deref(), Some("hi"));
    assert_eq!(req.generation_config.response_mime_type, "application/json");
    let schema = req.generation_config.response_schema.expect("schema parsed");
    assert_eq!(schema.get("type").and_then(|v| v.as_str()), Some("object"));
    let required = schema.get("required").and_then(|v| v.as_array()).unwrap();
    assert_eq!(required.len(), 3);
}

#[test]
fn generate_content_url_exact() {
    let url = generate_content_url(GEMINI_BASE_URL, "KEY123");
    assert_eq!(
        url,
        "https://generativelanguage.googleapis.com/v1beta/models/gemini-2.5-flash:generateContent?key=KEY123"
    );
}

#[test]
fn error_messages_render_exactly() {
    let e = AgentError::Validation { command: String::from("hint") };
    assert_eq!(e.message(), "Command must start with ':' but got: hint");
    let m = AgentError::MalformedPlan {
        raw: String::from("RAW"),
        cleaned: String::from("CLEAN"),
    };
    assert_eq!(
        m.message(),
        "Failed to parse browser plan from Gemini response. Raw response: RAW\nCleaned JSON: CLEAN"
    );
    assert_eq!(
        AgentError::Configuration.message(),
        "GEMINI_API_KEY environment variable not set"
    );
    let s = AgentError::Service { status: 429, body: String::from("quota exceeded") };
    assert_eq!(s.message(), "Gemini API error (429): quota exceeded");
    let z = AgentError::Service { status: 0, body: String::from("x") };
    assert_eq!(z.message(), "Gemini API error (0): x");
}
