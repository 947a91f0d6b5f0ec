use pod_os_client::message::intents;
use pod_os_client::message::validate::{
    completion_answer, remediation_prompt, validate_raw_message, validation_enabled,
};
use pod_os_client::message::{ValidationError, ValidationReport};
use pod_os_client::{encode_message, Envelope, Message};

#[test]
fn validation_switch() {
    assert!(!validation_enabled(None));
    assert!(validation_enabled(Some("1")));
    assert!(validation_enabled(Some("TRUE")));
    assert!(validation_enabled(Some("yes")));
    assert!(!validation_enabled(Some("on")));
}

#[test]
fn disabled_validation_finds_nothing() {
    assert!(Message::default().validate(false).is_empty());
}

#[test]
fn envelope_findings() {
    let msg = Message {
        envelope: Envelope {
            to: "no-at-sign".to_string(),
            intent: intents::gateway_id(),
            ..Default::default()
        },
        ..Default::default()
    };
    let errs = msg.validate(true);
    let rules: Vec<(&str, &str)> = errs.iter().map(|e| (e.field.as_str(), e.rule.as_str())).collect();
    assert!(rules.contains(&("Envelope.To", "format")));
    assert!(rules.contains(&("Envelope.From", "required")));
    assert!(rules.contains(&("Envelope.ClientName", "required")));
    assert!(errs.iter().all(|e| e.intent == "GatewayId"));
}

#[test]
fn report_text() {
    let e = ValidationError {
        severity: "error".to_string(),
        intent: "LinkEvent".to_string(),
        field: "NeuralMemory.Link.Category".to_string(),
        wire_field: "category".to_string(),
        rule: "required".to_string(),
        message: "Category is required for LinkEvent and is missing.".to_string(),
        fix: "Set NeuralMemory.Link.Category to a non-empty string (e.g. \"related\").".to_string(),
        example_code: "msg.neural_memory.link.category = \"related\".into()".to_string(),
        references: vec!["docs/a.md".to_string(), "docs/b.md".to_string()],
    };
    let w = ValidationError {
        severity: "warning".to_string(),
        wire_field: String::new(),
        fix: String::new(),
        example_code: String::new(),
        ..e.clone()
    };
    let text = ValidationReport(vec![e.clone(), w]).render();
    assert_eq!(
        text,
        "[ERROR] LinkEvent / NeuralMemory.Link.Category (category): required\n  What: Category is required for LinkEvent and is missing.\n  Fix:  Set NeuralMemory.Link.Category to a non-empty string (e.g. \"related\").\n  Code: msg.neural_memory.link.category = \"related\".into()\n[WARN] LinkEvent / NeuralMemory.Link.Category: required\n  What: Category is required for LinkEvent and is missing.\n"
    );
    let prompt = remediation_prompt(&vec![e.clone(), e]);
    assert!(prompt.starts_with("You are a Pod-OS Rust client expert. A message validation error occurred.\n\nIntent: LinkEvent\nStruct Path: NeuralMemory.Link.Category\n"));
    assert!(prompt.contains("Source References: docs/a.md, docs/b.md\n\nTask: Provide corrected Rust code for this message construction. Show all required fields for the LinkEvent intent."));
    assert_eq!(prompt.matches("\n\n---\n\n").count(), 1);
    assert!(remediation_prompt(&vec![]).is_empty());
}

#[test]
fn raw_validation_of_a_good_frame() {
    let msg = Message {
        envelope: Envelope {
            to: "actor@gw".to_string(),
            from: "me@gw".to_string(),
            intent: intents::actor_echo(),
            message_id: "m-1".to_string(),
            ..Default::default()
        },
        ..Default::default()
    };
    let wire = encode_message(&msg, "").expect("encode");
    assert!(validate_raw_message(wire.as_bytes(), false).is_empty());
    let short = validate_raw_message(&[b'x'; 5], true);
    assert!(!short.is_empty());
}

#[test]
fn completion_answers() {
    assert_eq!(
        completion_answer("200 OK", true, None, Some("use event_a".to_string())),
        Ok("use event_a".to_string())
    );
    assert_eq!(completion_answer("200 OK", true, None, None), Ok(String::new()));
    assert_eq!(
        completion_answer("200 OK", true, Some(Some("model not loaded".to_string())), None),
        Err("vLLM API error: model not loaded".to_string())
    );
    assert_eq!(
        completion_answer("200 OK", true, Some(None), Some("ignored".to_string())),
        Err("vLLM API error: unknown error".to_string())
    );
    assert_eq!(
        completion_answer("500 Internal Server Error", false, None, None),
        Err("vLLM API returned 500 Internal Server Error: unknown error".to_string())
    );
    assert_eq!(
        completion_answer("404 Not Found", false, Some(Some("no route".to_string())), None),
        Err("vLLM API returned 404 Not Found: no route".to_string())
    );
}
