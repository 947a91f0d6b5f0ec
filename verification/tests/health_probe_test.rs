use pod_os_client::message::intents;
use pod_os_client::message::types::{Message, PayloadData, ResponseFields};
use pod_os_client::{
    actor_health_probe_succeeded, build_actor_health_probe_message,
    is_neural_memory_backed_for_health_probe, ErrCode, GatewayDError,
};

#[test]
fn neural_memory_types() {
    for typ in [
        "neural_memory",
        "pod_db",
        "evolutionary-neural-memory",
        "Neural_Memory",
        "neural-memory",
    ] {
        assert!(is_neural_memory_backed_for_health_probe(typ), "{typ}");
    }
    for typ in ["socket", "router", "shell", "", "gateway"] {
        assert!(!is_neural_memory_backed_for_health_probe(typ), "{typ}");
    }
}

#[test]
fn neural_memory_type_is_trimmed() {
    assert!(is_neural_memory_backed_for_health_probe("  POD_DB\t"));
    assert!(!is_neural_memory_backed_for_health_probe("pod db"));
}

#[test]
fn probe_intent_by_type() {
    let socket_msg = build_actor_health_probe_message(
        "mysocket@gateway.pod-os.com",
        "client@zeroth.pod-os.com",
        "client",
        "socket",
    );
    assert_eq!(socket_msg.envelope.intent.name, intents::status_request().name);
    assert!(!socket_msg.envelope.message_id.is_empty());

    let nm_msg = build_actor_health_probe_message(
        "account@zeroth.pod-os.com",
        "client@zeroth.pod-os.com",
        "client",
        "neural_memory",
    );
    assert_eq!(nm_msg.envelope.intent.name, intents::get_events_for_tags().name);
    let opts = nm_msg
        .neural_memory
        .as_ref()
        .and_then(|nm| nm.get_events_for_tags.as_ref())
        .expect("CountOnly options");
    assert!(opts.count_only);
}

#[test]
fn neural_memory_probe_searches_a_fresh_tag() {
    let a = build_actor_health_probe_message("m@g", "c@g", "c", "pod_db");
    let b = build_actor_health_probe_message("m@g", "c@g", "c", "pod_db");
    let clause = |m: &Message| match &m.payload.as_ref().expect("payload").data {
        PayloadData::Text(t) => t.clone(),
        other => panic!("unexpected payload {other:?}"),
    };
    let ca = clause(&a);
    assert!(ca.starts_with("health_check=_podos_health_check_"));
    assert_eq!(ca.len(), "health_check=_podos_health_check_".len() + 36);
    assert_ne!(ca, clause(&b));
    assert_eq!(a.envelope.to, "m@g");
    assert_eq!(a.envelope.from, "c@g");
    assert_eq!(a.envelope.client_name, "c");
    assert_eq!(a.envelope.message_id.len(), 36);
    assert_ne!(a.envelope.message_id, b.envelope.message_id);
}

#[test]
fn probe_succeeded() {
    assert!(actor_health_probe_succeeded(None, None));
    assert!(actor_health_probe_succeeded(None, Some(&Message::default())));
    let err_resp = Message {
        response: Some(ResponseFields {
            status: "ERROR".into(),
            message: "fail".into(),
            ..Default::default()
        }),
        ..Default::default()
    };
    assert!(!actor_health_probe_succeeded(None, Some(&err_resp)));
}

#[test]
fn probe_fails_on_transport_error() {
    let e = GatewayDError::new(ErrCode::ConnectionLost, "gone");
    assert!(!actor_health_probe_succeeded(Some(&e), None));
    assert!(!actor_health_probe_succeeded(Some(&e), Some(&Message::default())));
}
