use pod_os_client::health::is_status_request;
use pod_os_client::message::intents;
use pod_os_client::message::types::{Envelope, Message};
use pod_os_client::{build_status_health_reply_for, decode_message, encode_message};

fn status_request_inbound() -> Message {
    Message {
        envelope: Envelope {
            from: "probe-client@zeroth.pod-os.com".to_string(),
            intent: intents::status_request(),
            message_id: "probe-msg-1".to_string(),
            ..Default::default()
        },
        ..Default::default()
    }
}

#[test]
fn build_status_health_reply_fields() {
    let inbound = status_request_inbound();
    let reply = build_status_health_reply_for("socket-actor", "zeroth.pod-os.com", &inbound);

    assert_eq!(reply.intent().name, intents::status().name);
    assert_eq!(reply.message_id(), "probe-msg-1");
    assert_eq!(reply.to(), "probe-client@zeroth.pod-os.com");
    assert_eq!(reply.from(), "socket-actor@zeroth.pod-os.com");
    assert_eq!(reply.processing_status(), "OK");
    assert_eq!(
        reply.response.as_ref().map(|r| r.message.as_str()),
        Some("actor is healthy")
    );
}

#[test]
fn build_status_health_reply_round_trip() {
    let inbound = status_request_inbound();
    let reply = build_status_health_reply_for("socket-actor", "zeroth.pod-os.com", &inbound);
    let wire = encode_message(&reply, "conv-uuid").expect("encode");
    let wire_str = std::str::from_utf8(wire.as_bytes()).expect("utf8");
    assert!(wire_str.contains("000000003"));

    let decoded = decode_message(wire.as_bytes()).expect("decode");
    assert_eq!(decoded.intent().message_type, intents::status().message_type);
    assert_eq!(decoded.message_id(), "probe-msg-1");
    assert_eq!(decoded.processing_status(), "OK");
}

#[test]
fn status_request_probe_round_trip() {
    let probe = Message {
        envelope: Envelope {
            to: "socket-actor@gateway.pod-os.com".to_string(),
            from: "dashboard@zeroth.pod-os.com".to_string(),
            intent: intents::status_request(),
            client_name: "dashboard".to_string(),
            message_id: "health-1".to_string(),
            ..Default::default()
        },
        ..Default::default()
    };
    let wire = encode_message(&probe, "conv-uuid").expect("encode");
    let wire_str = std::str::from_utf8(wire.as_bytes()).expect("utf8");
    assert!(wire_str.contains("000000110"));

    let decoded = decode_message(wire.as_bytes()).expect("decode");
    assert_eq!(decoded.intent().name, intents::status_request().name);
    assert_eq!(decoded.message_id(), "health-1");
    assert!(is_status_request(&decoded));
}

#[test]
fn only_status_requests_are_probes() {
    assert!(is_status_request(&status_request_inbound()));
    let other = Message {
        envelope: Envelope { intent: intents::status(), ..Default::default() },
        ..Default::default()
    };
    assert!(!is_status_request(&other));
}
