use pod_os_client::message::encoder::encode_message_with_limit;
use pod_os_client::message::intents::{self, Intent};
use pod_os_client::message::types::{
    EventFields, PayloadData, PayloadFields, ResponseFields,
};
use pod_os_client::{decode_message, encode_message, Envelope, Message};

fn minimal_msg(intent: &Intent) -> Message {
    Message {
        envelope: Envelope {
            to: "actor@gateway.local".to_string(),
            from: "client@gateway.local".to_string(),
            intent: intent.clone(),
            ..Default::default()
        },
        ..Default::default()
    }
}

#[test]
fn decode_rejects_too_short() {
    assert!(decode_message(&[0u8; 10]).is_err());
}

#[test]
fn roundtrip_gateway_id() {
    let msg = Message {
        envelope: Envelope {
            to: "$system@gateway.local".to_string(),
            from: "client@gateway.local".to_string(),
            intent: intents::gateway_id(),
            client_name: "test".to_string(),
            ..Default::default()
        },
        ..Default::default()
    };
    let encoded = encode_message(&msg, "").unwrap();
    let decoded = decode_message(encoded.as_bytes()).unwrap();
    assert_eq!(decoded.envelope.to, "$system@gateway.local");
    assert_eq!(decoded.envelope.from, "client@gateway.local");
}

#[test]
fn encode_gateway_id_has_correct_prefix() {
    let msg = minimal_msg(&intents::gateway_id());
    let sm = encode_message(&msg, "test-uuid").unwrap();
    let s = std::str::from_utf8(sm.as_bytes()).unwrap();
    assert!(s.starts_with('x'), "total length must start with 'x'");
}

#[test]
fn encode_rejects_oversized_payload() {
    let mut msg = minimal_msg(&intents::store_event());
    msg.payload = Some(PayloadFields {
        data: PayloadData::Text("x".repeat(100)),
        ..Default::default()
    });
    assert!(encode_message_with_limit(&msg, "", 10).is_err());
    assert!(encode_message_with_limit(&msg, "", 2 * 1024 * 1024 * 1024).is_ok());
}

#[test]
fn encode_rejects_missing_at_in_to() {
    let mut msg = minimal_msg(&intents::actor_echo());
    msg.envelope.to = "no-at-sign".to_string();
    assert!(encode_message(&msg, "").is_err());
}

fn store_event_reply(inbound: &Message, echo_msg_id: bool, unique_id: &str) -> Message {
    Message {
        envelope: Envelope {
            to: inbound.envelope.from.clone(),
            from: "memory@test.local".to_string(),
            intent: intents::store_event_response(),
            message_id: if echo_msg_id {
                inbound.envelope.message_id.clone()
            } else {
                String::new()
            },
            ..Default::default()
        },
        event: Some(EventFields {
            unique_id: unique_id.to_string(),
            id: "+1787151707.000000".to_string(),
            event_type: "iris:task_result".to_string(),
            ..Default::default()
        }),
        response: Some(ResponseFields {
            status: "OK".to_string(),
            message: "stored".to_string(),
            ..Default::default()
        }),
        ..Default::default()
    }
}

#[test]
fn decode_mem_reply_with_event_type_in_type_field() {
    let request = Message {
        envelope: Envelope {
            to: "memory@test.local".to_string(),
            from: "iris@test.local".to_string(),
            intent: intents::store_event(),
            message_id: "req-1".to_string(),
            ..Default::default()
        },
        event: Some(EventFields {
            unique_id: "task_result-x".to_string(),
            owner: "task-x".to_string(),
            location: "TERRA|0|0".to_string(),
            location_separator: "|".to_string(),
            event_type: "iris:task_result".to_string(),
            ..Default::default()
        }),
        ..Default::default()
    };
    let wire = encode_message(&request, "").expect("encode request");
    let inbound = decode_message(wire.as_bytes()).expect("decode request");

    let reply = store_event_reply(&inbound, true, "task_result-x");
    let reply_wire = encode_message(&reply, "").expect("encode reply");
    let decoded = decode_message(reply_wire.as_bytes()).expect("decode reply");
    assert_eq!(decoded.envelope.intent, intents::store_event_response());
    assert_eq!(decoded.envelope.message_id, "req-1");
}
