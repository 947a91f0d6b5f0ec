use pod_os_client::message::decoder::replace_from_in_raw_message;
use pod_os_client::message::encoder::{
    format_batch_events_payload, format_batch_link_events_payload, format_batch_tags_payload,
    serialize_tag_value,
};
use pod_os_client::message::header::construct_header;
use pod_os_client::message::intents;
use pod_os_client::message::validate::validate_raw_message_with_limit;
use pod_os_client::message::types::{
    BatchEventSpec, BatchLinkEventSpec, EventFields, LinkFields, PayloadData, PayloadFields,
    ResponseFields, Tag, TagOutput, TagValue,
};
use pod_os_client::{decode_message, encode_message, Envelope, Message};

fn envelope(intent: pod_os_client::Intent) -> Envelope {
    Envelope {
        to: "memory@gateway.local".to_string(),
        from: "client@gateway.local".to_string(),
        intent,
        message_id: "m-1".to_string(),
        ..Default::default()
    }
}

fn tag(freq: i32, key: &str, value: TagValue) -> Tag {
    Tag { frequency: freq, key: key.to_string(), value, ..Default::default() }
}

#[test]
fn store_event_header_numbers_tags_from_one() {
    let msg = Message {
        envelope: envelope(intents::store_event()),
        event: Some(EventFields {
            id: "evt-001".to_string(),
            owner: "owner-001".to_string(),
            event_type: "observation".to_string(),
            tags: vec![
                TagOutput {
                    frequency: 1,
                    key: "classification".to_string(),
                    value: "urgent".to_string(),
                    ..Default::default()
                },
                TagOutput {
                    frequency: 2,
                    key: "colour".to_string(),
                    value: "red".to_string(),
                    ..Default::default()
                },
            ],
            ..Default::default()
        }),
        ..Default::default()
    };
    let h = construct_header(&msg, &intents::store_event(), "");
    assert_eq!(
        h,
        "_db_cmd=store\tevent_id=evt-001\towner=owner-001\tloc_delim=|\ttype=observation\t\
         tag_0001=1:classification=urgent\ttag_0002=2:colour=red\t_msg_id=m-1"
    );
}

#[test]
fn tag_values_render_as_text() {
    assert_eq!(serialize_tag_value(&TagValue::Text("urgent".to_string())), "urgent");
    assert_eq!(serialize_tag_value(&TagValue::Int(-42)), "-42");
    assert_eq!(serialize_tag_value(&TagValue::Bool(true)), "true");
    assert_eq!(serialize_tag_value(&TagValue::Bool(false)), "false");
    assert_eq!(serialize_tag_value(&TagValue::Json("{\"a\":1}".to_string())), "{\"a\":1}");
}

#[test]
fn batch_tags_payload_lines() {
    let tags = vec![
        tag(1, "classification", TagValue::Text("urgent".to_string())),
        tag(3, "count", TagValue::Int(7)),
    ];
    assert_eq!(format_batch_tags_payload(&tags), "1=classification=urgent\n3=count=7");
    assert_eq!(format_batch_tags_payload(&Vec::new()), "");
}

#[test]
fn batch_events_payload_lines() {
    let specs = vec![
        BatchEventSpec {
            event: EventFields {
                unique_id: "u1".to_string(),
                owner: "o1".to_string(),
                ..Default::default()
            },
            tags: vec![tag(2, "k", TagValue::Text("v".to_string()))],
        },
        BatchEventSpec {
            event: EventFields { id: "e2".to_string(), ..Default::default() },
            tags: Vec::new(),
        },
    ];
    assert_eq!(
        format_batch_events_payload(&specs),
        "unique_id=u1\towner=o1\ttag_0=2:k=v\nevent_id=e2"
    );
}

#[test]
fn batch_link_events_payload_lines() {
    let specs = vec![BatchLinkEventSpec {
        event: EventFields { owner: "o".to_string(), ..Default::default() },
        link: LinkFields {
            event_a: "A".to_string(),
            event_b: "B".to_string(),
            category: "cat".to_string(),
            ..Default::default()
        },
    }];
    assert_eq!(
        format_batch_link_events_payload(&specs),
        "owner=o\tevent_id_a=A\tevent_id_b=B\tcategory=cat"
    );
}

#[test]
fn reply_header_reads_back() {
    let reply = Message {
        envelope: envelope(intents::get_event_response()),
        response: Some(ResponseFields {
            status: "OK".to_string(),
            message: "found".to_string(),
            ..Default::default()
        }),
        ..Default::default()
    };
    let wire = encode_message(&reply, "").unwrap();
    let decoded = decode_message(wire.as_bytes()).unwrap();
    assert_eq!(decoded.envelope.intent, intents::get_event_response());
    assert_eq!(decoded.envelope.message_id, "m-1");
    let r = decoded.response.expect("a response");
    assert_eq!(r.status, "OK");
    assert_eq!(r.message, "found");
}

#[test]
fn replacing_the_from_address_keeps_the_rest() {
    let msg = Message {
        envelope: envelope(intents::actor_echo()),
        payload: Some(PayloadFields {
            data: PayloadData::Text("hello".to_string()),
            ..Default::default()
        }),
        ..Default::default()
    };
    let wire = encode_message(&msg, "").unwrap();
    let replaced = replace_from_in_raw_message(wire.as_bytes(), "other@elsewhere.local").unwrap();
    assert_ne!(replaced.as_slice(), wire.as_bytes());
    let decoded = decode_message(&replaced).unwrap();
    assert_eq!(decoded.envelope.from, "other@elsewhere.local");
    assert_eq!(decoded.envelope.to, "memory@gateway.local");
    assert_eq!(decoded.envelope.intent, intents::actor_echo());
    assert_eq!(decoded.envelope.message_id, "m-1");
    let original = decode_message(wire.as_bytes()).unwrap();
    assert_eq!(original.envelope.from, "client@gateway.local");
}

#[test]
fn events_for_tags_reply_payload_is_assembled() {
    let payload = "_event_id=E1\towner=alice\ttag:3:color=red\n\
                   _link=link_id=L1\tevent_id_a=E1\tevent_id_b=E2\n\
                   _linktag=L1\t2\tcat\tval\n\
                   _targettag=E2\t5\tkind\tthing";
    let reply = Message {
        envelope: envelope(intents::get_events_for_tags_response()),
        response: Some(ResponseFields { status: "OK".to_string(), ..Default::default() }),
        payload: Some(PayloadFields {
            data: PayloadData::Text(payload.to_string()),
            ..Default::default()
        }),
        ..Default::default()
    };
    let wire = encode_message(&reply, "").unwrap();
    let decoded = decode_message(wire.as_bytes()).unwrap();
    assert_eq!(decoded.envelope.intent, intents::get_events_for_tags_response());
    let r = decoded.response.expect("a response");
    assert_eq!(r.event_records.len(), 1);
    let e = &r.event_records[0];
    assert_eq!(e.id, "E1");
    assert_eq!(e.owner, "alice");
    assert_eq!(e.tags.len(), 1);
    assert_eq!(e.tags[0].frequency, 3);
    assert_eq!(e.tags[0].key, "color");
    assert_eq!(e.tags[0].value, "red");
    assert_eq!(e.links.len(), 1);
    let l = &e.links[0];
    assert_eq!(l.id, "L1");
    assert_eq!(l.event_a, "E1");
    assert_eq!(l.event_b, "E2");
    assert_eq!(l.tags.len(), 1);
    assert_eq!(l.tags[0].frequency, 2);
    assert_eq!(l.tags[0].category, "cat");
    assert_eq!(l.tags[0].value, "val");
    assert_eq!(l.target_tags.len(), 1);
    assert_eq!(l.target_tags[0].frequency, 5);
    assert_eq!(l.target_tags[0].category, "kind");
    assert!(r.brief_hits.is_empty());
}

#[test]
fn store_event_request_reads_back() {
    let msg = Message {
        envelope: envelope(intents::store_event()),
        event: Some(EventFields {
            unique_id: "u-9".to_string(),
            id: "evt-9".to_string(),
            owner: "owner-9".to_string(),
            timestamp: "+1741388400.123456".to_string(),
            event_type: "observation".to_string(),
            ..Default::default()
        }),
        ..Default::default()
    };
    let wire = encode_message(&msg, "").unwrap();
    let decoded = decode_message(wire.as_bytes()).unwrap();
    assert_eq!(decoded.envelope.intent, intents::store_event());
    assert_eq!(decoded.envelope.message_id, "m-1");
    let e = decoded.event.expect("event fields");
    assert_eq!(e.unique_id, "u-9");
    assert_eq!(e.id, "evt-9");
    assert_eq!(e.owner, "owner-9");
    assert_eq!(e.timestamp, "+1741388400.123456");
    assert_eq!(e.event_type, "observation");
}

#[test]
fn request_intents_read_back() {
    let requests = vec![
        intents::gateway_id(),
        intents::gateway_stream_on(),
        intents::actor_echo(),
        intents::store_event(),
        intents::store_batch_events(),
        intents::store_batch_tags(),
        intents::get_event(),
        intents::get_events_for_tags(),
        intents::link_event(),
        intents::unlink_event(),
        intents::store_batch_links(),
    ];
    for intent in requests {
        let mut msg = Message { envelope: envelope(intent.clone()), ..Default::default() };
        msg.envelope.client_name = "tester".to_string();
        let wire = encode_message(&msg, "").unwrap();
        let decoded = decode_message(wire.as_bytes()).unwrap();
        assert_eq!(decoded.envelope.intent, intent, "intent {}", intent.name);
        assert_eq!(
            intents::intent_from_message_type_and_command(
                intent.message_type,
                intent.neural_memory_command
            ),
            Some(intent.clone())
        );
    }
}

#[test]
fn table_intents_read_back() {
    let mut checked = 0;
    for intent in intents::all_intents() {
        if intent == intents::store_data() || intent == intents::route_user_only_message() {
            continue;
        }
        let msg = Message { envelope: envelope(intent.clone()), ..Default::default() };
        let wire = encode_message(&msg, "").unwrap();
        let decoded = decode_message(wire.as_bytes()).unwrap();
        assert_eq!(decoded.envelope.intent, intent, "intent {}", intent.name);
        checked += 1;
    }
    assert_eq!(checked, 47);
}

#[test]
fn intents_sharing_a_type_read_back_as_the_first() {
    let msg = Message {
        envelope: envelope(intents::route_user_only_message()),
        ..Default::default()
    };
    let wire = encode_message(&msg, "").unwrap();
    let decoded = decode_message(wire.as_bytes()).unwrap();
    assert_eq!(decoded.envelope.intent, intents::route_any_message());
}

#[test]
fn total_length_counts_the_whole_frame() {
    let msg = Message {
        envelope: Envelope {
            to: "$system@gw".to_string(),
            from: "c@gw".to_string(),
            intent: intents::gateway_id(),
            client_name: "c".to_string(),
            ..Default::default()
        },
        ..Default::default()
    };
    let b = encode_message(&msg, "").unwrap().into_bytes();
    assert_eq!(b.len(), 86);
    assert_eq!(&b[0..9], b"x00000056");
    assert_eq!(&b[9..63], b"x0000000ax00000004x00000009000000005000000000x00000000");
    assert_eq!(&b[63..], b"$system@gwc@gwid:name=c");
    let total = pod_os_client::connection::transport::parse_length_prefix(&b[0..9]).unwrap();
    assert_eq!(total, b.len());
    assert_eq!(
        pod_os_client::connection::transport::frame_body_len(total, 1 << 20).unwrap(),
        b.len() - 9
    );
}

#[test]
fn conversation_id_is_written_when_given() {
    let msg = Message { envelope: envelope(intents::actor_echo()), ..Default::default() };
    assert_eq!(construct_header(&msg, &intents::actor_echo(), ""), "_msg_id=m-1");
    assert_eq!(
        construct_header(&msg, &intents::actor_echo(), "conv-7"),
        "_msg_id=m-1\t_conversation_uuid=conv-7"
    );
    let mut bare = msg.clone();
    bare.envelope.message_id = String::new();
    assert_eq!(construct_header(&bare, &intents::actor_echo(), "conv-7"), "_conversation_uuid=conv-7");
    let plain = encode_message(&msg, "").unwrap();
    let with_id = encode_message(&msg, "conv-7").unwrap();
    assert_ne!(plain.as_bytes(), with_id.as_bytes());
    let decoded = decode_message(with_id.as_bytes()).unwrap();
    assert_eq!(decoded.envelope.intent, intents::actor_echo());
    assert_eq!(decoded.envelope.message_id, "m-1");
}

#[test]
fn address_errors_name_their_field() {
    let mut msg = Message { envelope: envelope(intents::actor_echo()), ..Default::default() };
    msg.envelope.to = "no-at-sign".to_string();
    let e = encode_message(&msg, "").unwrap_err();
    assert_eq!(e.code, pod_os_client::message::MsgErrCode::EncodeInvalidToAddress);
    assert_eq!(e.field, Some("To".to_string()));
    let mut msg = Message { envelope: envelope(intents::actor_echo()), ..Default::default() };
    msg.envelope.from = "@gw".to_string();
    let e = encode_message(&msg, "").unwrap_err();
    assert_eq!(e.code, pod_os_client::message::MsgErrCode::EncodeInvalidFromAddress);
    assert_eq!(e.field, Some("From".to_string()));
}

#[test]
fn replaced_frame_keeps_its_fields() {
    let msg = Message { envelope: envelope(intents::store_event()), ..Default::default() };
    let raw = encode_message(&msg, "").unwrap().into_bytes();
    let f = "x@y";
    let r = replace_from_in_raw_message(&raw, f).unwrap();
    assert_eq!(r.len(), raw.len() - msg.envelope.from.len() + f.len());
    assert_eq!(&r[9..18], &raw[9..18]);
    assert_eq!(&r[27..63], &raw[27..63]);
    let total = pod_os_client::connection::transport::parse_length_prefix(&r[0..9]).unwrap();
    assert_eq!(total, r.len());
    let d = decode_message(&r).unwrap();
    assert_eq!(d.envelope.from, "x@y");
    assert_eq!(d.envelope.message_id, "m-1");
    assert_eq!(d.envelope.intent, intents::store_event());
}

#[test]
fn raw_validation_under_a_limit() {
    let msg = Message { envelope: envelope(intents::actor_echo()), ..Default::default() };
    let raw = encode_message(&msg, "").unwrap().into_bytes();
    assert!(validate_raw_message_with_limit(&raw, true, raw.len() as i64).is_empty());
    let errs = validate_raw_message_with_limit(&raw, true, 70);
    assert_eq!(errs.len(), 1);
    assert_eq!(errs[0].message, format!("Message {} bytes exceeds limit 70 bytes", raw.len()));
    assert!(validate_raw_message_with_limit(&raw, false, 70).is_empty());
}

#[test]
fn conversation_id_frames_differ_by_the_field() {
    let msg = Message { envelope: envelope(intents::store_event()), ..Default::default() };
    let plain = encode_message(&msg, "").unwrap();
    let with_id = encode_message(&msg, "conv-9").unwrap();
    let added = "\t_conversation_uuid=conv-9".len();
    assert_eq!(with_id.as_bytes().len(), plain.as_bytes().len() + added);
    let s = std::str::from_utf8(with_id.as_bytes()).unwrap();
    assert!(s.ends_with("_msg_id=m-1\t_conversation_uuid=conv-9"));
}
