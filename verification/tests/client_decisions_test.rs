use pod_os_client::client::{
    authentication_result, autocorrect_envelope, client_failure, context_error, control_message,
    idle_timeout_is_fatal, keepalive_due, logger_level, reconnect_stops, reconnect_wait,
    reconnects_after, registry_key, registry_reuse, reply_route, reregistration_steps,
    validate_client_config, ClientFailure, Control, ReconnectWait, RegistryReuse, ReplyRoute,
};
use pod_os_client::message::intents;
use pod_os_client::message::types::{Envelope, Message, ResponseFields};
use pod_os_client::{decode_message, encode_message, err_connection_lost, Config, ErrCode, GatewayDError, Level};

fn uuid_like(s: &str) -> bool {
    s.len() == 36
        && s.char_indices().all(|(i, c)| {
            if [8, 13, 18, 23].contains(&i) {
                c == '-'
            } else {
                c.is_ascii_digit() || ('a'..='f').contains(&c)
            }
        })
        && s.as_bytes()[14] == b'4'
        && matches!(s.as_bytes()[19], b'8' | b'9' | b'a' | b'b')
}

#[test]
fn client_config_needs_identity() {
    let mut cfg = Config::default();
    assert_eq!(validate_client_config(&cfg).unwrap_err().message, "ClientName must not be empty");
    cfg.client_name = "me".to_string();
    assert_eq!(validate_client_config(&cfg).unwrap_err().message, "GatewayActorName must not be empty");
    cfg.gateway_actor_name = "gw".to_string();
    assert_eq!(validate_client_config(&cfg).unwrap_err().message, "Host must not be empty");
    cfg.host = "localhost".to_string();
    let e = validate_client_config(&cfg).unwrap_err();
    assert_eq!((e.code, e.message.as_str()), (ErrCode::InvalidConfig, "Port must not be empty"));
    cfg.port = "7654".to_string();
    assert!(validate_client_config(&cfg).is_ok());
}

#[test]
fn registry_keys() {
    assert_eq!(registry_key("close-test-client", "zeroth.pod-os.com"), "close-test-client:zeroth.pod-os.com");
}

#[test]
fn control_messages() {
    let id = control_message(Control::GatewayId, "me", "gw.local", "pw");
    assert_eq!(id.envelope.to, "$system@gw.local");
    assert_eq!(id.envelope.from, "me@gw.local");
    assert_eq!(id.envelope.intent, intents::gateway_id());
    assert_eq!(id.envelope.client_name, "me");
    assert_eq!(id.envelope.passcode, "pw");
    assert!(uuid_like(&id.envelope.message_id), "{}", id.envelope.message_id);

    let on = control_message(Control::StreamOn, "me", "gw.local", "pw");
    assert_eq!(on.envelope.intent, intents::gateway_stream_on());
    assert_eq!(on.envelope.client_name, "");
    assert_eq!(on.envelope.passcode, "");

    let ka = control_message(Control::Keepalive, "me", "gw.local", "pw");
    assert_eq!(ka.envelope.intent, intents::keepalive());
    assert_ne!(ka.envelope.message_id, id.envelope.message_id);
    let wire = encode_message(&ka, "").expect("encode keepalive");
    assert!(wire.as_bytes().windows(9).any(|w| w == b"000000018"));

    let bye = control_message(Control::Disconnect, "me", "gw.local", "pw");
    let wire = encode_message(&bye, "").expect("encode disconnect");
    let back = decode_message(wire.as_bytes()).expect("decode disconnect");
    assert_eq!(back.envelope.intent.message_type, intents::gateway_disconnect().message_type);
    assert_eq!(back.envelope.message_id, bye.envelope.message_id);
}

#[test]
fn autocorrect_fills_only_what_is_missing() {
    let mut m = Message::default();
    autocorrect_envelope(&mut m, "me", "gw");
    assert_eq!(m.envelope.client_name, "me");
    assert_eq!(m.envelope.from, "me@gw");
    assert!(uuid_like(&m.envelope.message_id));

    let mut n = Message {
        envelope: Envelope {
            client_name: "other".to_string(),
            from: "other@gw".to_string(),
            message_id: "m-1".to_string(),
            ..Default::default()
        },
        ..Default::default()
    };
    autocorrect_envelope(&mut n, "me", "gw");
    assert_eq!(n.envelope.client_name, "other");
    assert_eq!(n.envelope.from, "other@gw");
    assert_eq!(n.envelope.message_id, "m-1");
}

#[test]
fn authentication_verdicts() {
    assert!(authentication_result(&Message::default()).is_ok());
    let refused = Message {
        response: Some(ResponseFields {
            status: "ERROR".to_string(),
            message: "bad passcode".to_string(),
            ..Default::default()
        }),
        ..Default::default()
    };
    let e = authentication_result(&refused).unwrap_err();
    assert_eq!(e.code, ErrCode::AuthenticationFailed);
    assert_eq!(e.message, "gateway rejected authentication: bad passcode");
    let e = context_error(ErrCode::AuthenticationFailed, "send GatewayId", "client is not connected");
    assert_eq!(e.message, "send GatewayId: client is not connected");
}

#[test]
fn client_failures() {
    let e = err_connection_lost();
    assert_eq!((e.code, e.message.as_str()), (ErrCode::GatewayDisconnected, "connection to gateway was lost during request"));
    assert!(e.is_connection_lost());
    let e = client_failure(ClientFailure::LostInFlight);
    assert_eq!(e.code, ErrCode::ConnectionLost);
    let e = client_failure(ClientFailure::ResponseTimeout);
    assert_eq!((e.code, e.message.as_str()), (ErrCode::GatewayTimeout, "response timeout"));
}

#[test]
fn loop_decisions() {
    let mut cfg = Config::default();
    let lost = GatewayDError::new(ErrCode::ConnectionLost, "gone");
    let other = GatewayDError::new(ErrCode::InvalidResponse, "decode");
    assert!(reconnects_after(&cfg, &lost));
    assert!(!reconnects_after(&cfg, &other));
    cfg.reconnect_config.enabled = Some(false);
    assert!(!reconnects_after(&cfg, &lost));

    assert!(!idle_timeout_is_fatal(0, 1_000_000, 90_000));
    assert!(!idle_timeout_is_fatal(2, 90_000, 90_000));
    assert!(idle_timeout_is_fatal(2, 90_001, 90_000));

    assert!(reconnect_stops(true, 0, 0));
    assert!(!reconnect_stops(false, 0, 1_000));
    assert!(reconnect_stops(false, 10, 10));
    assert!(!reconnect_stops(false, 10, 9));

    assert!(keepalive_due(false, true, false));
    assert!(!keepalive_due(false, true, true));
    assert!(!keepalive_due(true, true, false));

    assert_eq!(reconnect_wait(true, true, false), ReconnectWait::Proceed);
    assert_eq!(reconnect_wait(false, false, false), ReconnectWait::GiveUp);
    assert_eq!(reconnect_wait(false, false, true), ReconnectWait::Wait);

    assert_eq!(logger_level(0), None);
    assert_eq!(logger_level(2), Some(Level::Warn));
    assert_eq!(logger_level(200), Some(Level::Debug));
}

#[test]
fn registry_reuse_decisions() {
    assert_eq!(registry_reuse(true, false), RegistryReuse::Reuse);
    assert_eq!(registry_reuse(true, true), RegistryReuse::Reuse);
    assert_eq!(registry_reuse(false, true), RegistryReuse::AwaitReconnect);
    assert_eq!(registry_reuse(false, false), RegistryReuse::Replace);
}

#[test]
fn reply_routes() {
    assert_eq!(reply_route(true, true), ReplyRoute::Waiter);
    assert_eq!(reply_route(false, true), ReplyRoute::RawWaiter);
    assert_eq!(reply_route(false, false), ReplyRoute::Incoming);
}

#[test]
fn reregistration_order() {
    assert_eq!(
        reregistration_steps(true),
        vec![Control::Disconnect, Control::GatewayId, Control::StreamOn]
    );
    assert_eq!(reregistration_steps(false), vec![Control::Disconnect, Control::GatewayId]);
}
