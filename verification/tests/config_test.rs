use std::time::Duration;

use pod_os_client::config_loaders::{parse_bool, parse_bool_ini, parse_u64, setting_of_key, Setting, Source};
use pod_os_client::message::intents;
use pod_os_client::message::types::{Envelope, Message};
use pod_os_client::{config_from_env, config_from_ini, encode_message, Config};

fn pairs(kv: &[(&str, &str)]) -> Vec<(String, String)> {
    kv.iter().map(|(k, v)| (k.to_string(), v.to_string())).collect()
}

#[test]
fn config_default_keepalive_interval() {
    let cfg = Config::default();
    assert_eq!(cfg.keepalive_interval(), Duration::from_secs(30).as_millis());
}

#[test]
fn config_disabled_keepalive_interval() {
    let mut cfg = Config::default();
    cfg.keepalive_interval = Some(Duration::ZERO.as_millis());
    assert_eq!(cfg.keepalive_interval(), Duration::ZERO.as_millis());
}

#[test]
fn keepalive_message_encodes_type_18() {
    let msg = Message {
        envelope: Envelope {
            to: "$system@zeroth.pod-os.com".to_string(),
            from: "my-client@zeroth.pod-os.com".to_string(),
            intent: intents::keepalive(),
            client_name: "my-client".to_string(),
            message_id: "keepalive-1".to_string(),
            ..Default::default()
        },
        ..Default::default()
    };
    let wire = encode_message(&msg, "").expect("encode keepalive");
    let bytes = wire.as_bytes();
    assert!(bytes.windows(9).any(|w| w == b"000000018"));
}

#[test]
fn config_defaults() {
    let cfg = Config::default();
    assert_eq!(cfg.network, "tcp");
    assert_eq!(cfg.dial_timeout, 10_000);
    assert_eq!(cfg.receive_timeout, 30_000);
    assert_eq!(cfg.send_timeout, 30_000);
    assert_eq!(cfg.response_timeout, 30_000);
    assert_eq!(cfg.retry_config.retries, 3);
    assert_eq!(cfg.retry_config.backoff, 500);
    assert_eq!(cfg.reconnect_config.max_retries, 10);
    assert_eq!(cfg.reconnect_config.initial_backoff(), 1000);
    assert_eq!(cfg.reconnect_config.max_backoff(), 60_000);
    assert!(cfg.reconnect_config.is_enabled());
    assert!(cfg.streaming_enabled());
    assert_eq!(cfg.receive_loop_timeout(), 30_000);
    assert_eq!(cfg.connection_liveness_timeout(), 90_000);
}

#[test]
fn config_explicit_timeouts_are_kept() {
    let mut cfg = Config::default();
    cfg.keepalive_interval = Some(5_000);
    cfg.receive_loop_timeout = 7_000;
    cfg.connection_liveness_timeout = 11_000;
    cfg.enable_streaming = Some(false);
    cfg.reconnect_config.enabled = Some(false);
    assert_eq!(cfg.keepalive_interval(), 5_000);
    assert_eq!(cfg.receive_loop_timeout(), 7_000);
    assert_eq!(cfg.connection_liveness_timeout(), 11_000);
    assert!(!cfg.streaming_enabled());
    assert!(!cfg.reconnect_config.is_enabled());
}

#[test]
fn ini_recognised_keys() {
    let cfg = config_from_ini(&pairs(&[
        ("host", "gw.example"),
        ("Port", "7654"),
        ("  AGENT ", "zeroth.pod-os.com"),
        ("client", "my-agent"),
        ("passcode", "s3cret"),
        ("stream_messages", "no"),
        ("concurrent_mode", " yes "),
        ("dial_timeout", "5"),
        ("send_timeout", "6"),
        ("receive_timeout", "+7"),
        ("log_level", "259"),
        ("reconnect_enabled", "N"),
        ("reconnect_max_retries", "4"),
        ("reconnect_initial_backoff", "2"),
        ("reconnect_max_backoff", "20"),
        ("retry_count", "9"),
        ("retry_backoff", "3"),
        ("unknown_key", "whatever"),
    ]));
    assert_eq!(cfg.network, "tcp");
    assert_eq!(cfg.host, "gw.example");
    assert_eq!(cfg.port, "7654");
    assert_eq!(cfg.gateway_actor_name, "zeroth.pod-os.com");
    assert_eq!(cfg.client_name, "my-agent");
    assert_eq!(cfg.passcode, "s3cret");
    assert_eq!(cfg.enable_streaming, Some(false));
    assert!(cfg.enable_concurrent_mode);
    assert_eq!(cfg.dial_timeout, 5_000);
    assert_eq!(cfg.send_timeout, 6_000);
    assert_eq!(cfg.receive_timeout, 7_000);
    assert_eq!(cfg.log_level, 3);
    assert_eq!(cfg.reconnect_config.enabled, Some(false));
    assert_eq!(cfg.reconnect_config.max_retries, 4);
    assert_eq!(cfg.reconnect_config.initial_backoff, 2_000);
    assert_eq!(cfg.reconnect_config.max_backoff, 20_000);
    assert_eq!(cfg.retry_config.retries, 9);
    assert_eq!(cfg.retry_config.backoff, 3_000);
}

#[test]
fn ini_rejected_values_leave_defaults() {
    let cfg = config_from_ini(&pairs(&[
        ("dial_timeout", "0"),
        ("send_timeout", "-3"),
        ("receive_timeout", "soon"),
        ("log_level", "18446744073709551616"),
        ("retry_count", ""),
    ]));
    assert_eq!(cfg.dial_timeout, 10_000);
    assert_eq!(cfg.send_timeout, 30_000);
    assert_eq!(cfg.receive_timeout, 30_000);
    assert_eq!(cfg.log_level, 0);
    assert_eq!(cfg.retry_config.retries, 3);
}

#[test]
fn ini_last_accepted_value_wins() {
    let cfg = config_from_ini(&pairs(&[
        ("host", "first"),
        ("HOST", "second"),
        ("dial_timeout", "4"),
        ("dial_timeout", "zero"),
    ]));
    assert_eq!(cfg.host, "second");
    assert_eq!(cfg.dial_timeout, 4_000);
}

#[test]
fn ini_bool_spellings() {
    for v in ["Y", "yes", "TRUE", "1", " true ", "yeſ"] {
        assert!(parse_bool_ini(v), "{v}");
    }
    for v in ["n", "no", "false", "0", "", "on", "yes please"] {
        assert!(!parse_bool_ini(v), "{v}");
    }
}

#[test]
fn env_bool_spellings() {
    for v in ["true", "1", "yes", "y", " YES "] {
        assert!(parse_bool(v), "{v}");
    }
    for v in ["false", "0", "no", "", "t"] {
        assert!(!parse_bool(v), "{v}");
    }
}

#[test]
fn u64_grammar() {
    assert_eq!(parse_u64(" 42 "), Some(42));
    assert_eq!(parse_u64("+7"), Some(7));
    assert_eq!(parse_u64("18446744073709551615"), Some(u64::MAX));
    assert_eq!(parse_u64("18446744073709551616"), None);
    assert_eq!(parse_u64("-1"), None);
    assert_eq!(parse_u64("+"), None);
    assert_eq!(parse_u64("1 2"), None);
}

#[test]
fn ini_key_forms() {
    assert_eq!(setting_of_key(Source::Ini, " Retry_Backoff "), Some(Setting::RetryBackoff));
    assert_eq!(setting_of_key(Source::Ini, "retry_bac\u{212a}off"), Some(Setting::RetryBackoff));
    assert_eq!(
        setting_of_key(Source::Ini, "reconnect_backoff_multiplier"),
        Some(Setting::ReconnectBackoffMultiplier)
    );
    assert_eq!(setting_of_key(Source::Ini, "hostname"), None);
    assert_eq!(setting_of_key(Source::Env, "PODOS_GATEWAY_HOST"), Some(Setting::Host));
    assert_eq!(setting_of_key(Source::Env, "podos_gateway_host"), None);
}

#[test]
fn env_variables() {
    let cfg = config_from_env(&pairs(&[
        ("PODOS_GATEWAY_HOST", "gw"),
        ("PODOS_GATEWAY_PORT", "7654"),
        ("PODOS_GATEWAY_FQN", "zeroth.pod-os.com"),
        ("PODOS_ACTOR_NAME", "agent"),
        ("PODOS_PASSCODE", "pw"),
        ("PODOS_CONCURRENT_MODE", "y"),
        ("PODOS_DIAL_TIMEOUT", "12"),
        ("PODOS_LOG_LEVEL", "2"),
        ("PODOS_RECONNECT_ENABLED", "false"),
        ("PODOS_RECONNECT_MAX_RETRIES", "0"),
        ("PODOS_RECONNECT_MAX_BACKOFF", "0"),
        ("PATH", "/usr/bin"),
        ("host", "ignored"),
    ]));
    assert_eq!(cfg.host, "gw");
    assert_eq!(cfg.port, "7654");
    assert_eq!(cfg.gateway_actor_name, "zeroth.pod-os.com");
    assert_eq!(cfg.client_name, "agent");
    assert_eq!(cfg.passcode, "pw");
    assert!(cfg.enable_concurrent_mode);
    assert_eq!(cfg.dial_timeout, 12_000);
    assert_eq!(cfg.log_level, 2);
    assert_eq!(cfg.reconnect_config.enabled, Some(false));
    assert_eq!(cfg.reconnect_config.max_retries, 0);
    assert_eq!(cfg.reconnect_config.max_backoff, 60_000);
    assert_eq!(cfg.enable_streaming, None);
}

#[test]
fn no_pairs_give_defaults() {
    let cfg = config_from_ini(&[]);
    let d = Config::default();
    assert_eq!(cfg.host, d.host);
    assert_eq!(cfg.dial_timeout, d.dial_timeout);
    assert_eq!(cfg.reconnect_config.max_retries, d.reconnect_config.max_retries);
}
