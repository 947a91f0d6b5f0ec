use pod_os_client::readiness::gate::{
    check_gateway_probe, probe_label, readiness_deadline_error, readiness_start, readiness_step,
    ReadinessStep,
};
use pod_os_client::message::types::{Message, ResponseFields};
use pod_os_client::{ActorAIPReadinessConfig, ErrCode, GatewayDError, GatewayReadinessProbe};

fn ok_reply() -> Result<Message, GatewayDError> {
    Ok(Message::default())
}

fn error_reply(text: &str) -> Result<Message, GatewayDError> {
    Ok(Message {
        response: Some(ResponseFields {
            status: "ERROR".to_string(),
            message: text.to_string(),
            ..Default::default()
        }),
        ..Default::default()
    })
}

#[test]
fn readiness_defaults() {
    let rc = ActorAIPReadinessConfig::default().normalized();
    assert_eq!(rc.timeout, 60_000);
    assert_eq!(rc.initial_backoff, 2_000);
    assert_eq!(rc.max_backoff, 8_000);
    assert_eq!(rc.required_consecutive, 1);
    assert_eq!(rc.success_interval, 2_000);
    let rc = ActorAIPReadinessConfig { timeout: 200, initial_backoff: 1, max_backoff: 2, ..Default::default() }
        .normalized();
    assert_eq!((rc.timeout, rc.initial_backoff, rc.max_backoff), (200, 1, 2));
}

#[test]
fn readiness_steps() {
    let rc = ActorAIPReadinessConfig { required_consecutive: 2, max_backoff: 5_000, ..Default::default() }
        .normalized();
    let mut st = readiness_start(&rc);
    assert_eq!(st.last_msg, "deadline exceeded");
    let lost = Err(GatewayDError::new(ErrCode::ConnectionLost, "connection to gateway was lost during request"));
    assert_eq!(readiness_step(&rc, &mut st, &lost), ReadinessStep::Sleep(2_000));
    assert_eq!(st.backoff, 4_000);
    assert_eq!(st.last_msg, "connection to gateway was lost during request");
    assert_eq!(readiness_step(&rc, &mut st, &error_reply("busy")), ReadinessStep::Sleep(4_000));
    assert_eq!(st.backoff, 5_000);
    assert_eq!(st.last_msg, "actor returned error: busy");
    assert_eq!(readiness_step(&rc, &mut st, &ok_reply()), ReadinessStep::Sleep(2_000));
    assert_eq!(st.consecutive, 1);
    assert_eq!(st.backoff, 2_000);
    assert_eq!(readiness_step(&rc, &mut st, &ok_reply()), ReadinessStep::Ready);
}

#[test]
fn readiness_failure_texts() {
    let e = readiness_deadline_error("a@zeroth.pod-os.com", 200, "deadline exceeded");
    assert_eq!(e.code, ErrCode::GatewayError);
    assert_eq!(e.message, "actor a@zeroth.pod-os.com not reachable over AIP within 200ms: deadline exceeded");
    let e = readiness_deadline_error("a", 60_000, "x");
    assert_eq!(e.message, format!("actor a not reachable over AIP within {:?}: x", std::time::Duration::from_secs(60)));
    for ms in [0u64, 1, 999, 1000, 1500, 1001, 1010, 1100, 61_250] {
        let e = readiness_deadline_error("a", ms as u128, "x");
        let want = format!("actor a not reachable over AIP within {:?}: x", std::time::Duration::from_millis(ms));
        assert_eq!(e.message, want);
    }
    assert_eq!(probe_label("a@b"), "aip_ready_a@b");
}

#[test]
fn gateway_probe_needs_an_anchor() {
    let e = check_gateway_probe(&GatewayReadinessProbe::default()).unwrap_err();
    assert_eq!(e.code, ErrCode::InvalidConfig);
    assert_eq!(e.message, "gateway readiness probe: probe_actor is required");
    let p = GatewayReadinessProbe { probe_actor: "test@zeroth.pod-os.com".to_string(), probe_actor_type: "neural_memory".to_string() };
    assert!(check_gateway_probe(&p).is_ok());
}
