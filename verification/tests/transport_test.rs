use pod_os_client::connection::resolver::{
    make_addr, network_family, no_addresses, resolve, resolve_failed, NetworkFamily, Resolution,
};
use pod_os_client::connection::retry::retry_verdict;
use pod_os_client::connection::transport::{
    after_write, check_network, chunk_ends, chunk_size_for, dial_failure, frame_body_len,
    grown_chunk_size, mark_lost, parse_length_prefix, tcp_options, transport_failure,
    ClientConfig, TransportFailure, WriteProgress,
};
use pod_os_client::errors::{ErrorSource, IoErrorKind};
use pod_os_client::{ErrCode, GatewayDError};

#[test]
fn length_prefix_hex_and_decimal() {
    assert_eq!(parse_length_prefix(b"x00000064").unwrap(), 100);
    assert_eq!(parse_length_prefix(b"x0000FFff").unwrap(), 65535);
    assert_eq!(parse_length_prefix(b"000000100").unwrap(), 100);
    assert_eq!(parse_length_prefix(b"000000000").unwrap(), 0);
    assert_eq!(parse_length_prefix(b"0000+0012").unwrap(), 12);
    assert_eq!(parse_length_prefix(b"x+1234567").unwrap(), 0x1234567);
}

#[test]
fn length_prefix_errors() {
    let e = parse_length_prefix(b"!!garbage").unwrap_err();
    assert_eq!(e.code, ErrCode::ClientReceiveFailed);
    assert_eq!(e.message, "invalid decimal prefix: !!garbage");
    let e = parse_length_prefix(b"x0000zzzz").unwrap_err();
    assert_eq!(e.message, "invalid hex prefix: x0000zzzz");
    let e = parse_length_prefix(&[0xff, b'0', b'0', b'0', b'0', b'0', b'0', b'0', b'1']).unwrap_err();
    assert_eq!(e.message, "length prefix is not UTF-8");
    let e = parse_length_prefix(b"x-0000001").unwrap_err();
    assert_eq!(e.message, "invalid hex prefix: x-0000001");
}

#[test]
fn frame_length_checks() {
    assert_eq!(frame_body_len(9, 100).unwrap(), 0);
    assert_eq!(frame_body_len(100, 100).unwrap(), 91);
    let e = frame_body_len(8, 100).unwrap_err();
    assert_eq!(e.code, ErrCode::ConnectionLost);
    assert_eq!(e.message, "declared totalLength < 9");
    let e = frame_body_len(101, 100).unwrap_err();
    assert_eq!(e.message, "declared totalLength 101 exceeds max message size 100");
}

#[test]
fn chunk_sizes() {
    assert_eq!(chunk_size_for(0), 512);
    assert_eq!(chunk_size_for(2048), 2048);
    assert_eq!(grown_chunk_size(512, 512), None);
    assert_eq!(grown_chunk_size(512, 600), Some(1024));
    assert_eq!(grown_chunk_size(2048, 9000), Some(4096));
    assert_eq!(grown_chunk_size(4096, 9000), Some(4096));
}

#[test]
fn chunk_plan_covers_the_frame() {
    assert_eq!(chunk_ends(9, 512), Vec::<usize>::new());
    assert_eq!(chunk_ends(100, 512), vec![100]);
    assert_eq!(chunk_ends(1100, 512), vec![521, 1033, 1100]);
    assert_eq!(chunk_ends(521, 512), vec![521]);
}

#[test]
fn zero_byte_writes() {
    let p = WriteProgress { pos: 0, zero_writes: 0 };
    let p = after_write(p, 0, 10).unwrap();
    assert_eq!(p, WriteProgress { pos: 0, zero_writes: 1 });
    let p = after_write(p, 4, 10).unwrap();
    assert_eq!(p, WriteProgress { pos: 4, zero_writes: 0 });
    let p = after_write(p, 0, 10).unwrap();
    let p = after_write(p, 0, 10).unwrap();
    let e = after_write(p, 0, 10).unwrap_err();
    assert_eq!(e.code, ErrCode::ConnectionLost);
    assert_eq!(e.message, "repeated zero-byte writes");
}

#[test]
fn tcp_tuning_defaults() {
    let o = tcp_options(0, 0, 0, 0);
    assert!(o.nodelay);
    assert_eq!((o.keepalive_idle, o.keepalive_interval, o.keepalive_retries, o.user_timeout), (15_000, 5_000, 3, 30_000));
    let o = tcp_options(1, 2, 3, 4);
    assert_eq!((o.keepalive_idle, o.keepalive_interval, o.keepalive_retries, o.user_timeout), (1, 2, 3, 4));
    let c = ClientConfig::default();
    assert_eq!((c.dial_timeout, c.send_timeout, c.receive_timeout), (10_000, 30_000, 30_000));
}

#[test]
fn networks() {
    assert!(check_network("tcp").is_ok());
    assert!(check_network("tcp6").is_ok());
    let e = check_network("udp").unwrap_err();
    assert_eq!(e.code, ErrCode::InvalidNetwork);
    assert_eq!(e.message, "unsupported network 'udp': only TCP (tcp/tcp4/tcp6) is implemented");
    assert_eq!(network_family("udp4"), Some(NetworkFamily::Udp));
    assert_eq!(network_family("unixgram"), Some(NetworkFamily::Unix));
    assert_eq!(network_family("tcp4"), Some(NetworkFamily::Tcp));
    assert_eq!(network_family("sctp"), None);
}

#[test]
fn addresses() {
    assert_eq!(make_addr("localhost", "7654"), "localhost:7654");
    assert_eq!(resolve("unix", "/tmp/pod.sock"), Resolution::Path("/tmp/pod.sock".to_string()));
    assert_eq!(resolve("tcp", "gw:1"), Resolution::Lookup("gw:1".to_string()));
    let e = no_addresses("gw:1");
    assert_eq!((e.code, e.message.as_str()), (ErrCode::ResolveFailed, "no addresses for 'gw:1'"));
    let cause = ErrorSource { io_kind: Some(IoErrorKind::Other), message: "nope".to_string() };
    let e = resolve_failed("gw:1", cause);
    assert_eq!(e.message, "cannot resolve 'gw:1'");
    assert!(e.source.is_some());
}

#[test]
fn lost_connections() {
    let e = mark_lost(GatewayDError::new(ErrCode::ClientReceiveFailed, "bad prefix"));
    assert_eq!((e.code, e.message.as_str()), (ErrCode::ConnectionLost, "bad prefix"));
    let e = mark_lost(GatewayDError::new(ErrCode::ConnectionLost, "gone"));
    assert_eq!((e.code, e.message.as_str()), (ErrCode::ConnectionLost, "gone"));
}

#[test]
fn transport_failures() {
    let e = transport_failure(TransportFailure::IdleTimeout, None);
    assert_eq!(e.code, ErrCode::ReceiveIdleTimeout);
    assert!(e.is_idle_timeout());
    let e = transport_failure(TransportFailure::NotConnected, None);
    assert_eq!((e.code, e.message.as_str()), (ErrCode::ClientNotConnected, "client is not connected"));
    let cause = ErrorSource { io_kind: Some(IoErrorKind::BrokenPipe), message: "pipe".to_string() };
    let e = transport_failure(TransportFailure::WriteError, Some(cause));
    assert!(e.is_connection_lost());
    assert_eq!(e.message, "write error");
    let e = dial_failure("gw:1", None);
    assert_eq!((e.code, e.message.as_str()), (ErrCode::ClientDialFailed, "dial timeout: gw:1"));
}

#[test]
fn retries_give_up_at_the_limit() {
    let err = GatewayDError::new(ErrCode::Unknown, "always fail");
    assert!(retry_verdict(2, 0, &err).is_none());
    let e = retry_verdict(2, 1, &err).expect("exhausted");
    assert_eq!(e.code, ErrCode::RetriesExhausted);
    assert_eq!(e.message, "retries exhausted after 2 attempts: always fail");
    assert!(retry_verdict(0, 1000, &err).is_none());
}
