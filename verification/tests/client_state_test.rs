use pod_os_client::ConnectionState;

#[test]
fn connection_state_display() {
    assert_eq!(ConnectionState::Connected.as_str(), "connected");
    assert_eq!(ConnectionState::Disconnected.as_str(), "disconnected");
    assert_eq!(ConnectionState::Reconnecting.as_str(), "reconnecting");
    assert_eq!(ConnectionState::ReconnectFailed.as_str(), "reconnect_failed");
}

#[test]
fn connection_state_equality() {
    assert_eq!(ConnectionState::Connected, ConnectionState::Connected);
    assert_ne!(ConnectionState::Connected, ConnectionState::Disconnected);
}

#[test]
fn connection_state_debug() {
    let s = format!("{:?}", ConnectionState::Connected);
    assert_eq!(s, "Connected");
}
