//! The gateway client's decisions: configuration checks, the registry key,
//! the control messages it sends (GatewayId, GatewayStreamOn, Keepalive,
//! GatewayDisconnect), envelope defaults, the authentication verdict, and
//! when the receive loop, the keepalive ticker and reconnection act.
//!
//! The program that owns the socket, the tasks and the timers performs what
//! these functions decide.

use vstd::prelude::*;

use crate::config::Config;
use crate::errors::{ErrCode, ErrorSource, GatewayDError};
use crate::log::{level_of, Level};
use crate::message::intents::{
    gateway_disconnect, gateway_id, gateway_stream_on, keepalive, spec_gateway_disconnect,
    spec_gateway_id, spec_gateway_stream_on, spec_keepalive,
};
use crate::message::types::{Envelope, Message};
use crate::message::utils::{is_uuid_v4_text, new_message_id};
use crate::text::{append_str, chars_of, str_eq, string_from_chars};

verus! {

/// The state of a client's connection, as reported to observers.
#[derive(Debug, Clone, Copy, PartialEq, Eq, Structural)]
pub enum ConnectionState {
    /// Connected again after a reconnect.
    Connected,
    /// The connection was lost.
    Disconnected,
    /// A reconnect is starting.
    Reconnecting,
    /// Every reconnect attempt failed.
    ReconnectFailed,
}

impl ConnectionState {
    /// The state's name.
    pub open spec fn text(self) -> Seq<char> {
        match self {
            ConnectionState::Connected => "connected"@,
            ConnectionState::Disconnected => "disconnected"@,
            ConnectionState::Reconnecting => "reconnecting"@,
            ConnectionState::ReconnectFailed => "reconnect_failed"@,
        }
    }

    /// `connected`, `disconnected`, `reconnecting` or `reconnect_failed`.
    pub fn as_str(&self) -> (r: &'static str)
        ensures
            r@ == self.text(),
    {
        match self {
            ConnectionState::Connected => "connected",
            ConnectionState::Disconnected => "disconnected",
            ConnectionState::Reconnecting => "reconnecting",
            ConnectionState::ReconnectFailed => "reconnect_failed",
        }
    }
}

/// The first missing identity setting, in the order client name, gateway
/// actor name, host, port.
pub open spec fn config_problem(cfg: Config) -> Option<Seq<char>> {
    if cfg.client_name@.len() == 0 {
        Some("ClientName must not be empty"@)
    } else if cfg.gateway_actor_name@.len() == 0 {
        Some("GatewayActorName must not be empty"@)
    } else if cfg.host@.len() == 0 {
        Some("Host must not be empty"@)
    } else if cfg.port@.len() == 0 {
        Some("Port must not be empty"@)
    } else {
        None
    }
}

/// A client needs a client name, a gateway actor name, a host and a port.
pub fn validate_client_config(cfg: &Config) -> (r: Result<(), GatewayDError>)
    ensures
        r is Ok <==> config_problem(*cfg) is None,
        r matches Err(e) ==> e.code == ErrCode::InvalidConfig && e.source is None && Some(e.message@)
            == config_problem(*cfg),
{
    if cfg.client_name.as_str().unicode_len() == 0 {
        Err(GatewayDError::new(ErrCode::InvalidConfig, "ClientName must not be empty"))
    } else if cfg.gateway_actor_name.as_str().unicode_len() == 0 {
        Err(GatewayDError::new(ErrCode::InvalidConfig, "GatewayActorName must not be empty"))
    } else if cfg.host.as_str().unicode_len() == 0 {
        Err(GatewayDError::new(ErrCode::InvalidConfig, "Host must not be empty"))
    } else if cfg.port.as_str().unicode_len() == 0 {
        Err(GatewayDError::new(ErrCode::InvalidConfig, "Port must not be empty"))
    } else {
        Ok(())
    }
}

/// The key under which a client is registered: `client:gateway`.
pub fn registry_key(client_name: &str, gateway_actor_name: &str) -> (r: String)
    ensures
        r@ == client_name@ + ":"@ + gateway_actor_name@,
{
    let mut m = chars_of(client_name);
    append_str(&mut m, ":");
    append_str(&mut m, gateway_actor_name);
    string_from_chars(m.as_slice())
}

/// The gateway's system address: `$system@gateway`.
pub open spec fn system_address(gateway_actor_name: Seq<char>) -> Seq<char> {
    "$system@"@ + gateway_actor_name
}

/// The client's own address: `client@gateway`.
pub open spec fn client_address(client_name: Seq<char>, gateway_actor_name: Seq<char>) -> Seq<
    char,
> {
    client_name + "@"@ + gateway_actor_name
}

fn address_of(name: &str, gateway_actor_name: &str) -> (r: String)
    ensures
        r@ == client_address(name@, gateway_actor_name@),
{
    let mut m = chars_of(name);
    append_str(&mut m, "@");
    append_str(&mut m, gateway_actor_name);
    string_from_chars(m.as_slice())
}

/// The control messages a client sends to the gateway itself.
#[derive(Debug, Clone, Copy, PartialEq, Eq, Structural)]
pub enum Control {
    /// Authentication (message type 5).
    GatewayId,
    /// Turn on streaming of unsolicited messages.
    StreamOn,
    /// Application-level keepalive (message type 18).
    Keepalive,
    /// Orderly goodbye (message type 6).
    Disconnect,
}

/// The intent of a control message.
pub open spec fn control_intent(kind: Control) -> crate::message::intents::Intent {
    match kind {
        Control::GatewayId => spec_gateway_id(),
        Control::StreamOn => spec_gateway_stream_on(),
        Control::Keepalive => spec_keepalive(),
        Control::Disconnect => spec_gateway_disconnect(),
    }
}

/// A control message: to `$system@gateway` from `client@gateway` under a
/// fresh message id; all but GatewayStreamOn carry the client name, and
/// GatewayId carries the passcode.
pub open spec fn is_control_message(
    m: Message,
    kind: Control,
    client_name: Seq<char>,
    gateway_actor_name: Seq<char>,
    passcode: Seq<char>,
) -> bool {
    &&& m.envelope.to@ == system_address(gateway_actor_name)
    &&& m.envelope.from@ == client_address(client_name, gateway_actor_name)
    &&& m.envelope.intent == control_intent(kind)
    &&& m.envelope.client_name@ == (if kind == Control::StreamOn {
        Seq::empty()
    } else {
        client_name
    })
    &&& m.envelope.passcode@ == (if kind == Control::GatewayId {
        passcode
    } else {
        Seq::empty()
    })
    &&& is_uuid_v4_text(m.envelope.message_id@)
    &&& m.envelope.user_name@.len() == 0
    &&& m.event is None
    &&& m.payload is None
    &&& m.neural_memory is None
    &&& m.response is None
    &&& m.public_key is None
}

/// The control message of the given kind for this client.
pub fn control_message(kind: Control, client_name: &str, gateway_actor_name: &str, passcode: &str) -> (r:
    Message)
    ensures
        is_control_message(r, kind, client_name@, gateway_actor_name@, passcode@),
{
    let mut to = chars_of("$system@");
    append_str(&mut to, gateway_actor_name);
    let intent = match kind {
        Control::GatewayId => gateway_id(),
        Control::StreamOn => gateway_stream_on(),
        Control::Keepalive => keepalive(),
        Control::Disconnect => gateway_disconnect(),
    };
    let name = match kind {
        Control::StreamOn => String::new(),
        _ => client_name.to_owned(),
    };
    let pass = match kind {
        Control::GatewayId => passcode.to_owned(),
        _ => String::new(),
    };
    Message {
        envelope: Envelope {
            to: string_from_chars(to.as_slice()),
            from: address_of(client_name, gateway_actor_name),
            intent,
            client_name: name,
            message_id: new_message_id(),
            passcode: pass,
            user_name: String::new(),
        },
        event: None,
        payload: None,
        neural_memory: None,
        response: None,
        public_key: None,
    }
}

/// Fills what a caller left empty in an outgoing envelope: the client name,
/// the sender (`client@gateway`) and a fresh message id; everything else is
/// kept.
pub fn autocorrect_envelope(msg: &mut Message, client_name: &str, gateway_actor_name: &str)
    ensures
        final(msg).envelope.client_name@ == (if old(msg).envelope.client_name@.len() == 0 {
            client_name@
        } else {
            old(msg).envelope.client_name@
        }),
        final(msg).envelope.from@ == (if old(msg).envelope.from@.len() == 0 {
            client_address(client_name@, gateway_actor_name@)
        } else {
            old(msg).envelope.from@
        }),
        old(msg).envelope.message_id@.len() == 0 ==> is_uuid_v4_text(final(msg).envelope.message_id@),
        old(msg).envelope.message_id@.len() > 0 ==> final(msg).envelope.message_id
            == old(msg).envelope.message_id,
        final(msg).envelope.to == old(msg).envelope.to,
        final(msg).envelope.intent == old(msg).envelope.intent,
        final(msg).envelope.passcode == old(msg).envelope.passcode,
        final(msg).envelope.user_name == old(msg).envelope.user_name,
        final(msg).event == old(msg).event,
        final(msg).payload == old(msg).payload,
        final(msg).neural_memory == old(msg).neural_memory,
        final(msg).response == old(msg).response,
        final(msg).public_key == old(msg).public_key,
{
    if msg.envelope.client_name.as_str().unicode_len() == 0 {
        msg.envelope.client_name = client_name.to_owned();
    }
    if msg.envelope.from.as_str().unicode_len() == 0 {
        msg.envelope.from = address_of(client_name, gateway_actor_name);
    }
    if msg.envelope.message_id.as_str().unicode_len() == 0 {
        msg.envelope.message_id = new_message_id();
    }
}

/// The verdict on the gateway's answer to GatewayId: refused when its
/// status is `ERROR`.
pub fn authentication_result(resp: &Message) -> (r: Result<(), GatewayDError>)
    ensures
        r is Err <==> resp.spec_processing_status() == "ERROR"@,
        r matches Err(e) ==> e.code == ErrCode::AuthenticationFailed && e.source is None
            && e.message@ == "gateway rejected authentication: "@ + resp.spec_processing_message(),
{
    if str_eq(resp.processing_status(), "ERROR") {
        let mut m = chars_of("gateway rejected authentication: ");
        append_str(&mut m, resp.processing_message());
        Err(
            GatewayDError {
                code: ErrCode::AuthenticationFailed,
                message: string_from_chars(m.as_slice()),
                source: None,
            },
        )
    } else {
        Ok(())
    }
}

/// An error raised while doing `context`: `<context>: <detail>`.
pub fn context_error(code: ErrCode, context: &str, detail: &str) -> (r: GatewayDError)
    ensures
        r.code == code,
        r.source is None,
        r.message@ == context@ + ": "@ + detail@,
{
    let mut m = chars_of(context);
    append_str(&mut m, ": ");
    append_str(&mut m, detail);
    GatewayDError { code, message: string_from_chars(m.as_slice()), source: None }
}

/// The ways a request fails on the client's side.
#[derive(Debug, Clone, Copy, PartialEq, Eq, Structural)]
pub enum ClientFailure {
    /// The connection was lost and could not be restored for a request.
    LostDuringRequest,
    /// An in-flight request is failed because the connection died.
    LostInFlight,
    /// No response arrived within the response timeout.
    ResponseTimeout,
    /// The response channel closed before a response arrived.
    ResponseChannelClosed,
    /// Reconnecting after a failed synchronous send did not succeed.
    ReconnectFailedAfterSend,
}

/// The code of a client-side failure.
pub open spec fn client_failure_code(f: ClientFailure) -> ErrCode {
    match f {
        ClientFailure::LostDuringRequest => ErrCode::GatewayDisconnected,
        ClientFailure::LostInFlight => ErrCode::ConnectionLost,
        ClientFailure::ResponseTimeout => ErrCode::GatewayTimeout,
        ClientFailure::ResponseChannelClosed => ErrCode::GatewayDisconnected,
        ClientFailure::ReconnectFailedAfterSend => ErrCode::GatewayDisconnected,
    }
}

/// The message of a client-side failure.
pub open spec fn client_failure_text(f: ClientFailure) -> Seq<char> {
    match f {
        ClientFailure::LostDuringRequest => "connection to gateway was lost during request"@,
        ClientFailure::LostInFlight => "connection to gateway was lost during request"@,
        ClientFailure::ResponseTimeout => "response timeout"@,
        ClientFailure::ResponseChannelClosed =>
            "response channel closed: sender dropped (connection lost or receiver stopped)"@,
        ClientFailure::ReconnectFailedAfterSend => "reconnection failed after sync send error"@,
    }
}

/// The error reported for a client-side failure.
pub fn client_failure(f: ClientFailure) -> (r: GatewayDError)
    ensures
        r.code == client_failure_code(f),
        r.message@ == client_failure_text(f),
        r.source is None,
{
    match f {
        ClientFailure::LostDuringRequest => GatewayDError::new(
            ErrCode::GatewayDisconnected,
            "connection to gateway was lost during request",
        ),
        ClientFailure::LostInFlight => GatewayDError::new(
            ErrCode::ConnectionLost,
            "connection to gateway was lost during request",
        ),
        ClientFailure::ResponseTimeout => GatewayDError::new(
            ErrCode::GatewayTimeout,
            "response timeout",
        ),
        ClientFailure::ResponseChannelClosed => GatewayDError::new(
            ErrCode::GatewayDisconnected,
            "response channel closed: sender dropped (connection lost or receiver stopped)",
        ),
        ClientFailure::ReconnectFailedAfterSend => GatewayDError::new(
            ErrCode::GatewayDisconnected,
            "reconnection failed after sync send error",
        ),
    }
}

/// The error for a connection lost while a request was in flight.
pub fn err_connection_lost() -> (r: GatewayDError)
    ensures
        r.code == ErrCode::GatewayDisconnected,
        r.message@ == "connection to gateway was lost during request"@,
        r.source is None,
{
    client_failure(ClientFailure::LostDuringRequest)
}

/// The level of the built-in logger for a configured log level: none at 0.
pub fn logger_level(log_level: u8) -> (r: Option<Level>)
    ensures
        log_level == 0 ==> r is None,
        log_level > 0 ==> r == Some(level_of(log_level)),
{
    if log_level > 0 {
        Some(Level::from(log_level))
    } else {
        None
    }
}

/// Whether a failed synchronous request is retried after reconnecting:
/// reconnection is on and the failure was a lost connection.
pub fn reconnects_after(cfg: &Config, err: &GatewayDError) -> (r: bool)
    ensures
        r == (cfg.reconnect_config.enabled_spec() && err.spec_is_connection_lost()),
{
    cfg.reconnect_config.is_enabled() && err.is_connection_lost()
}

/// Whether an idle receive timeout means the connection is dead: requests
/// are waiting and nothing has arrived for longer than the liveness
/// backstop.
pub fn idle_timeout_is_fatal(pending: usize, idle_ms: u128, liveness_ms: u128) -> (r: bool)
    ensures
        r == (pending > 0 && idle_ms > liveness_ms),
{
    pending > 0 && idle_ms > liveness_ms
}

/// Whether the reconnect loop stops before attempt `attempt` (numbered
/// from 0): the client was closed, or `max` attempts (0: unlimited) were
/// made.
pub fn reconnect_stops(closed: bool, max: usize, attempt: usize) -> (r: bool)
    ensures
        r == (closed || (max > 0 && attempt >= max)),
{
    closed || (max > 0 && attempt >= max)
}

/// Whether a keepalive tick sends a keepalive: the client is open,
/// connected and not reconnecting.
pub fn keepalive_due(closed: bool, connected: bool, reconnecting: bool) -> (r: bool)
    ensures
        r == (!closed && connected && !reconnecting),
{
    !closed && connected && !reconnecting
}

/// What a caller waiting for a reconnect does.
#[derive(Debug, Clone, Copy, PartialEq, Eq, Structural)]
pub enum ReconnectWait {
    /// Carry on: the connection is up.
    Proceed,
    /// Give up: the client is closed or nobody is reconnecting.
    GiveUp,
    /// Wait for the reconnect in progress to finish.
    Wait,
}

/// Before waiting: proceed when connected, give up when closed or when no
/// reconnect is in progress, else wait.
pub fn reconnect_wait(connected: bool, closed: bool, reconnecting: bool) -> (r: ReconnectWait)
    ensures
        connected ==> r == ReconnectWait::Proceed,
        !connected && (closed || !reconnecting) ==> r == ReconnectWait::GiveUp,
        !connected && !closed && reconnecting ==> r == ReconnectWait::Wait,
{
    if connected {
        ReconnectWait::Proceed
    } else if closed || !reconnecting {
        ReconnectWait::GiveUp
    } else {
        ReconnectWait::Wait
    }
}


/// What a new client does with a client already registered under its key.
#[derive(Debug, Clone, Copy, PartialEq, Eq, Structural)]
pub enum RegistryReuse {
    /// Hand out the registered client.
    Reuse,
    /// Wait for its reconnect to finish, then decide again.
    AwaitReconnect,
    /// Drop it from the registries and connect afresh.
    Replace,
}

/// A registered client is reused when connected, awaited while it
/// reconnects, and replaced otherwise.
pub fn registry_reuse(connected: bool, reconnecting: bool) -> (r: RegistryReuse)
    ensures
        connected ==> r == RegistryReuse::Reuse,
        !connected && reconnecting ==> r == RegistryReuse::AwaitReconnect,
        !connected && !reconnecting ==> r == RegistryReuse::Replace,
{
    if connected {
        RegistryReuse::Reuse
    } else if reconnecting {
        RegistryReuse::AwaitReconnect
    } else {
        RegistryReuse::Replace
    }
}

/// Where the receiver hands a decoded frame.
#[derive(Debug, Clone, Copy, PartialEq, Eq, Structural)]
pub enum ReplyRoute {
    /// The caller waiting for a reply to this message id.
    Waiter,
    /// The caller waiting for a reply and its raw bytes under this id.
    RawWaiter,
    /// No one waits for it: it goes to the subscribers of unsolicited
    /// messages.
    Incoming,
}

/// A frame whose message id a caller waits on goes to that caller (one
/// waiting for the reply first, then one waiting for the raw reply);
/// any other frame is unsolicited.
pub fn reply_route(has_waiter: bool, has_raw_waiter: bool) -> (r: ReplyRoute)
    ensures
        has_waiter ==> r == ReplyRoute::Waiter,
        !has_waiter && has_raw_waiter ==> r == ReplyRoute::RawWaiter,
        !has_waiter && !has_raw_waiter ==> r == ReplyRoute::Incoming,
{
    if has_waiter {
        ReplyRoute::Waiter
    } else if has_raw_waiter {
        ReplyRoute::RawWaiter
    } else {
        ReplyRoute::Incoming
    }
}

/// The control messages of a reconnect, in order: a goodbye on the old
/// connection, then identification on the new one, then streaming when it
/// is enabled.
pub open spec fn reregistration_plan(streaming: bool) -> Seq<Control> {
    seq![Control::Disconnect, Control::GatewayId] + if streaming {
        seq![Control::StreamOn]
    } else {
        Seq::empty()
    }
}

/// The control messages a reconnect sends, in order.
pub fn reregistration_steps(streaming: bool) -> (r: Vec<Control>)
    ensures
        r@ == reregistration_plan(streaming),
{
    let mut v: Vec<Control> = Vec::new();
    v.push(Control::Disconnect);
    v.push(Control::GatewayId);
    if streaming {
        v.push(Control::StreamOn);
    }
    assert(v@ =~= reregistration_plan(streaming));
    v
}

} // verus!
