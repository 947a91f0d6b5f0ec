//! The transport's decisions: which networks it dials, the TCP tuning it
//! applies, how a frame's length prefix is read and checked, how a frame is
//! read in chunks, and when a write has stalled.
//!
//! Every frame on the wire starts with a 9-byte total length (`x` + 8 hex
//! digits, or 9 decimal digits) that counts the prefix itself.

use vstd::prelude::*;
use vstd::utf8::*;

use crate::errors::{ErrCode, ErrorSource, GatewayDError};
use crate::message::encoder::hex_len_field;
use crate::message::roundtrip::{lemma_hex_len_field, lemma_hex_len_field_ascii};
use crate::message::wire::{len_field_value, parse_length_value};
use crate::text::{
    append_chars, append_str, chars_of, dec_digits, push_dec_digits, str_eq, str_from_utf8,
    string_from_chars,
};

verus! {

/// Size of the length prefix.
pub const LEN_PREFIX_BYTES: usize = 9;
/// Initial read chunk; it grows as large frames arrive.
pub const INITIAL_CHUNK_SIZE: usize = 512;
/// Largest read chunk.
pub const MAX_CHUNK_SIZE: usize = 4096;
/// Consecutive zero-byte writes after which the connection counts as dead.
pub const MAX_ZERO_WRITES: usize = 3;
/// TCP keepalive idle time used when none is configured, in milliseconds.
pub const KEEPALIVE_IDLE: u128 = 15_000;
/// TCP keepalive probe interval used when none is configured, in milliseconds.
pub const KEEPALIVE_INTERVAL: u128 = 5_000;
/// TCP keepalive probe count used when none is configured.
pub const KEEPALIVE_RETRIES: u32 = 3;
/// TCP user timeout used when none is configured, in milliseconds.
pub const TCP_USER_TIMEOUT: u128 = 30_000;

/// Settings of one transport connection (durations in milliseconds).
#[derive(Debug, Clone)]
pub struct ClientConfig {
    pub dial_timeout: u128,
    pub send_timeout: u128,
    pub receive_timeout: u128,
    /// 0 for the default.
    pub tcp_keep_alive_idle: u128,
    /// 0 for the default.
    pub tcp_keep_alive_interval: u128,
    /// 0 for the default.
    pub tcp_keep_alive_count: u32,
    /// 0 for the default.
    pub tcp_user_timeout: u128,
}

impl Default for ClientConfig {
    /// 10 s dial, 30 s send and receive, default TCP tuning.
    fn default() -> (r: Self)
        ensures
            r.dial_timeout == 10_000,
            r.send_timeout == 30_000,
            r.receive_timeout == 30_000,
            r.tcp_keep_alive_idle == 0,
            r.tcp_keep_alive_interval == 0,
            r.tcp_keep_alive_count == 0,
            r.tcp_user_timeout == 0,
    {
        ClientConfig {
            dial_timeout: 10_000,
            send_timeout: 30_000,
            receive_timeout: 30_000,
            tcp_keep_alive_idle: 0,
            tcp_keep_alive_interval: 0,
            tcp_keep_alive_count: 0,
            tcp_user_timeout: 0,
        }
    }
}

/// The TCP tuning applied to a dialled stream: no Nagle delay, keepalive
/// probes and a user timeout (durations in milliseconds).
#[derive(Debug, Clone, Copy, PartialEq, Eq, Structural)]
pub struct TcpOptions {
    pub nodelay: bool,
    pub keepalive_idle: u128,
    pub keepalive_interval: u128,
    pub keepalive_retries: u32,
    pub user_timeout: u128,
}

/// The tuning for the configured values, each 0 replaced by its default.
pub fn tcp_options(idle: u128, interval: u128, retries: u32, user_timeout: u128) -> (r: TcpOptions)
    ensures
        r.nodelay,
        r.keepalive_idle == (if idle == 0 { KEEPALIVE_IDLE } else { idle }),
        r.keepalive_interval == (if interval == 0 { KEEPALIVE_INTERVAL } else { interval }),
        r.keepalive_retries == (if retries == 0 { KEEPALIVE_RETRIES } else { retries }),
        r.user_timeout == (if user_timeout == 0 { TCP_USER_TIMEOUT } else { user_timeout }),
{
    TcpOptions {
        nodelay: true,
        keepalive_idle: if idle == 0 { KEEPALIVE_IDLE } else { idle },
        keepalive_interval: if interval == 0 { KEEPALIVE_INTERVAL } else { interval },
        keepalive_retries: if retries == 0 { KEEPALIVE_RETRIES } else { retries },
        user_timeout: if user_timeout == 0 { TCP_USER_TIMEOUT } else { user_timeout },
    }
}

/// The networks the transport dials.
pub open spec fn dials(network: Seq<char>) -> bool {
    network == "tcp"@ || network == "tcp4"@ || network == "tcp6"@
}

/// Accepts `tcp`, `tcp4` and `tcp6`; any other network is refused.
pub fn check_network(network: &str) -> (r: Result<(), GatewayDError>)
    ensures
        r is Ok <==> dials(network@),
        r matches Err(e) ==> e.code == ErrCode::InvalidNetwork && e.message@ == "unsupported network '"@
            + network@ + "': only TCP (tcp/tcp4/tcp6) is implemented"@ && e.source is None,
{
    if str_eq(network, "tcp") || str_eq(network, "tcp4") || str_eq(network, "tcp6") {
        Ok(())
    } else {
        let mut m = chars_of("unsupported network '");
        append_str(&mut m, network);
        append_str(&mut m, "': only TCP (tcp/tcp4/tcp6) is implemented");
        Err(
            GatewayDError {
                code: ErrCode::InvalidNetwork,
                message: string_from_chars(m.as_slice()),
                source: None,
            },
        )
    }
}

/// The error re-tagged as a lost connection: a `ConnectionLost` error is
/// kept as it is, any other becomes `ConnectionLost` with its message.
pub fn mark_lost(err: GatewayDError) -> (r: GatewayDError)
    ensures
        r.code == ErrCode::ConnectionLost,
        err.code == ErrCode::ConnectionLost ==> r == err,
        err.code != ErrCode::ConnectionLost ==> r.message == err.message && r.source is None,
{
    match err.code {
        ErrCode::ConnectionLost => err,
        _ => GatewayDError { code: ErrCode::ConnectionLost, message: err.message, source: None },
    }
}

/// What a length prefix reads as: the decoded total length, or the error.
pub open spec fn prefix_value(prefix: Seq<u8>) -> Option<nat> {
    if valid_utf8(prefix) {
        len_field_value(prefix)
    } else {
        None
    }
}

/// Reads a 9-byte length prefix: `x` + hex digits or decimal digits (an
/// optional `+` before the digits; all zeros is 0).
pub fn parse_length_prefix(prefix: &[u8]) -> (r: Result<usize, GatewayDError>)
    requires
        prefix@.len() == LEN_PREFIX_BYTES,
    ensures
        r matches Ok(v) ==> prefix_value(prefix@) == Some(v as nat),
        r is Err <==> prefix_value(prefix@) is None,
        r matches Err(e) ==> e.code == ErrCode::ClientReceiveFailed && e.source is None && e.message@
            == (if !valid_utf8(prefix@) {
            "length prefix is not UTF-8"@
        } else if prefix@[0] == 0x78u8 {
            "invalid hex prefix: "@ + decode_utf8(prefix@)
        } else {
            "invalid decimal prefix: "@ + decode_utf8(prefix@)
        }),
{
    let text = match str_from_utf8(prefix) {
        None => {
            return Err(GatewayDError::new(ErrCode::ClientReceiveFailed, "length prefix is not UTF-8"));
        },
        Some(s) => s,
    };
    match parse_length_value(prefix) {
        Some(v) => Ok(v),
        None => {
            let mut m = if prefix[0] == 0x78u8 {
                chars_of("invalid hex prefix: ")
            } else {
                chars_of("invalid decimal prefix: ")
            };
            append_str(&mut m, text.as_str());
            Err(
                GatewayDError {
                    code: ErrCode::ClientReceiveFailed,
                    message: string_from_chars(m.as_slice()),
                    source: None,
                },
            )
        },
    }
}

/// Bytes below 0x80 are well-formed UTF-8.
proof fn lemma_ascii_valid_utf8(b: Seq<u8>)
    requires
        forall|i: int| 0 <= i < b.len() ==> #[trigger] b[i] < 0x80,
    ensures
        valid_utf8(b),
    decreases b.len(),
{
    if b.len() > 0 {
        let rest = b.subrange(1, b.len() as int);
        assert(is_leading_byte_width_1(b[0]));
        assert(forall|i: int| 0 <= i < rest.len() ==> #[trigger] rest[i] == b[i + 1]);
        lemma_ascii_valid_utf8(rest);
        assert(pop_first_scalar(b) == rest);
    }
}

/// What the encoder writes as a frame's total length, the transport reads
/// back: for every length below 2^32, the `x`-prefixed hex field is a
/// well-formed prefix whose value is that length.
pub proof fn lemma_prefix_reads_frame_length(n: nat)
    requires
        n < 0x1_0000_0000,
    ensures
        hex_len_field(n).len() == LEN_PREFIX_BYTES,
        prefix_value(hex_len_field(n)) == Some(n),
{
    lemma_hex_len_field(n);
    lemma_hex_len_field_ascii(n);
    lemma_ascii_valid_utf8(hex_len_field(n));
}

/// Checks a declared total length against the prefix size and the size
/// limit; the body length that follows the prefix when it passes.
pub fn frame_body_len(total: usize, max_size: usize) -> (r: Result<usize, GatewayDError>)
    ensures
        r is Ok <==> LEN_PREFIX_BYTES <= total <= max_size,
        r matches Ok(b) ==> b == total - LEN_PREFIX_BYTES,
        r matches Err(e) ==> e.code == ErrCode::ConnectionLost && e.source is None && e.message@
            == (if total < LEN_PREFIX_BYTES {
            "declared totalLength < 9"@
        } else {
            "declared totalLength "@ + dec_digits(total as nat) + " exceeds max message size "@
                + dec_digits(max_size as nat)
        }),
{
    if total < LEN_PREFIX_BYTES {
        return Err(GatewayDError::new(ErrCode::ConnectionLost, "declared totalLength < 9"));
    }
    if total > max_size {
        let mut m = chars_of("declared totalLength ");
        push_dec_digits(&mut m, total as u64);
        append_str(&mut m, " exceeds max message size ");
        push_dec_digits(&mut m, max_size as u64);
        return Err(
            GatewayDError {
                code: ErrCode::ConnectionLost,
                message: string_from_chars(m.as_slice()),
                source: None,
            },
        );
    }
    Ok(total - LEN_PREFIX_BYTES)
}

/// The chunk size for reading a frame: the learned size, at least the
/// initial one.
pub fn chunk_size_for(learned: usize) -> (r: usize)
    ensures
        r == (if learned < INITIAL_CHUNK_SIZE { INITIAL_CHUNK_SIZE } else { learned }),
{
    if learned < INITIAL_CHUNK_SIZE {
        INITIAL_CHUNK_SIZE
    } else {
        learned
    }
}

/// The chunk size to learn after a frame: doubled, up to 4 KiB, when the
/// body was larger than the chunk; `None` to keep it.
pub fn grown_chunk_size(chunk: usize, body_len: usize) -> (r: Option<usize>)
    ensures
        r is Some <==> body_len > chunk,
        r matches Some(c) ==> c == (if 2 * chunk < MAX_CHUNK_SIZE { 2 * chunk } else {
            MAX_CHUNK_SIZE as int
        }),
{
    if body_len > chunk {
        if chunk >= MAX_CHUNK_SIZE / 2 {
            Some(MAX_CHUNK_SIZE)
        } else {
            Some(chunk * 2)
        }
    } else {
        None
    }
}

/// The end offsets of the reads that fill a frame of `total` bytes after
/// its prefix, `chunk` bytes at a time: strictly increasing, each at most
/// `chunk` past the previous one (the first past the prefix), the last one
/// `total`.
pub fn chunk_ends(total: usize, chunk: usize) -> (r: Vec<usize>)
    requires
        LEN_PREFIX_BYTES <= total,
        chunk > 0,
    ensures
        total == LEN_PREFIX_BYTES <==> r@.len() == 0,
        r@.len() > 0 ==> r@.last() == total,
        forall|i: int|
            0 <= i < r@.len() ==> {
                let start = if i == 0 { LEN_PREFIX_BYTES as int } else { r@[i - 1] as int };
                start < #[trigger] r@[i] <= start + chunk && (r@[i] < total ==> r@[i] == start
                    + chunk)
            },
{
    let mut ends: Vec<usize> = Vec::new();
    let mut pos: usize = LEN_PREFIX_BYTES;
    while pos < total
        invariant
            LEN_PREFIX_BYTES <= pos <= total,
            chunk > 0,
            ends@.len() == 0 <==> pos == LEN_PREFIX_BYTES,
            ends@.len() > 0 ==> ends@.last() == pos,
            forall|i: int|
                0 <= i < ends@.len() ==> {
                    let start = if i == 0 { LEN_PREFIX_BYTES as int } else { ends@[i - 1] as int };
                    start < #[trigger] ends@[i] <= start + chunk && (ends@[i] < total ==> ends@[i]
                        == start + chunk)
                },
        decreases total - pos,
    {
        let end = if total - pos <= chunk {
            total
        } else {
            pos + chunk
        };
        ends.push(end);
        pos = end;
    }
    ends
}

/// Progress of one frame's write: bytes written so far and consecutive
/// zero-byte writes.
#[derive(Debug, Clone, Copy, PartialEq, Eq, Structural)]
pub struct WriteProgress {
    pub pos: usize,
    pub zero_writes: usize,
}

/// The progress after a write of `n` bytes: a zero-byte write counts, and
/// the third in a row means the connection is dead; any other write moves
/// on and resets the count.
pub fn after_write(p: WriteProgress, n: usize, len: usize) -> (r: Result<WriteProgress, GatewayDError>)
    requires
        p.pos + n <= len,
        p.zero_writes < MAX_ZERO_WRITES,
    ensures
        r is Err <==> n == 0 && p.zero_writes + 1 >= MAX_ZERO_WRITES,
        r matches Ok(q) ==> (if n == 0 {
            q.pos == p.pos && q.zero_writes == p.zero_writes + 1
        } else {
            q.pos == p.pos + n && q.zero_writes == 0
        }),
        r matches Err(e) ==> e.code == ErrCode::ConnectionLost && e.message@
            == "repeated zero-byte writes"@ && e.source is None,
{
    if n == 0 {
        let z = p.zero_writes + 1;
        if z >= MAX_ZERO_WRITES {
            Err(GatewayDError::new(ErrCode::ConnectionLost, "repeated zero-byte writes"))
        } else {
            Ok(WriteProgress { pos: p.pos, zero_writes: z })
        }
    } else {
        Ok(WriteProgress { pos: p.pos + n, zero_writes: 0 })
    }
}


/// The ways the transport fails.
#[derive(Debug, Clone, Copy, PartialEq, Eq, Structural)]
pub enum TransportFailure {
    /// An operation on a connection that is not up.
    NotConnected,
    /// The writing half of the socket is gone.
    WriteHalfGone,
    /// The reading half of the socket is gone.
    ReadHalfGone,
    /// A write did not finish within the send timeout.
    SendTimeout,
    /// A write failed.
    WriteError,
    /// No frame started within the receive timeout (the connection may be
    /// fine).
    IdleTimeout,
    /// Reading a length prefix failed.
    ReadPrefixError,
    /// A frame's body did not arrive within the receive timeout.
    BodyTimeout,
    /// Reading a frame's body failed.
    ReadBodyError,
    /// Re-dialling did not finish within the dial timeout.
    ReconnectTimeout,
    /// Re-dialling failed.
    ReconnectFailed,
}

/// The code of a transport failure.
pub open spec fn transport_failure_code(f: TransportFailure) -> ErrCode {
    match f {
        TransportFailure::NotConnected => ErrCode::ClientNotConnected,
        TransportFailure::WriteHalfGone => ErrCode::ClientNotConnected,
        TransportFailure::ReadHalfGone => ErrCode::ClientNotConnected,
        TransportFailure::IdleTimeout => ErrCode::ReceiveIdleTimeout,
        TransportFailure::ReconnectTimeout => ErrCode::ClientReconnectFailed,
        TransportFailure::ReconnectFailed => ErrCode::ClientReconnectFailed,
        _ => ErrCode::ConnectionLost,
    }
}

/// The message of a transport failure.
pub open spec fn transport_failure_text(f: TransportFailure) -> Seq<char> {
    match f {
        TransportFailure::NotConnected => "client is not connected"@,
        TransportFailure::WriteHalfGone => "write half is gone"@,
        TransportFailure::ReadHalfGone => "read half is gone"@,
        TransportFailure::SendTimeout => "send timeout"@,
        TransportFailure::WriteError => "write error"@,
        TransportFailure::IdleTimeout => "receive idle timeout (prefix)"@,
        TransportFailure::ReadPrefixError => "read prefix error"@,
        TransportFailure::BodyTimeout => "receive timeout mid-frame (body)"@,
        TransportFailure::ReadBodyError => "read body error"@,
        TransportFailure::ReconnectTimeout => "reconnect timeout"@,
        TransportFailure::ReconnectFailed => "reconnect failed"@,
    }
}

/// The error reported for a transport failure, with its I/O cause if any.
pub fn transport_failure(f: TransportFailure, cause: Option<ErrorSource>) -> (r: GatewayDError)
    ensures
        r.code == transport_failure_code(f),
        r.message@ == transport_failure_text(f),
        r.source == cause,
{
    let (code, text) = match f {
        TransportFailure::NotConnected => (ErrCode::ClientNotConnected, "client is not connected"),
        TransportFailure::WriteHalfGone => (ErrCode::ClientNotConnected, "write half is gone"),
        TransportFailure::ReadHalfGone => (ErrCode::ClientNotConnected, "read half is gone"),
        TransportFailure::SendTimeout => (ErrCode::ConnectionLost, "send timeout"),
        TransportFailure::WriteError => (ErrCode::ConnectionLost, "write error"),
        TransportFailure::IdleTimeout => (ErrCode::ReceiveIdleTimeout, "receive idle timeout (prefix)"),
        TransportFailure::ReadPrefixError => (ErrCode::ConnectionLost, "read prefix error"),
        TransportFailure::BodyTimeout => (ErrCode::ConnectionLost, "receive timeout mid-frame (body)"),
        TransportFailure::ReadBodyError => (ErrCode::ConnectionLost, "read body error"),
        TransportFailure::ReconnectTimeout => (ErrCode::ClientReconnectFailed, "reconnect timeout"),
        TransportFailure::ReconnectFailed => (ErrCode::ClientReconnectFailed, "reconnect failed"),
    };
    GatewayDError { code, message: text.to_owned(), source: cause }
}

/// The error for a dial of `addr` that timed out (`dial timeout: <addr>`)
/// or failed (`dial failed: <addr>`, with its cause).
pub fn dial_failure(addr: &str, cause: Option<ErrorSource>) -> (r: GatewayDError)
    ensures
        r.code == ErrCode::ClientDialFailed,
        r.message@ == (if cause is None { "dial timeout: "@ } else { "dial failed: "@ }) + addr@,
        r.source == cause,
{
    let mut m = if cause.is_none() {
        chars_of("dial timeout: ")
    } else {
        chars_of("dial failed: ")
    };
    append_str(&mut m, addr);
    GatewayDError { code: ErrCode::ClientDialFailed, message: string_from_chars(m.as_slice()), source: cause }
}

} // verus!
