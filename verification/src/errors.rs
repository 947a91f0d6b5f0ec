//! Gateway-level errors: a numeric code, a description, and the cause.

use vstd::prelude::*;

use crate::text::{append_str, chars_of, dec_digits, push_dec_digits, string_from_chars};

verus! {

/// Numeric error codes for gateway-level errors.
///
/// `ConnectionLost` is a fatal, unrecoverable-on-this-socket condition (hard
/// I/O error, mid-frame read timeout, or framing desync): the transport is
/// marked disconnected and the caller should reconnect and retry.
/// `ReceiveIdleTimeout` is a benign idle read timeout: no frame bytes were
/// pending, so the connection is still considered healthy.
#[derive(Debug, Clone, Copy, PartialEq, Eq, Hash, Structural)]
pub enum ErrCode {
    Unknown,
    ClientReceiveFailed,
    ClientSendFailed,
    ClientNotConnected,
    ClientConnectionFailed,
    ClientDialFailed,
    ClientCloseFailed,
    ClientReconnectFailed,
    ResolveFailed,
    PoolExhausted,
    PoolConnectionFailed,
    PoolInitializationFailed,
    RetryFailed,
    RetriesExhausted,
    NilPointer,
    ValidationFailed,
    AuthenticationFailed,
    NotAuthenticated,
    GatewayError,
    GatewayTimeout,
    GatewayDisconnected,
    InvalidMessage,
    InvalidAddress,
    InvalidConfig,
    InvalidResponse,
    InvalidIntent,
    InvalidPayload,
    InvalidHeader,
    InvalidLength,
    InvalidNetwork,
    SerializationFailed,
    DeserializationFailed,
    CompressionFailed,
    DecompressionFailed,
    EncryptionFailed,
    DecryptionFailed,
    SignatureFailed,
    VerificationFailed,
    NotFound,
    AlreadyExists,
    PermissionDenied,
    QuotaExceeded,
    RateLimitExceeded,
    Unavailable,
    Unimplemented,
    InternalError,
    DataCorruption,
    StorageFailed,
    NetworkFailed,
    NoLoadBalancerRules,
    ConnectionLost,
    ReceiveIdleTimeout,
}

/// The number of each code.
pub open spec fn err_code_number(c: ErrCode) -> u32 {
    match c {
        ErrCode::Unknown => 0,
        ErrCode::ClientReceiveFailed => 1,
        ErrCode::ClientSendFailed => 2,
        ErrCode::ClientNotConnected => 3,
        ErrCode::ClientConnectionFailed => 4,
        ErrCode::ClientDialFailed => 5,
        ErrCode::ClientCloseFailed => 6,
        ErrCode::ClientReconnectFailed => 7,
        ErrCode::ResolveFailed => 8,
        ErrCode::PoolExhausted => 9,
        ErrCode::PoolConnectionFailed => 10,
        ErrCode::PoolInitializationFailed => 11,
        ErrCode::RetryFailed => 12,
        ErrCode::RetriesExhausted => 13,
        ErrCode::NilPointer => 14,
        ErrCode::ValidationFailed => 15,
        ErrCode::AuthenticationFailed => 16,
        ErrCode::NotAuthenticated => 17,
        ErrCode::GatewayError => 18,
        ErrCode::GatewayTimeout => 19,
        ErrCode::GatewayDisconnected => 20,
        ErrCode::InvalidMessage => 21,
        ErrCode::InvalidAddress => 22,
        ErrCode::InvalidConfig => 23,
        ErrCode::InvalidResponse => 24,
        ErrCode::InvalidIntent => 25,
        ErrCode::InvalidPayload => 26,
        ErrCode::InvalidHeader => 27,
        ErrCode::InvalidLength => 28,
        ErrCode::InvalidNetwork => 29,
        ErrCode::SerializationFailed => 30,
        ErrCode::DeserializationFailed => 31,
        ErrCode::CompressionFailed => 32,
        ErrCode::DecompressionFailed => 33,
        ErrCode::EncryptionFailed => 34,
        ErrCode::DecryptionFailed => 35,
        ErrCode::SignatureFailed => 36,
        ErrCode::VerificationFailed => 37,
        ErrCode::NotFound => 38,
        ErrCode::AlreadyExists => 39,
        ErrCode::PermissionDenied => 40,
        ErrCode::QuotaExceeded => 41,
        ErrCode::RateLimitExceeded => 42,
        ErrCode::Unavailable => 43,
        ErrCode::Unimplemented => 44,
        ErrCode::InternalError => 45,
        ErrCode::DataCorruption => 46,
        ErrCode::StorageFailed => 47,
        ErrCode::NetworkFailed => 48,
        ErrCode::NoLoadBalancerRules => 49,
        ErrCode::ConnectionLost => 50,
        ErrCode::ReceiveIdleTimeout => 51,
    }
}

/// The name of each code.
pub open spec fn err_code_name(c: ErrCode) -> Seq<char> {
    match c {
        ErrCode::Unknown => "Unknown"@,
        ErrCode::ClientReceiveFailed => "ClientReceiveFailed"@,
        ErrCode::ClientSendFailed => "ClientSendFailed"@,
        ErrCode::ClientNotConnected => "ClientNotConnected"@,
        ErrCode::ClientConnectionFailed => "ClientConnectionFailed"@,
        ErrCode::ClientDialFailed => "ClientDialFailed"@,
        ErrCode::ClientCloseFailed => "ClientCloseFailed"@,
        ErrCode::ClientReconnectFailed => "ClientReconnectFailed"@,
        ErrCode::ResolveFailed => "ResolveFailed"@,
        ErrCode::PoolExhausted => "PoolExhausted"@,
        ErrCode::PoolConnectionFailed => "PoolConnectionFailed"@,
        ErrCode::PoolInitializationFailed => "PoolInitializationFailed"@,
        ErrCode::RetryFailed => "RetryFailed"@,
        ErrCode::RetriesExhausted => "RetriesExhausted"@,
        ErrCode::NilPointer => "NilPointer"@,
        ErrCode::ValidationFailed => "ValidationFailed"@,
        ErrCode::AuthenticationFailed => "AuthenticationFailed"@,
        ErrCode::NotAuthenticated => "NotAuthenticated"@,
        ErrCode::GatewayError => "GatewayError"@,
        ErrCode::GatewayTimeout => "GatewayTimeout"@,
        ErrCode::GatewayDisconnected => "GatewayDisconnected"@,
        ErrCode::InvalidMessage => "InvalidMessage"@,
        ErrCode::InvalidAddress => "InvalidAddress"@,
        ErrCode::InvalidConfig => "InvalidConfig"@,
        ErrCode::InvalidResponse => "InvalidResponse"@,
        ErrCode::InvalidIntent => "InvalidIntent"@,
        ErrCode::InvalidPayload => "InvalidPayload"@,
        ErrCode::InvalidHeader => "InvalidHeader"@,
        ErrCode::InvalidLength => "InvalidLength"@,
        ErrCode::InvalidNetwork => "InvalidNetwork"@,
        ErrCode::SerializationFailed => "SerializationFailed"@,
        ErrCode::DeserializationFailed => "DeserializationFailed"@,
        ErrCode::CompressionFailed => "CompressionFailed"@,
        ErrCode::DecompressionFailed => "DecompressionFailed"@,
        ErrCode::EncryptionFailed => "EncryptionFailed"@,
        ErrCode::DecryptionFailed => "DecryptionFailed"@,
        ErrCode::SignatureFailed => "SignatureFailed"@,
        ErrCode::VerificationFailed => "VerificationFailed"@,
        ErrCode::NotFound => "NotFound"@,
        ErrCode::AlreadyExists => "AlreadyExists"@,
        ErrCode::PermissionDenied => "PermissionDenied"@,
        ErrCode::QuotaExceeded => "QuotaExceeded"@,
        ErrCode::RateLimitExceeded => "RateLimitExceeded"@,
        ErrCode::Unavailable => "Unavailable"@,
        ErrCode::Unimplemented => "Unimplemented"@,
        ErrCode::InternalError => "InternalError"@,
        ErrCode::DataCorruption => "DataCorruption"@,
        ErrCode::StorageFailed => "StorageFailed"@,
        ErrCode::NetworkFailed => "NetworkFailed"@,
        ErrCode::NoLoadBalancerRules => "NoLoadBalancerRules"@,
        ErrCode::ConnectionLost => "ConnectionLost"@,
        ErrCode::ReceiveIdleTimeout => "ReceiveIdleTimeout"@,
    }
}

/// `Name(number)`, as a code is displayed.
pub open spec fn err_code_text(c: ErrCode) -> Seq<char> {
    err_code_name(c) + "("@ + dec_digits(err_code_number(c) as nat) + ")"@
}

impl ErrCode {
    /// The number of the code.
    pub fn number(self) -> (r: u32)
        ensures
            r == err_code_number(self),
    {
        match self {
            ErrCode::Unknown => 0,
            ErrCode::ClientReceiveFailed => 1,
            ErrCode::ClientSendFailed => 2,
            ErrCode::ClientNotConnected => 3,
            ErrCode::ClientConnectionFailed => 4,
            ErrCode::ClientDialFailed => 5,
            ErrCode::ClientCloseFailed => 6,
            ErrCode::ClientReconnectFailed => 7,
            ErrCode::ResolveFailed => 8,
            ErrCode::PoolExhausted => 9,
            ErrCode::PoolConnectionFailed => 10,
            ErrCode::PoolInitializationFailed => 11,
            ErrCode::RetryFailed => 12,
            ErrCode::RetriesExhausted => 13,
            ErrCode::NilPointer => 14,
            ErrCode::ValidationFailed => 15,
            ErrCode::AuthenticationFailed => 16,
            ErrCode::NotAuthenticated => 17,
            ErrCode::GatewayError => 18,
            ErrCode::GatewayTimeout => 19,
            ErrCode::GatewayDisconnected => 20,
            ErrCode::InvalidMessage => 21,
            ErrCode::InvalidAddress => 22,
            ErrCode::InvalidConfig => 23,
            ErrCode::InvalidResponse => 24,
            ErrCode::InvalidIntent => 25,
            ErrCode::InvalidPayload => 26,
            ErrCode::InvalidHeader => 27,
            ErrCode::InvalidLength => 28,
            ErrCode::InvalidNetwork => 29,
            ErrCode::SerializationFailed => 30,
            ErrCode::DeserializationFailed => 31,
            ErrCode::CompressionFailed => 32,
            ErrCode::DecompressionFailed => 33,
            ErrCode::EncryptionFailed => 34,
            ErrCode::DecryptionFailed => 35,
            ErrCode::SignatureFailed => 36,
            ErrCode::VerificationFailed => 37,
            ErrCode::NotFound => 38,
            ErrCode::AlreadyExists => 39,
            ErrCode::PermissionDenied => 40,
            ErrCode::QuotaExceeded => 41,
            ErrCode::RateLimitExceeded => 42,
            ErrCode::Unavailable => 43,
            ErrCode::Unimplemented => 44,
            ErrCode::InternalError => 45,
            ErrCode::DataCorruption => 46,
            ErrCode::StorageFailed => 47,
            ErrCode::NetworkFailed => 48,
            ErrCode::NoLoadBalancerRules => 49,
            ErrCode::ConnectionLost => 50,
            ErrCode::ReceiveIdleTimeout => 51,
        }
    }

    /// The name of the code.
    pub fn name(self) -> (r: &'static str)
        ensures
            r@ == err_code_name(self),
    {
        match self {
            ErrCode::Unknown => "Unknown",
            ErrCode::ClientReceiveFailed => "ClientReceiveFailed",
            ErrCode::ClientSendFailed => "ClientSendFailed",
            ErrCode::ClientNotConnected => "ClientNotConnected",
            ErrCode::ClientConnectionFailed => "ClientConnectionFailed",
            ErrCode::ClientDialFailed => "ClientDialFailed",
            ErrCode::ClientCloseFailed => "ClientCloseFailed",
            ErrCode::ClientReconnectFailed => "ClientReconnectFailed",
            ErrCode::ResolveFailed => "ResolveFailed",
            ErrCode::PoolExhausted => "PoolExhausted",
            ErrCode::PoolConnectionFailed => "PoolConnectionFailed",
            ErrCode::PoolInitializationFailed => "PoolInitializationFailed",
            ErrCode::RetryFailed => "RetryFailed",
            ErrCode::RetriesExhausted => "RetriesExhausted",
            ErrCode::NilPointer => "NilPointer",
            ErrCode::ValidationFailed => "ValidationFailed",
            ErrCode::AuthenticationFailed => "AuthenticationFailed",
            ErrCode::NotAuthenticated => "NotAuthenticated",
            ErrCode::GatewayError => "GatewayError",
            ErrCode::GatewayTimeout => "GatewayTimeout",
            ErrCode::GatewayDisconnected => "GatewayDisconnected",
            ErrCode::InvalidMessage => "InvalidMessage",
            ErrCode::InvalidAddress => "InvalidAddress",
            ErrCode::InvalidConfig => "InvalidConfig",
            ErrCode::InvalidResponse => "InvalidResponse",
            ErrCode::InvalidIntent => "InvalidIntent",
            ErrCode::InvalidPayload => "InvalidPayload",
            ErrCode::InvalidHeader => "InvalidHeader",
            ErrCode::InvalidLength => "InvalidLength",
            ErrCode::InvalidNetwork => "InvalidNetwork",
            ErrCode::SerializationFailed => "SerializationFailed",
            ErrCode::DeserializationFailed => "DeserializationFailed",
            ErrCode::CompressionFailed => "CompressionFailed",
            ErrCode::DecompressionFailed => "DecompressionFailed",
            ErrCode::EncryptionFailed => "EncryptionFailed",
            ErrCode::DecryptionFailed => "DecryptionFailed",
            ErrCode::SignatureFailed => "SignatureFailed",
            ErrCode::VerificationFailed => "VerificationFailed",
            ErrCode::NotFound => "NotFound",
            ErrCode::AlreadyExists => "AlreadyExists",
            ErrCode::PermissionDenied => "PermissionDenied",
            ErrCode::QuotaExceeded => "QuotaExceeded",
            ErrCode::RateLimitExceeded => "RateLimitExceeded",
            ErrCode::Unavailable => "Unavailable",
            ErrCode::Unimplemented => "Unimplemented",
            ErrCode::InternalError => "InternalError",
            ErrCode::DataCorruption => "DataCorruption",
            ErrCode::StorageFailed => "StorageFailed",
            ErrCode::NetworkFailed => "NetworkFailed",
            ErrCode::NoLoadBalancerRules => "NoLoadBalancerRules",
            ErrCode::ConnectionLost => "ConnectionLost",
            ErrCode::ReceiveIdleTimeout => "ReceiveIdleTimeout",
        }
    }

    /// `Name(number)`, as the code is displayed.
    pub fn describe(self) -> (r: String)
        ensures
            r@ == err_code_text(self),
    {
        let mut v = chars_of(self.name());
        append_str(&mut v, "(");
        push_dec_digits(&mut v, self.number() as u64);
        append_str(&mut v, ")");
        string_from_chars(v.as_slice())
    }
}

/// The kinds of I/O failure the library tells apart.
#[derive(Debug, Clone, Copy, PartialEq, Eq, Structural)]
pub enum IoErrorKind {
    TimedOut,
    ConnectionReset,
    ConnectionRefused,
    ConnectionAborted,
    BrokenPipe,
    UnexpectedEof,
    /// Any other I/O failure.
    Other,
}

/// The cause of an error: its text, and its kind when it is an I/O error.
#[derive(Debug, Clone)]
pub struct ErrorSource {
    pub io_kind: Option<IoErrorKind>,
    pub message: String,
}

/// Primary error type for all gateway operations.
#[derive(Debug)]
pub struct GatewayDError {
    pub code: ErrCode,
    pub message: String,
    pub source: Option<ErrorSource>,
}

/// Whether an I/O kind means the connection itself failed.
pub open spec fn is_connection_kind(k: IoErrorKind) -> bool {
    k == IoErrorKind::ConnectionReset || k == IoErrorKind::ConnectionRefused || k
        == IoErrorKind::ConnectionAborted || k == IoErrorKind::BrokenPipe || k
        == IoErrorKind::UnexpectedEof
}

impl GatewayDError {
    /// The I/O kind of the cause, if the cause is an I/O error.
    pub open spec fn spec_io_kind(&self) -> Option<IoErrorKind> {
        match self.source {
            Some(s) => s.io_kind,
            None => None,
        }
    }

    pub open spec fn spec_is_io_connection_error(&self) -> bool {
        self.spec_io_kind() matches Some(k) && is_connection_kind(k)
    }

    pub open spec fn spec_is_connection_lost(&self) -> bool {
        self.code == ErrCode::ConnectionLost || self.code == ErrCode::GatewayDisconnected
            || self.spec_is_io_connection_error()
    }

    pub fn new(code: ErrCode, message: &str) -> (r: Self)
        ensures
            r.code == code,
            r.message@ == message@,
            r.source is None,
    {
        Self { code, message: message.to_owned(), source: None }
    }

    pub fn wrap(code: ErrCode, message: &str, err: ErrorSource) -> (r: Self)
        ensures
            r.code == code,
            r.message@ == message@,
            r.source == Some(err),
    {
        Self { code, message: message.to_owned(), source: Some(err) }
    }

    pub fn with_source(self, err: ErrorSource) -> (r: Self)
        ensures
            r.code == self.code,
            r.message == self.message,
            r.source == Some(err),
    {
        Self { code: self.code, message: self.message, source: Some(err) }
    }

    /// Whether the cause is an I/O timeout.
    pub fn is_timeout(&self) -> (r: bool)
        ensures
            r == (self.spec_io_kind() == Some(IoErrorKind::TimedOut)),
    {
        match &self.source {
            Some(s) => match s.io_kind {
                Some(IoErrorKind::TimedOut) => true,
                _ => false,
            },
            None => false,
        }
    }

    /// Whether this is a fatal connection-lost error (the socket is dead and
    /// must be reconnected): the `ConnectionLost` or `GatewayDisconnected`
    /// codes, or a cause that is a connection-class I/O error.
    pub fn is_connection_lost(&self) -> (r: bool)
        ensures
            r == self.spec_is_connection_lost(),
    {
        match self.code {
            ErrCode::ConnectionLost | ErrCode::GatewayDisconnected => true,
            _ => self.is_io_connection_error(),
        }
    }

    /// Whether this is a benign idle receive timeout (connection still healthy).
    pub fn is_idle_timeout(&self) -> (r: bool)
        ensures
            r == (self.code == ErrCode::ReceiveIdleTimeout),
    {
        self.code == ErrCode::ReceiveIdleTimeout
    }

    /// Whether the cause is a connection-class I/O error.
    pub fn is_io_connection_error(&self) -> (r: bool)
        ensures
            r == self.spec_is_io_connection_error(),
    {
        match &self.source {
            Some(s) => match s.io_kind {
                Some(k) => match k {
                    IoErrorKind::ConnectionReset | IoErrorKind::ConnectionRefused
                    | IoErrorKind::ConnectionAborted | IoErrorKind::BrokenPipe
                    | IoErrorKind::UnexpectedEof => true,
                    _ => false,
                },
                None => false,
            },
            None => false,
        }
    }

    /// `GatewayDError[Name(number)]: message`, as the error is displayed.
    pub fn describe(&self) -> (r: String)
        ensures
            r@ == "GatewayDError["@ + err_code_text(self.code) + "]: "@ + self.message@,
    {
        let mut v = chars_of("GatewayDError[");
        append_str(&mut v, self.code.describe().as_str());
        append_str(&mut v, "]: ");
        append_str(&mut v, self.message.as_str());
        string_from_chars(v.as_slice())
    }
}

} // verus!
