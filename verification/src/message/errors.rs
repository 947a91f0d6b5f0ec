//! Error values for message-level encode / decode failures.

use vstd::prelude::*;

verus! {

/// Error codes for message-level encode / decode failures.
#[derive(Debug, Clone, Copy, PartialEq, Eq, Structural)]
pub enum MsgErrCode {
    // Decode errors (1000+)
    DecodeMessageTooShort,
    DecodeInvalidSizeParam,
    DecodeInvalidHeader,
    DecodeInvalidMessageType,
    DecodeInvalidDataType,
    DecodePayloadTooLarge,
    DecodeHeaderTransformFailed,
    // Encode errors (1007+)
    EncodeNilMessage,
    EncodePayloadTooLarge,
    EncodeInvalidData,
    EncodeInvalidFromAddress,
    EncodeInvalidGatewayName,
    EncodeInvalidActorName,
    EncodeInvalidDomainName,
    EncodeInvalidToAddress,
}

/// The numeric value of each code.
pub open spec fn msg_err_code_number(c: MsgErrCode) -> u32 {
    match c {
        MsgErrCode::DecodeMessageTooShort => 1000,
        MsgErrCode::DecodeInvalidSizeParam => 1001,
        MsgErrCode::DecodeInvalidHeader => 1002,
        MsgErrCode::DecodeInvalidMessageType => 1003,
        MsgErrCode::DecodeInvalidDataType => 1004,
        MsgErrCode::DecodePayloadTooLarge => 1005,
        MsgErrCode::DecodeHeaderTransformFailed => 1006,
        MsgErrCode::EncodeNilMessage => 1007,
        MsgErrCode::EncodePayloadTooLarge => 1008,
        MsgErrCode::EncodeInvalidData => 1009,
        MsgErrCode::EncodeInvalidFromAddress => 1010,
        MsgErrCode::EncodeInvalidGatewayName => 1011,
        MsgErrCode::EncodeInvalidActorName => 1012,
        MsgErrCode::EncodeInvalidDomainName => 1013,
        MsgErrCode::EncodeInvalidToAddress => 1014,
    }
}

/// The name of each code.
pub open spec fn msg_err_code_name(c: MsgErrCode) -> Seq<char> {
    match c {
        MsgErrCode::DecodeMessageTooShort => "DecodeMessageTooShort"@,
        MsgErrCode::DecodeInvalidSizeParam => "DecodeInvalidSizeParam"@,
        MsgErrCode::DecodeInvalidHeader => "DecodeInvalidHeader"@,
        MsgErrCode::DecodeInvalidMessageType => "DecodeInvalidMessageType"@,
        MsgErrCode::DecodeInvalidDataType => "DecodeInvalidDataType"@,
        MsgErrCode::DecodePayloadTooLarge => "DecodePayloadTooLarge"@,
        MsgErrCode::DecodeHeaderTransformFailed => "DecodeHeaderTransformFailed"@,
        MsgErrCode::EncodeNilMessage => "EncodeNilMessage"@,
        MsgErrCode::EncodePayloadTooLarge => "EncodePayloadTooLarge"@,
        MsgErrCode::EncodeInvalidData => "EncodeInvalidData"@,
        MsgErrCode::EncodeInvalidFromAddress => "EncodeInvalidFromAddress"@,
        MsgErrCode::EncodeInvalidGatewayName => "EncodeInvalidGatewayName"@,
        MsgErrCode::EncodeInvalidActorName => "EncodeInvalidActorName"@,
        MsgErrCode::EncodeInvalidDomainName => "EncodeInvalidDomainName"@,
        MsgErrCode::EncodeInvalidToAddress => "EncodeInvalidToAddress"@,
    }
}

impl MsgErrCode {
    /// The name of the code.
    pub fn name(self) -> (r: &'static str)
        ensures
            r@ == msg_err_code_name(self),
    {
        match self {
            MsgErrCode::DecodeMessageTooShort => "DecodeMessageTooShort",
            MsgErrCode::DecodeInvalidSizeParam => "DecodeInvalidSizeParam",
            MsgErrCode::DecodeInvalidHeader => "DecodeInvalidHeader",
            MsgErrCode::DecodeInvalidMessageType => "DecodeInvalidMessageType",
            MsgErrCode::DecodeInvalidDataType => "DecodeInvalidDataType",
            MsgErrCode::DecodePayloadTooLarge => "DecodePayloadTooLarge",
            MsgErrCode::DecodeHeaderTransformFailed => "DecodeHeaderTransformFailed",
            MsgErrCode::EncodeNilMessage => "EncodeNilMessage",
            MsgErrCode::EncodePayloadTooLarge => "EncodePayloadTooLarge",
            MsgErrCode::EncodeInvalidData => "EncodeInvalidData",
            MsgErrCode::EncodeInvalidFromAddress => "EncodeInvalidFromAddress",
            MsgErrCode::EncodeInvalidGatewayName => "EncodeInvalidGatewayName",
            MsgErrCode::EncodeInvalidActorName => "EncodeInvalidActorName",
            MsgErrCode::EncodeInvalidDomainName => "EncodeInvalidDomainName",
            MsgErrCode::EncodeInvalidToAddress => "EncodeInvalidToAddress",
        }
    }

    /// The numeric value of the code.
    pub fn number(self) -> (r: u32)
        ensures
            r == msg_err_code_number(self),
    {
        match self {
            MsgErrCode::DecodeMessageTooShort => 1000,
            MsgErrCode::DecodeInvalidSizeParam => 1001,
            MsgErrCode::DecodeInvalidHeader => 1002,
            MsgErrCode::DecodeInvalidMessageType => 1003,
            MsgErrCode::DecodeInvalidDataType => 1004,
            MsgErrCode::DecodePayloadTooLarge => 1005,
            MsgErrCode::DecodeHeaderTransformFailed => 1006,
            MsgErrCode::EncodeNilMessage => 1007,
            MsgErrCode::EncodePayloadTooLarge => 1008,
            MsgErrCode::EncodeInvalidData => 1009,
            MsgErrCode::EncodeInvalidFromAddress => 1010,
            MsgErrCode::EncodeInvalidGatewayName => 1011,
            MsgErrCode::EncodeInvalidActorName => 1012,
            MsgErrCode::EncodeInvalidDomainName => 1013,
            MsgErrCode::EncodeInvalidToAddress => 1014,
        }
    }
}

/// A decode failure: its code, a description, the field concerned and the
/// text of an underlying error.
#[derive(Debug)]
pub struct DecodeError {
    pub code: MsgErrCode,
    pub message: String,
    pub field: Option<String>,
    pub source: Option<String>,
}

impl DecodeError {
    pub fn new(code: MsgErrCode, message: &str) -> (r: Self)
        ensures
            r.code == code,
            r.message@ == message@,
            r.field is None,
            r.source is None,
    {
        Self { code, message: message.to_owned(), field: None, source: None }
    }

    pub fn with_field(self, field: &str) -> (r: Self)
        ensures
            r.code == self.code,
            r.message == self.message,
            r.field matches Some(f) && f@ == field@,
            r.source == self.source,
    {
        Self { code: self.code, message: self.message, field: Some(field.to_owned()), source: self.source }
    }

    pub fn wrap(code: MsgErrCode, message: &str, source: &str) -> (r: Self)
        ensures
            r.code == code,
            r.message@ == message@,
            r.field is None,
            r.source matches Some(s) && s@ == source@,
    {
        Self { code, message: message.to_owned(), field: None, source: Some(source.to_owned()) }
    }
}

/// An encode failure: its code, a description and the field concerned.
#[derive(Debug)]
pub struct EncodeError {
    pub code: MsgErrCode,
    pub message: String,
    pub field: Option<String>,
    pub source: Option<String>,
}

impl EncodeError {
    pub fn new(code: MsgErrCode, message: &str) -> (r: Self)
        ensures
            r.code == code,
            r.message@ == message@,
            r.field is None,
            r.source is None,
    {
        Self { code, message: message.to_owned(), field: None, source: None }
    }

    pub fn with_field(self, field: &str) -> (r: Self)
        ensures
            r.code == self.code,
            r.message == self.message,
            r.field matches Some(f) && f@ == field@,
            r.source == self.source,
    {
        Self { code: self.code, message: self.message, field: Some(field.to_owned()), source: self.source }
    }
}

} // verus!
