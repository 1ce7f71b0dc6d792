//! The closed taxonomy of classified probe failures and their human-readable
//! messages.
use vstd::prelude::*;
use vstd::string::StringExecFns;
use crate::decimal::{dec_digits, decimal_string};

verus! {

/// Classified cause of one failed probe attempt.
///
/// Transport failures occur before any HTTP response is obtained; protocol
/// failures occur after a response arrives but before a usable result is
/// extracted. Every variant is attempt-local: none aborts the surrounding
/// aggregation.
#[derive(Debug)]
pub enum PingError {
    /// The per-attempt deadline elapsed before a response was received.
    TransportTimeout,
    /// The send or connect operation failed for any other transport reason.
    TransportConnection,
    /// An HTTP response arrived with a non-2xx status code.
    ProtocolHttpStatus(u16),
    /// The response body could not be decoded as a JSON-RPC envelope.
    ProtocolDecode,
    /// The envelope carried a non-null `error` member; the payload is that
    /// member's JSON text.
    ProtocolRpcError(String),
    /// The envelope carried neither a `result` nor an `error` member.
    ProtocolMissingResult,
}

/// Specification-level image of a `PingError`, carrying the RPC error text
/// as a character sequence.
pub enum ErrorModel {
    TransportTimeout,
    TransportConnection,
    ProtocolHttpStatus(u16),
    ProtocolDecode,
    ProtocolRpcError(Seq<char>),
    ProtocolMissingResult,
}

impl View for PingError {
    type V = ErrorModel;

    open spec fn view(&self) -> ErrorModel {
        match self {
            PingError::TransportTimeout => ErrorModel::TransportTimeout,
            PingError::TransportConnection => ErrorModel::TransportConnection,
            PingError::ProtocolHttpStatus(code) => ErrorModel::ProtocolHttpStatus(*code),
            PingError::ProtocolDecode => ErrorModel::ProtocolDecode,
            PingError::ProtocolRpcError(text) => ErrorModel::ProtocolRpcError(text@),
            PingError::ProtocolMissingResult => ErrorModel::ProtocolMissingResult,
        }
    }
}

/// The human-readable description of a classified failure, as recorded in an
/// endpoint summary: the timeout, connection and HTTP-status causes are each
/// distinguishable, and the remaining causes fall back to their own message.
pub open spec fn message_of(e: ErrorModel) -> Seq<char> {
    match e {
        ErrorModel::TransportTimeout => "Request timed out"@,
        ErrorModel::TransportConnection => "Connection failed"@,
        ErrorModel::ProtocolHttpStatus(code) => "HTTP Error: "@ + dec_digits(code as nat),
        ErrorModel::ProtocolDecode => "Failed to decode response body"@,
        ErrorModel::ProtocolRpcError(text) => "JSON-RPC error: "@ + text,
        ErrorModel::ProtocolMissingResult => "Missing 'result' field in response"@,
    }
}

impl PingError {
    /// Format this failure as the message recorded in an endpoint summary.
    pub fn message(&self) -> (r: String)
        ensures
            r@ == message_of(self@),
    {
        match self {
            PingError::TransportTimeout => "Request timed out".to_owned(),
            PingError::TransportConnection => "Connection failed".to_owned(),
            PingError::ProtocolHttpStatus(code) => {
                let mut s = "HTTP Error: ".to_owned();
                let digits = decimal_string(*code);
                s.append(digits.as_str());
                s
            }
            PingError::ProtocolDecode => "Failed to decode response body".to_owned(),
            PingError::ProtocolRpcError(text) => {
                let mut s = "JSON-RPC error: ".to_owned();
                s.append(text.as_str());
                s
            }
            PingError::ProtocolMissingResult => "Missing 'result' field in response".to_owned(),
        }
    }
}

} // verus!
