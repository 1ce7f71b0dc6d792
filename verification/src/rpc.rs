//! Classification of one JSON-RPC probe response: HTTP status first, then
//! the decoded envelope's `error` and `result` members.
use vstd::prelude::*;
use crate::error::{ErrorModel, PingError};

verus! {

/// Presence of the `error` member in a decoded JSON-RPC envelope.
#[derive(Debug)]
pub enum ErrorMember {
    /// No `error` member in the envelope.
    Absent,
    /// An `error` member whose value is JSON null.
    Null,
    /// A non-null `error` member, carried as its JSON text.
    Present(String),
}

/// A decoded JSON-RPC response envelope, reduced to what classification
/// reads: the `error` member and the `result` member.
#[derive(Debug)]
pub struct RpcEnvelope {
    /// The `error` member.
    pub error: ErrorMember,
    /// The `result` member's text when the member is present: the string
    /// content for a JSON string, otherwise its JSON text.
    pub result: Option<String>,
}

/// Specification-level image of the `error` member.
pub enum ErrorMemberModel {
    Absent,
    Null,
    Present(Seq<char>),
}

/// Specification-level image of a decoded envelope.
pub struct EnvelopeModel {
    pub error: ErrorMemberModel,
    pub result: Option<Seq<char>>,
}

impl View for ErrorMember {
    type V = ErrorMemberModel;

    open spec fn view(&self) -> ErrorMemberModel {
        match self {
            ErrorMember::Absent => ErrorMemberModel::Absent,
            ErrorMember::Null => ErrorMemberModel::Null,
            ErrorMember::Present(text) => ErrorMemberModel::Present(text@),
        }
    }
}

impl View for RpcEnvelope {
    type V = EnvelopeModel;

    open spec fn view(&self) -> EnvelopeModel {
        EnvelopeModel {
            error: self.error@,
            result: match self.result {
                Option::Some(text) => Option::Some(text@),
                Option::None => Option::None,
            },
        }
    }
}

/// Specification-level image of an optional decoded envelope.
pub open spec fn decoded_model(decoded: Option<RpcEnvelope>) -> Option<EnvelopeModel> {
    match decoded {
        Option::Some(env) => Option::Some(env@),
        Option::None => Option::None,
    }
}

/// What a response body decodes to: `None` when the body is not well-formed
/// JSON, otherwise the envelope's `error` and `result` members. The decoding
/// is a fixed function of the body text alone.
pub uninterp spec fn json_envelope(body: Seq<char>) -> Option<EnvelopeModel>;

/// Relies on `serde_json::from_str` and on `serde_json::Value`'s `get`,
/// `is_null`, `as_str` and `Display`: parses the body as JSON and reads the
/// `error` and `result` members of the top-level object.
#[verifier::external_body]
fn decode_envelope(body: &str) -> (r: Option<RpcEnvelope>)
    ensures
        match r {
            Option::Some(env) => json_envelope(body@) == Option::Some(env@),
            Option::None => json_envelope(body@) is None,
        },
{
    let v: serde_json::Value = match serde_json::from_str(body) {
        Ok(v) => v,
        Err(_) => return None,
    };
    let error = match v.get("error") {
        None => ErrorMember::Absent,
        Some(e) if e.is_null() => ErrorMember::Null,
        Some(e) => ErrorMember::Present(e.to_string()),
    };
    let result = match v.get("result") {
        None => None,
        Some(res) => match res.as_str() { Some(s) => Some(s.to_string()), None => Some(res.to_string()) },
    };
    Some(RpcEnvelope { error, result })
}

/// The outcome of one probe attempt at specification level: an extracted
/// result value or a classified failure.
pub enum OutcomeModel {
    Extracted(Seq<char>),
    Failed(ErrorModel),
}

/// Specification-level image of an attempt's `Result`.
pub open spec fn outcome_of(r: Result<String, PingError>) -> OutcomeModel {
    match r {
        Result::Ok(value) => OutcomeModel::Extracted(value@),
        Result::Err(e) => OutcomeModel::Failed(e@),
    }
}

/// Classification of a decoded envelope: an undecodable body is a decode
/// failure; otherwise a non-null `error` member takes precedence over any
/// `result` member; otherwise a present `result` member is a success; a
/// response carrying neither member is missing its result.
pub open spec fn envelope_outcome(decoded: Option<EnvelopeModel>) -> OutcomeModel {
    match decoded {
        Option::None => OutcomeModel::Failed(ErrorModel::ProtocolDecode),
        Option::Some(env) => match env.error {
            ErrorMemberModel::Present(text) => OutcomeModel::Failed(
                ErrorModel::ProtocolRpcError(text),
            ),
            _ => match env.result {
                Option::Some(value) => OutcomeModel::Extracted(value),
                Option::None => OutcomeModel::Failed(ErrorModel::ProtocolMissingResult),
            },
        },
    }
}

/// Whether an HTTP status code counts as success (2xx).
pub open spec fn is_success_status(status: u16) -> bool {
    200 <= status < 300
}

/// End-to-end classification of one HTTP response: a non-2xx status is a
/// protocol failure whatever the body holds; a 2xx response is classified by
/// its decoded envelope.
pub open spec fn response_outcome(status: u16, body: Seq<char>) -> OutcomeModel {
    if !is_success_status(status) {
        OutcomeModel::Failed(ErrorModel::ProtocolHttpStatus(status))
    } else {
        envelope_outcome(json_envelope(body))
    }
}

/// Classify a decoded envelope into an extracted result value or a
/// classified failure, checking the `error` member before the `result`
/// member.
pub fn classify_envelope(decoded: Option<RpcEnvelope>) -> (r: Result<String, PingError>)
    ensures
        outcome_of(r) == envelope_outcome(decoded_model(decoded)),
{
    match decoded {
        Option::None => Result::Err(PingError::ProtocolDecode),
        Option::Some(env) => match env.error {
            ErrorMember::Present(text) => Result::Err(PingError::ProtocolRpcError(text)),
            _ => match env.result {
                Option::Some(value) => Result::Ok(value),
                Option::None => Result::Err(PingError::ProtocolMissingResult),
            },
        },
    }
}

/// Classify one HTTP response: check the status code first, and only for a
/// 2xx status decode the body as a JSON-RPC envelope.
pub fn classify_response(status: u16, body: &str) -> (r: Result<String, PingError>)
    ensures
        outcome_of(r) == response_outcome(status, body@),
{
    if !(200 <= status && status < 300) {
        return Result::Err(PingError::ProtocolHttpStatus(status));
    }
    classify_envelope(decode_envelope(body))
}

/// An envelope whose `error` member is present and non-null is classified as
/// an RPC-error failure, never as a success, even when a `result` member is
/// also present.
pub proof fn lemma_error_takes_precedence(env: EnvelopeModel, text: Seq<char>)
    requires
        env.error == ErrorMemberModel::Present(text),
    ensures
        envelope_outcome(Option::Some(env)) == OutcomeModel::Failed(
            ErrorModel::ProtocolRpcError(text),
        ),
{
}

/// A response with a non-2xx HTTP status is classified as an HTTP-status
/// failure whatever the body holds: the body plays no part in the outcome.
pub proof fn lemma_status_short_circuit(status: u16, body: Seq<char>)
    requires
        !is_success_status(status),
    ensures
        response_outcome(status, body) == OutcomeModel::Failed(
            ErrorModel::ProtocolHttpStatus(status),
        ),
{
}

} // verus!
