//! Normalization of backend outcomes: every call to the backend ends in a
//! response to hand on, or in a protocol error.

use crate::text::{decimal, decimal_text};
use vstd::prelude::*;
use vstd::string::*;

verus! {

/// The protocol's code for an internal error.
pub const INTERNAL_ERROR: i32 = -32603;

/// The protocol's code for parameters that the caller got wrong.
pub const INVALID_PARAMS: i32 = -32602;

/// An error as the protocol reports it: a code and a message for the caller.
#[derive(Debug, Clone, PartialEq, Eq)]
pub struct ProtocolError {
    pub code: i32,
    pub message: String,
}

/// The response of the backend to one call: the HTTP status and the body.
#[derive(Debug, Clone, PartialEq, Eq)]
pub struct BackendResponse {
    pub status: u16,
    pub body: String,
}

/// How one call to the backend ended.
#[derive(Debug, Clone, PartialEq, Eq)]
pub enum CallOutcome {
    /// No response came: the backend could not be reached, or the exchange
    /// broke off. The text says why.
    TransportFailure(String),
    /// A response came.
    Response(BackendResponse),
}

/// The status says that the call succeeded.
pub open spec fn is_success(status: u16) -> bool {
    200 <= status < 300
}

/// The message of the error that a response with a failing status becomes:
/// it gives the status and relays the body.
pub open spec fn status_message(status: u16, body: Seq<char>) -> Seq<char> {
    "HTTP status "@ + decimal(status as nat) + ": "@ + body
}

/// `r` is the internal error with the message `message`.
pub open spec fn is_internal_error(r: ProtocolError, message: Seq<char>) -> bool {
    r.code == INTERNAL_ERROR && r.message@ == message
}

/// The error that `ErrorData::internal_error` of the protocol crate makes
/// of a message, without further data: it has the code for internal errors
/// and that message.
#[verifier::external_body]
fn protocol_internal_error(message: String) -> (r: ProtocolError)
    ensures
        is_internal_error(r, message@),
{
    let error = rmcp::Error::internal_error(message, None);
    ProtocolError { code: error.code.0, message: error.message.into_owned() }
}

/// The error that `ErrorData::invalid_params` of the protocol crate makes
/// of a message, without further data: it has the code for wrong parameters
/// and that message.
#[verifier::external_body]
fn protocol_invalid_params(message: String) -> (r: ProtocolError)
    ensures
        r.code == INVALID_PARAMS,
        r.message@ == message@,
{
    let error = rmcp::Error::invalid_params(message, None);
    ProtocolError { code: error.code.0, message: error.message.into_owned() }
}

/// Maps the message of any failure to an internal error of the protocol.
pub fn internal_error(message: String) -> (r: ProtocolError)
    ensures
        is_internal_error(r, message@),
{
    protocol_internal_error(message)
}

/// The error for a call that the caller can correct.
pub fn invalid_params(message: String) -> (r: ProtocolError)
    ensures
        r.code == INVALID_PARAMS,
        r.message@ == message@,
{
    protocol_invalid_params(message)
}

/// What an outcome is normalized to: the response where one came with a
/// status of success, else the message of an internal error.
pub open spec fn normalized(outcome: CallOutcome) -> Result<BackendResponse, Seq<char>> {
    match outcome {
        CallOutcome::TransportFailure(cause) => Err(cause@),
        CallOutcome::Response(response) => if is_success(response.status) {
            Ok(response)
        } else {
            Err(status_message(response.status, response.body@))
        },
    }
}

/// The error for a response with a failing status relays the body: its
/// message ends with it. The error for a transport failure has the cause
/// for its message, and nothing else.
pub proof fn lemma_failure_messages(response: BackendResponse, cause: String)
    requires
        !is_success(response.status),
    ensures
        normalized(CallOutcome::Response(response)) matches Err(message) && message.len()
            >= response.body@.len() && message.subrange(
            message.len() - response.body@.len(),
            message.len() as int,
        ) == response.body@,
        normalized(CallOutcome::TransportFailure(cause)) == Err::<BackendResponse, Seq<char>>(
            cause@,
        ),
{
    let message = status_message(response.status, response.body@);
    assert(message.subrange(message.len() - response.body@.len(), message.len() as int)
        =~= response.body@);
}

/// Hands on the response of a call that succeeded, and turns every other
/// outcome into an internal error: a transport failure into one with its
/// cause, a failing status into one with the status and the body.
pub fn handle_error(outcome: CallOutcome) -> (r: Result<BackendResponse, ProtocolError>)
    ensures
        match normalized(outcome) {
            Ok(response) => r == Ok::<BackendResponse, ProtocolError>(response),
            Err(message) => r is Err && is_internal_error(r->Err_0, message),
        },
{
    match outcome {
        CallOutcome::TransportFailure(cause) => Err(internal_error(cause)),
        CallOutcome::Response(response) => {
            if 200 <= response.status && response.status < 300 {
                Ok(response)
            } else {
                let mut message = "HTTP status ".to_owned();
                let digits = decimal_text(response.status);
                message.append(digits.as_str());
                message.append(": ");
                message.append(response.body.as_str());
                Err(internal_error(message))
            }
        },
    }
}

/// The body of a call that succeeded, as text.
pub fn read_text(outcome: CallOutcome) -> (r: Result<String, ProtocolError>)
    ensures
        match normalized(outcome) {
            Ok(response) => r == Ok::<String, ProtocolError>(response.body),
            Err(message) => r is Err && is_internal_error(r->Err_0, message),
        },
{
    match handle_error(outcome) {
        Ok(response) => Ok(response.body),
        Err(e) => Err(e),
    }
}

/// `r` is what reading a body gives once the decoder has said `decoded`:
/// the value, or an internal error with the decoder's message.
pub open spec fn is_decoded<T>(decoded: Result<T, String>, r: Result<T, ProtocolError>) -> bool {
    match decoded {
        Ok(value) => r == Ok::<T, ProtocolError>(value),
        Err(message) => r is Err && is_internal_error(r->Err_0, message@),
    }
}

/// The body of a call that succeeded, decoded by `decode`. The decoder is
/// asked only where a response came with a status of success; that it
/// rejects the body is an internal error like any other.
pub fn read_json<T, F: FnOnce(String) -> Result<T, String>>(outcome: CallOutcome, decode: F) -> (r:
    Result<T, ProtocolError>)
    requires
        normalized(outcome) matches Ok(response) ==> call_requires(decode, (response.body,)),
    ensures
        match normalized(outcome) {
            Ok(response) => exists|decoded: Result<T, String>|
                call_ensures(decode, (response.body,), decoded) && is_decoded(decoded, r),
            Err(message) => r is Err && is_internal_error(r->Err_0, message),
        },
{
    match handle_error(outcome) {
        Ok(response) => {
            let ghost body = response.body;
            let decoded = decode(response.body);
            let ghost witness = decoded;
            let r = match decoded {
                Ok(value) => Ok(value),
                Err(message) => Err(internal_error(message)),
            };
            assert(call_ensures(decode, (body,), witness) && is_decoded(witness, r));
            r
        },
        Err(e) => Err(e),
    }
}

} // verus!
