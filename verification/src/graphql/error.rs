//! The ways in which a request can fail, and what a target's answer is taken
//! for before its payload is read.

use crate::json::RawJson;
use crate::misc::{CompressError, DecompressError};
use vstd::prelude::*;

verus! {

/// What `{:?}` writes for an optional payload.
pub uninterp spec fn debug_text(payload: Option<Seq<u8>>) -> Seq<char>;

/// Why a request gave no data.
#[derive(Debug, PartialEq, Eq)]
pub enum GraphQLError {
    /// The request could not be encoded.
    EncodingError(CompressError),
    /// The target could not be invoked; the text is the invoker's.
    TransportError(String),
    /// The target ran and raised a fault of its own.
    RemoteFunctionError(String),
    /// The invocation answered with a status other than success.
    BadStatusCode { code: Option<i64>, payload: String },
    /// The invocation succeeded and brought no payload.
    NoResponsePayload,
    /// The payload is not gzip, or what it holds is not JSON.
    DecodeError(DecompressError),
    /// The payload is JSON of another shape than the protocol's.
    MalformedResponse,
    /// The query ran and returned errors, held here as JSON.
    RemoteGraphQLError(RawJson),
}

/// An error, with its texts as sequences of characters.
pub enum GraphQLErrorView {
    EncodingError(CompressError),
    TransportError(Seq<char>),
    RemoteFunctionError(Seq<char>),
    BadStatusCode { code: Option<i64>, payload: Seq<char> },
    NoResponsePayload,
    DecodeError(DecompressError),
    MalformedResponse,
    RemoteGraphQLError(Seq<char>),
}

impl View for GraphQLError {
    type V = GraphQLErrorView;

    open spec fn view(&self) -> GraphQLErrorView {
        match self {
            GraphQLError::EncodingError(e) => GraphQLErrorView::EncodingError(*e),
            GraphQLError::TransportError(m) => GraphQLErrorView::TransportError(m@),
            GraphQLError::RemoteFunctionError(m) => GraphQLErrorView::RemoteFunctionError(m@),
            GraphQLError::BadStatusCode { code, payload } => GraphQLErrorView::BadStatusCode {
                code: *code,
                payload: payload@,
            },
            GraphQLError::NoResponsePayload => GraphQLErrorView::NoResponsePayload,
            GraphQLError::DecodeError(e) => GraphQLErrorView::DecodeError(*e),
            GraphQLError::MalformedResponse => GraphQLErrorView::MalformedResponse,
            GraphQLError::RemoteGraphQLError(errors) => GraphQLErrorView::RemoteGraphQLError(
                errors@,
            ),
        }
    }
}

/// What an invocation of a target came back with.
#[derive(Debug)]
pub struct RawInvocationResult {
    /// The fault that the target raised, if it raised one.
    pub function_error: Option<String>,
    /// The status of the invocation; 200 is success.
    pub status_code: Option<i64>,
    /// What the target returned.
    pub payload: Option<Vec<u8>>,
}

/// The status that an invocation succeeds with.
pub const STATUS_OK: i64 = 200;

/// What an invocation result holds.
pub struct RawInvocationResultView {
    pub function_error: Option<Seq<char>>,
    pub status_code: Option<i64>,
    pub payload: Option<Seq<u8>>,
}

impl View for RawInvocationResult {
    type V = RawInvocationResultView;

    open spec fn view(&self) -> RawInvocationResultView {
        RawInvocationResultView {
            function_error: match self.function_error {
                Some(text) => Some(text@),
                None => None,
            },
            status_code: self.status_code,
            payload: payload_view(self.payload),
        }
    }
}

/// The bytes of an optional payload.
pub open spec fn payload_view(payload: Option<Vec<u8>>) -> Option<Seq<u8>> {
    match payload {
        Some(bytes) => Some(bytes@),
        None => None,
    }
}

/// The view of what an attempt to invoke came to: a result, or the text of
/// the failure to invoke.
pub open spec fn outcome_view(outcome: Result<RawInvocationResult, String>) -> Result<
    RawInvocationResultView,
    Seq<char>,
> {
    match outcome {
        Ok(result) => Ok(result@),
        Err(text) => Err(text@),
    }
}

/// The payload that an invocation result yields. A fault of the target comes
/// first, then a status other than success, then a missing payload.
pub open spec fn invocation_payload(result: RawInvocationResultView) -> Result<
    Seq<u8>,
    GraphQLErrorView,
> {
    match result.function_error {
        Some(fault) => Err(GraphQLErrorView::RemoteFunctionError(fault)),
        None => if result.status_code != Some(STATUS_OK) {
            Err(
                GraphQLErrorView::BadStatusCode {
                    code: result.status_code,
                    payload: debug_text(result.payload),
                },
            )
        } else {
            match result.payload {
                Some(bytes) => Ok(bytes),
                None => Err(GraphQLErrorView::NoResponsePayload),
            }
        },
    }
}

/// The payload that an attempt to invoke yields: a failure to invoke is a
/// transport error with the failure's text.
pub open spec fn outcome_payload(outcome: Result<RawInvocationResultView, Seq<char>>) -> Result<
    Seq<u8>,
    GraphQLErrorView,
> {
    match outcome {
        Ok(result) => invocation_payload(result),
        Err(text) => Err(GraphQLErrorView::TransportError(text)),
    }
}

/// Where the target raised no fault, a status other than success gives
/// `BadStatusCode` with that status, whatever the payload holds and whether
/// or not there is one.
pub proof fn lemma_bad_status_whatever_the_payload(
    status_code: Option<i64>,
    payload: Option<Seq<u8>>,
)
    requires
        status_code != Some(STATUS_OK),
    ensures
        invocation_payload(RawInvocationResultView { function_error: None, status_code, payload })
            == Err::<Seq<u8>, GraphQLErrorView>(
            GraphQLErrorView::BadStatusCode { code: status_code, payload: debug_text(payload) },
        ),
{
}

/// Takes the payload out of an invocation result, or says why there is
/// none to read.
pub fn response_payload(result: RawInvocationResult) -> (res: Result<Vec<u8>, GraphQLError>)
    ensures
        match invocation_payload(result@) {
            Ok(bytes) => res matches Ok(out) && out@ == bytes,
            Err(e) => res matches Err(r) && r@ == e,
        },
{
    if let Some(fault) = result.function_error {
        return Err(GraphQLError::RemoteFunctionError(fault));
    }
    let success = match result.status_code {
        Some(code) => code == STATUS_OK,
        None => false,
    };
    if !success {
        return Err(
            GraphQLError::BadStatusCode {
                code: result.status_code,
                payload: debug_payload(&result.payload),
            },
        );
    }
    match result.payload {
        Some(bytes) => Ok(bytes),
        None => Err(GraphQLError::NoResponsePayload),
    }
}

/// Takes the payload out of what an attempt to invoke came to.
pub fn outcome_to_payload(outcome: Result<RawInvocationResult, String>) -> (res: Result<
    Vec<u8>,
    GraphQLError,
>)
    ensures
        match outcome_payload(outcome_view(outcome)) {
            Ok(bytes) => res matches Ok(out) && out@ == bytes,
            Err(e) => res matches Err(r) && r@ == e,
        },
{
    match outcome {
        Ok(result) => response_payload(result),
        Err(text) => Err(GraphQLError::TransportError(text)),
    }
}

/// Formats an optional payload with `{:?}`. Believed: the text depends on the
/// payload alone.
#[verifier::external_body]
fn debug_payload(payload: &Option<Vec<u8>>) -> (res: String)
    ensures
        res@ == debug_text(payload_view(*payload)),
{
    format!("{:?}", payload)
}

} // verus!
