//! The gateway protocol: requests are plain JSON and name a user pool;
//! responses are a JSON object whose `body` is JSON text held in a string.

use crate::graphql::error::{
    outcome_payload, outcome_to_payload, outcome_view, GraphQLError, GraphQLErrorView,
    RawInvocationResult, RawInvocationResultView,
};
use crate::graphql::internal::result_view;
use crate::json::{
    find_present, json_document, json_fields, json_quoted, json_str, members, present, RawJson,
};
use crate::misc::DecompressError;
use vstd::prelude::*;
use vstd::string::{StrSliceExecFns, StringExecFns};

verus! {

/// A query for the gateway target.
#[derive(Debug)]
pub struct GatewayGraphQLRequestBody {
    /// The query, carried as it is.
    pub query: String,
    /// The variables of the query, carried as they are.
    pub variables: RawJson,
    /// The user pool in whose name the query is made.
    pub userpool_id: String,
}

/// What a gateway request holds.
pub struct GatewayGraphQLRequestBodyView {
    pub query: Seq<char>,
    pub variables: Seq<char>,
    pub userpool_id: Seq<char>,
}

impl View for GatewayGraphQLRequestBody {
    type V = GatewayGraphQLRequestBodyView;

    open spec fn view(&self) -> GatewayGraphQLRequestBodyView {
        GatewayGraphQLRequestBodyView {
            query: self.query@,
            variables: self.variables@,
            userpool_id: self.userpool_id@,
        }
    }
}

/// The JSON object that a gateway request is written as.
pub open spec fn gateway_text(request: GatewayGraphQLRequestBodyView) -> Seq<char> {
    "{\"query\":"@ + json_quoted(request.query) + ",\"variables\":"@ + request.variables
        + ",\"userPool\":"@ + json_quoted(request.userpool_id) + "}"@
}

/// The payload for a gateway request: its JSON object, as it is.
pub open spec fn encoded_gateway(request: GatewayGraphQLRequestBodyView) -> Seq<u8> {
    vstd::utf8::encode_utf8(gateway_text(request))
}

/// What the members of a gateway response give: the errors where there are
/// any; else the document that the `body` string holds.
pub open spec fn gateway_fields_result(fields: Seq<(Seq<char>, Seq<char>)>) -> Result<
    Seq<char>,
    GraphQLErrorView,
> {
    match present(fields, "errors"@) {
        Some(errors) => Err(GraphQLErrorView::RemoteGraphQLError(errors)),
        None => match present(fields, "body"@) {
            None => Err(GraphQLErrorView::MalformedResponse),
            Some(body) => match json_str(body) {
                None => Err(GraphQLErrorView::MalformedResponse),
                Some(inner) => match json_document(vstd::utf8::encode_utf8(inner)) {
                    None => Err(
                        GraphQLErrorView::DecodeError(DecompressError::UnexpectedJsonResponse),
                    ),
                    Some(data) => Ok(data),
                },
            },
        },
    }
}

/// What a gateway response gives.
pub open spec fn decoded_gateway(payload: Seq<u8>) -> Result<Seq<char>, GraphQLErrorView> {
    match json_document(payload) {
        None => Err(GraphQLErrorView::DecodeError(DecompressError::UnexpectedJsonResponse)),
        Some(text) => match json_fields(text) {
            None => Err(GraphQLErrorView::MalformedResponse),
            Some(fields) => gateway_fields_result(fields),
        },
    }
}

/// What an attempt to invoke the gateway target gives.
pub open spec fn gateway_response_of(outcome: Result<RawInvocationResultView, Seq<char>>) -> Result<
    Seq<char>,
    GraphQLErrorView,
> {
    match outcome_payload(outcome) {
        Ok(bytes) => decoded_gateway(bytes),
        Err(e) => Err(e),
    }
}

/// A gateway response with errors that are not `null` gives those errors,
/// whatever its body is.
pub proof fn lemma_gateway_errors_come_first(fields: Seq<(Seq<char>, Seq<char>)>)
    requires
        present(fields, "errors"@) is Some,
    ensures
        gateway_fields_result(fields) == Err::<Seq<char>, GraphQLErrorView>(
            GraphQLErrorView::RemoteGraphQLError(present(fields, "errors"@)->0),
        ),
{
}

/// Builds the payload for a gateway request.
pub fn encode_gateway(body: &GatewayGraphQLRequestBody) -> (res: Vec<u8>)
    ensures
        res@ == encoded_gateway(body@),
{
    let query = RawJson::string(body.query.as_str());
    let pool = RawJson::string(body.userpool_id.as_str());
    let mut out = String::from_str("{\"query\":");
    out.append(query.as_str());
    out.append(",\"variables\":");
    out.append(body.variables.as_str());
    out.append(",\"userPool\":");
    out.append(pool.as_str());
    out.append("}");
    out.as_str().as_bytes_vec()
}

/// Reads what the members of a gateway response give.
pub fn read_gateway_fields(fields: &Vec<(String, RawJson)>) -> (res: Result<RawJson, GraphQLError>)
    ensures
        result_view(res) == gateway_fields_result(members(fields@)),
{
    if let Some(errors) = find_present(fields, "errors") {
        return Err(GraphQLError::RemoteGraphQLError(errors.clone()));
    }
    let body = match find_present(fields, "body") {
        Some(body) => body,
        None => {
            return Err(GraphQLError::MalformedResponse);
        },
    };
    let inner = match body.as_string() {
        Some(inner) => inner,
        None => {
            return Err(GraphQLError::MalformedResponse);
        },
    };
    match RawJson::from_text(inner.as_str()) {
        Some(data) => Ok(data),
        None => Err(GraphQLError::DecodeError(DecompressError::UnexpectedJsonResponse)),
    }
}

/// Decodes a gateway response.
pub fn decode_gateway(payload: &[u8]) -> (res: Result<RawJson, GraphQLError>)
    ensures
        result_view(res) == decoded_gateway(payload@),
{
    let document = match RawJson::parse(payload) {
        Some(document) => document,
        None => {
            return Err(GraphQLError::DecodeError(DecompressError::UnexpectedJsonResponse));
        },
    };
    match document.fields() {
        Some(fields) => read_gateway_fields(&fields),
        None => Err(GraphQLError::MalformedResponse),
    }
}

/// Reads what an attempt to invoke the gateway target came to: the target's
/// answer, or the text of the failure to invoke it.
pub fn gateway_response(outcome: Result<RawInvocationResult, String>) -> (res: Result<
    RawJson,
    GraphQLError,
>)
    ensures
        result_view(res) == gateway_response_of(outcome_view(outcome)),
{
    match outcome_to_payload(outcome) {
        Ok(payload) => decode_gateway(payload.as_slice()),
        Err(e) => Err(e),
    }
}

} // verus!
