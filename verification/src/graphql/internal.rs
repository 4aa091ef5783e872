//! The internal protocol: requests carry an authorization context and are
//! framed; responses come framed, as an array with one element for each
//! request.

use crate::graphql::context::{
    array_text, context_text, join_array, GraphqlContext, GraphqlContextView,
};
use crate::graphql::error::{
    outcome_payload, outcome_to_payload, outcome_view, GraphQLError, GraphQLErrorView,
    RawInvocationResult, RawInvocationResultView,
};
use crate::graphql::framing::{frame, framed, unframe, unframed};
use crate::graphql::id_set::keys;
use crate::json::{
    find_present, json_document, json_fields, json_items, json_quoted, members, present,
    texts, RawJson,
};
use crate::misc::DecompressError;
use vstd::prelude::*;
use vstd::string::StringExecFns;

verus! {

/// A query for an internal target.
#[derive(Debug)]
pub struct GraphQLRequestBody {
    /// The query, carried as it is.
    pub query: String,
    /// The variables of the query, carried as they are.
    pub variables: RawJson,
    /// Who asks.
    pub context: GraphqlContext,
}

/// What a request holds.
pub struct GraphQLRequestBodyView {
    pub query: Seq<char>,
    pub variables: Seq<char>,
    pub context: GraphqlContextView,
}

impl View for GraphQLRequestBody {
    type V = GraphQLRequestBodyView;

    open spec fn view(&self) -> GraphQLRequestBodyView {
        GraphQLRequestBodyView {
            query: self.query@,
            variables: self.variables@,
            context: self.context@,
        }
    }
}

/// The JSON object that a request is written as. The context stands one
/// level down, under `graphqlContext`.
pub open spec fn request_text(request: GraphQLRequestBodyView) -> Seq<char> {
    "{\"query\":"@ + json_quoted(request.query) + ",\"variables\":"@ + request.variables
        + ",\"context\":{\"graphqlContext\":"@ + context_text(request.context) + "}}"@
}

/// The element of the outbound array for a request: an object whose `body`
/// is the request's JSON text as a string.
pub open spec fn element_text(request: GraphQLRequestBodyView) -> Seq<char> {
    "{\"body\":"@ + json_quoted(request_text(request)) + "}"@
}

/// The outbound array for a sequence of requests.
pub open spec fn document_text(requests: Seq<GraphQLRequestBodyView>) -> Seq<char> {
    array_text(requests.map_values(|r: GraphQLRequestBodyView| element_text(r)))
}

/// The payload for a sequence of requests.
pub open spec fn encoded_internal(requests: Seq<GraphQLRequestBodyView>) -> Result<
    Seq<u8>,
    GraphQLErrorView,
> {
    framed(vstd::utf8::encode_utf8(document_text(requests)))
}

/// What the members of a response element give: the errors where there are
/// any, whatever else there is; else the data; neither is a violation.
pub open spec fn fields_result(fields: Seq<(Seq<char>, Seq<char>)>) -> Result<
    Seq<char>,
    GraphQLErrorView,
> {
    match present(fields, "errors"@) {
        Some(errors) => Err(GraphQLErrorView::RemoteGraphQLError(errors)),
        None => match present(fields, "data"@) {
            Some(data) => Ok(data),
            None => Err(GraphQLErrorView::MalformedResponse),
        },
    }
}

/// What a response element gives.
pub open spec fn element_result(text: Seq<char>) -> Result<Seq<char>, GraphQLErrorView> {
    match json_fields(text) {
        Some(fields) => fields_result(fields),
        None => Err(GraphQLErrorView::MalformedResponse),
    }
}

/// The elements of the array that `payload` frames.
pub open spec fn response_items(payload: Seq<u8>) -> Result<Seq<Seq<char>>, GraphQLErrorView> {
    match unframed(payload) {
        Err(e) => Err(e),
        Ok(bytes) => match json_document(bytes) {
            None => Err(GraphQLErrorView::DecodeError(DecompressError::UnexpectedJsonResponse)),
            Some(text) => match json_items(text) {
                None => Err(GraphQLErrorView::MalformedResponse),
                Some(items) => Ok(items),
            },
        },
    }
}

/// What the response to one request gives: the array must hold one element.
pub open spec fn decoded_internal(payload: Seq<u8>) -> Result<Seq<char>, GraphQLErrorView> {
    match response_items(payload) {
        Err(e) => Err(e),
        Ok(items) => if items.len() == 1 {
            element_result(items[0])
        } else {
            Err(GraphQLErrorView::MalformedResponse)
        },
    }
}

/// What the response to `expected` requests gives: the array must hold as
/// many elements, and each gives its own result.
pub open spec fn decoded_internal_batch(payload: Seq<u8>, expected: nat) -> Result<
    Seq<Result<Seq<char>, GraphQLErrorView>>,
    GraphQLErrorView,
> {
    match response_items(payload) {
        Err(e) => Err(e),
        Ok(items) => if items.len() == expected {
            Ok(items.map_values(|text: Seq<char>| element_result(text)))
        } else {
            Err(GraphQLErrorView::MalformedResponse)
        },
    }
}

/// The view of the result for one request.
pub open spec fn result_view(result: Result<RawJson, GraphQLError>) -> Result<
    Seq<char>,
    GraphQLErrorView,
> {
    match result {
        Ok(data) => Ok(data@),
        Err(e) => Err(e@),
    }
}

/// The views of the results of a batch.
pub open spec fn result_views(results: Seq<Result<RawJson, GraphQLError>>) -> Seq<
    Result<Seq<char>, GraphQLErrorView>,
> {
    results.map_values(|r: Result<RawJson, GraphQLError>| result_view(r))
}

/// An element with errors that are not `null` gives those errors, whatever
/// its data is.
pub proof fn lemma_errors_come_first(fields: Seq<(Seq<char>, Seq<char>)>)
    requires
        present(fields, "errors"@) is Some,
    ensures
        fields_result(fields) == Err::<Seq<char>, GraphQLErrorView>(
            GraphQLErrorView::RemoteGraphQLError(present(fields, "errors"@)->0),
        ),
{
}

/// An element `{data: v, errors: null}` gives `v`, where `v` is not `null`.
pub proof fn lemma_data_with_null_errors(data: Seq<char>)
    requires
        data != "null"@,
    ensures
        fields_result(seq![("data"@, data), ("errors"@, "null"@)]) == Ok::<
            Seq<char>,
            GraphQLErrorView,
        >(data),
{
    reveal_strlit("data");
    reveal_strlit("errors");
    let fields = seq![("data"@, data), ("errors"@, "null"@)];
    assert("data"@ != "errors"@) by {
        assert("data"@.len() == 4);
        assert("errors"@.len() == 6);
    }
    assert(fields.drop_first() =~= seq![("errors"@, "null"@)]);
    assert(fields.drop_first()[0].0 == "errors"@);
    reveal_with_fuel(crate::json::lookup, 3);
}

/// A payload that frames the array of one element `{data: v, errors: null}`
/// decodes to `v`.
pub proof fn lemma_framed_data_decodes(
    payload: Seq<u8>,
    document: Seq<u8>,
    text: Seq<char>,
    element: Seq<char>,
    data: Seq<char>,
)
    requires
        unframed(payload) == Ok::<Seq<u8>, GraphQLErrorView>(document),
        json_document(document) == Some(text),
        json_items(text) == Some(seq![element]),
        json_fields(element) == Some(seq![("data"@, data), ("errors"@, "null"@)]),
        data != "null"@,
    ensures
        decoded_internal(payload) == Ok::<Seq<char>, GraphQLErrorView>(data),
{
    lemma_data_with_null_errors(data);
}

/// Writes a request as its JSON object.
fn write_request(body: &GraphQLRequestBody) -> (res: String)
    ensures
        res@ == request_text(body@),
{
    let query = RawJson::string(body.query.as_str());
    let context = body.context.to_json_text();
    let mut out = String::from_str("{\"query\":");
    out.append(query.as_str());
    out.append(",\"variables\":");
    out.append(body.variables.as_str());
    out.append(",\"context\":{\"graphqlContext\":");
    out.append(context.as_str());
    out.append("}}");
    out
}

/// Writes the element of the outbound array for a request.
fn write_element(body: &GraphQLRequestBody) -> (res: String)
    ensures
        res@ == element_text(body@),
{
    let request = write_request(body);
    let quoted = RawJson::string(request.as_str());
    let mut out = String::from_str("{\"body\":");
    out.append(quoted.as_str());
    out.append("}");
    out
}

/// Builds the payload for one request: the array of its one element,
/// framed. The payload unframes to that array.
pub fn encode_internal(body: &GraphQLRequestBody) -> (res: Result<Vec<u8>, GraphQLError>)
    ensures
        match encoded_internal(seq![body@]) {
            Ok(payload) => res matches Ok(out) && out@ == payload,
            Err(e) => res matches Err(r) && r@ == e,
        },
        res matches Ok(out) ==> unframed(out@) == Ok::<Seq<u8>, GraphQLErrorView>(
            vstd::utf8::encode_utf8(document_text(seq![body@])),
        ),
{
    let mut elements: Vec<String> = Vec::new();
    elements.push(write_element(body));
    let document = join_array(&elements);
    proof {
        assert(keys(elements@) =~= seq![body@].map_values(
            |r: GraphQLRequestBodyView| element_text(r),
        ));
    }
    frame(document.as_str().as_bytes())
}

/// Builds the payload for a sequence of requests: the array of their
/// elements in order, framed as one. The payload unframes to that array.
pub fn encode_internal_batch(bodies: &Vec<GraphQLRequestBody>) -> (res: Result<
    Vec<u8>,
    GraphQLError,
>)
    ensures
        match encoded_internal(keys(bodies@)) {
            Ok(payload) => res matches Ok(out) && out@ == payload,
            Err(e) => res matches Err(r) && r@ == e,
        },
        res matches Ok(out) ==> unframed(out@) == Ok::<Seq<u8>, GraphQLErrorView>(
            vstd::utf8::encode_utf8(document_text(keys(bodies@))),
        ),
{
    let mut elements: Vec<String> = Vec::new();
    let mut i: usize = 0;
    while i < bodies.len()
        invariant
            i <= bodies.len(),
            elements@.len() == i,
            forall|j: int| 0 <= j < i ==> elements@[j]@ == element_text(bodies@[j]@),
        decreases bodies.len() - i,
    {
        elements.push(write_element(&bodies[i]));
        i += 1;
    }
    let document = join_array(&elements);
    proof {
        assert(keys(elements@) =~= keys(bodies@).map_values(
            |r: GraphQLRequestBodyView| element_text(r),
        ));
    }
    frame(document.as_str().as_bytes())
}

/// Reads what the members of a response element give.
pub fn read_fields(fields: &Vec<(String, RawJson)>) -> (res: Result<RawJson, GraphQLError>)
    ensures
        result_view(res) == fields_result(members(fields@)),
{
    match find_present(fields, "errors") {
        Some(errors) => Err(GraphQLError::RemoteGraphQLError(errors.clone())),
        None => match find_present(fields, "data") {
            Some(data) => Ok(data.clone()),
            None => Err(GraphQLError::MalformedResponse),
        },
    }
}

/// Reads what a response element gives.
pub fn read_element(element: &RawJson) -> (res: Result<RawJson, GraphQLError>)
    ensures
        result_view(res) == element_result(element@),
{
    match element.fields() {
        Some(fields) => read_fields(&fields),
        None => Err(GraphQLError::MalformedResponse),
    }
}

/// Unframes a response and takes its array apart.
fn read_items(payload: &[u8]) -> (res: Result<Vec<RawJson>, GraphQLError>)
    ensures
        match response_items(payload@) {
            Ok(items) => res matches Ok(v) && texts(v@) == items,
            Err(e) => res matches Err(r) && r@ == e,
        },
{
    let bytes = match unframe(payload) {
        Ok(bytes) => bytes,
        Err(e) => {
            return Err(e);
        },
    };
    let document = match RawJson::parse(bytes.as_slice()) {
        Some(document) => document,
        None => {
            return Err(GraphQLError::DecodeError(DecompressError::UnexpectedJsonResponse));
        },
    };
    match document.items() {
        Some(items) => Ok(items),
        None => Err(GraphQLError::MalformedResponse),
    }
}

/// Decodes the response to one request.
pub fn decode_internal(payload: &[u8]) -> (res: Result<RawJson, GraphQLError>)
    ensures
        result_view(res) == decoded_internal(payload@),
{
    let items = match read_items(payload) {
        Ok(items) => items,
        Err(e) => {
            return Err(e);
        },
    };
    if items.len() != 1 {
        return Err(GraphQLError::MalformedResponse);
    }
    read_element(&items[0])
}

/// Decodes the response to `expected` requests. The results stand in the
/// order of the requests; an element with errors leaves the others as they
/// are.
pub fn decode_internal_batch(payload: &[u8], expected: usize) -> (res: Result<
    Vec<Result<RawJson, GraphQLError>>,
    GraphQLError,
>)
    ensures
        match decoded_internal_batch(payload@, expected as nat) {
            Ok(results) => res matches Ok(v) && result_views(v@) == results,
            Err(e) => res matches Err(r) && r@ == e,
        },
{
    let items = match read_items(payload) {
        Ok(items) => items,
        Err(e) => {
            return Err(e);
        },
    };
    if items.len() != expected {
        return Err(GraphQLError::MalformedResponse);
    }
    let mut results: Vec<Result<RawJson, GraphQLError>> = Vec::new();
    let mut i: usize = 0;
    while i < items.len()
        invariant
            i <= items.len(),
            results@.len() == i,
            forall|j: int| 0 <= j < i ==> result_view(#[trigger] results@[j]) == element_result(
                items@[j]@,
            ),
        decreases items.len() - i,
    {
        results.push(read_element(&items[i]));
        i += 1;
    }
    proof {
        assert(result_views(results@) =~= texts(items@).map_values(
            |text: Seq<char>| element_result(text),
        ));
    }
    Ok(results)
}

/// What an attempt to invoke an internal target with one request gives.
pub open spec fn internal_response_of(outcome: Result<RawInvocationResultView, Seq<char>>) -> Result<
    Seq<char>,
    GraphQLErrorView,
> {
    match outcome_payload(outcome) {
        Ok(bytes) => decoded_internal(bytes),
        Err(e) => Err(e),
    }
}

/// What an attempt to invoke an internal target with `expected` requests
/// gives.
pub open spec fn internal_batch_response_of(
    outcome: Result<RawInvocationResultView, Seq<char>>,
    expected: nat,
) -> Result<Seq<Result<Seq<char>, GraphQLErrorView>>, GraphQLErrorView> {
    match outcome_payload(outcome) {
        Ok(bytes) => decoded_internal_batch(bytes, expected),
        Err(e) => Err(e),
    }
}

/// Reads what an attempt to invoke an internal target with one request came
/// to: the target's answer, or the text of the failure to invoke it.
pub fn internal_response(outcome: Result<RawInvocationResult, String>) -> (res: Result<
    RawJson,
    GraphQLError,
>)
    ensures
        result_view(res) == internal_response_of(outcome_view(outcome)),
{
    match outcome_to_payload(outcome) {
        Ok(payload) => decode_internal(payload.as_slice()),
        Err(e) => Err(e),
    }
}

/// Reads what an attempt to invoke an internal target with `expected`
/// requests came to.
pub fn internal_batch_response(
    outcome: Result<RawInvocationResult, String>,
    expected: usize,
) -> (res: Result<Vec<Result<RawJson, GraphQLError>>, GraphQLError>)
    ensures
        match internal_batch_response_of(outcome_view(outcome), expected as nat) {
            Ok(results) => res matches Ok(v) && result_views(v@) == results,
            Err(e) => res matches Err(r) && r@ == e,
        },
{
    match outcome_to_payload(outcome) {
        Ok(payload) => decode_internal_batch(payload.as_slice(), expected),
        Err(e) => Err(e),
    }
}

} // verus!
