//! The shape of a GraphQL response: data, or a list of field errors.

use crate::json::{
    find_field, find_present, json_fields, json_items, json_str, json_u64, lookup, members,
    present, texts, RawJson,
};
use vstd::prelude::*;

verus! {

/// A place in the query.
#[derive(Debug, Clone, Copy, PartialEq, Eq, Structural)]
pub struct Location {
    pub line: u64,
    pub column: u64,
}

/// An error that a field of the query gave.
#[derive(Debug, PartialEq, Eq)]
pub struct GraphQLFieldError {
    pub message: String,
    pub locations: Vec<Location>,
}

/// What a field error holds.
pub struct GraphQLFieldErrorView {
    pub message: Seq<char>,
    pub locations: Seq<Location>,
}

impl View for GraphQLFieldError {
    type V = GraphQLFieldErrorView;

    open spec fn view(&self) -> GraphQLFieldErrorView {
        GraphQLFieldErrorView { message: self.message@, locations: self.locations@ }
    }
}

/// A response, read as one of its two shapes.
#[derive(Debug, PartialEq, Eq)]
pub enum ParsedGraphQLResponse {
    /// The query gave data.
    Data { data: RawJson },
    /// The query gave errors.
    Error { errors: Vec<GraphQLFieldError> },
}

/// What a response holds.
pub enum ParsedGraphQLResponseView {
    Data { data: Seq<char> },
    Error { errors: Seq<GraphQLFieldErrorView> },
}

/// The views of a sequence of field errors.
pub open spec fn error_views(errors: Seq<GraphQLFieldError>) -> Seq<GraphQLFieldErrorView> {
    errors.map_values(|e: GraphQLFieldError| e@)
}

impl View for ParsedGraphQLResponse {
    type V = ParsedGraphQLResponseView;

    open spec fn view(&self) -> ParsedGraphQLResponseView {
        match self {
            ParsedGraphQLResponse::Data { data } => ParsedGraphQLResponseView::Data { data: data@ },
            ParsedGraphQLResponse::Error { errors } => ParsedGraphQLResponseView::Error {
                errors: error_views(errors@),
            },
        }
    }
}

/// The unsigned integer that member `key` holds.
pub open spec fn number_member(fields: Seq<(Seq<char>, Seq<char>)>, key: Seq<char>) -> Option<u64> {
    match lookup(fields, key) {
        Some(text) => json_u64(text),
        None => None,
    }
}

/// The location that the JSON object `text` is read as.
pub open spec fn parse_location(text: Seq<char>) -> Option<Location> {
    match json_fields(text) {
        Some(fields) => match (number_member(fields, "line"@), number_member(fields, "column"@)) {
            (Some(line), Some(column)) => Some(Location { line, column }),
            _ => None,
        },
        None => None,
    }
}

/// The locations that the texts denote, if each denotes one.
pub open spec fn all_locations(items: Seq<Seq<char>>) -> Option<Seq<Location>> {
    if forall|i: int| 0 <= i < items.len() ==> (#[trigger] parse_location(items[i])) is Some {
        Some(items.map_values(|t: Seq<char>| parse_location(t)->0))
    } else {
        None
    }
}

/// The locations that member `locations` holds: none where the member is
/// absent or `null`.
pub open spec fn locations_member(fields: Seq<(Seq<char>, Seq<char>)>) -> Option<Seq<Location>> {
    match present(fields, "locations"@) {
        None => Some(Seq::empty()),
        Some(text) => match json_items(text) {
            Some(items) => all_locations(items),
            None => None,
        },
    }
}

/// The field error that the JSON object `text` is read as: its message is a
/// string, and its locations, where it has any, are objects with a line and a
/// column.
pub open spec fn parse_field_error(text: Seq<char>) -> Option<GraphQLFieldErrorView> {
    match json_fields(text) {
        Some(fields) => match lookup(fields, "message"@) {
            Some(message) => match (json_str(message), locations_member(fields)) {
                (Some(message), Some(locations)) => Some(
                    GraphQLFieldErrorView { message, locations },
                ),
                _ => None,
            },
            None => None,
        },
        None => None,
    }
}

/// The field errors that the texts denote, if each denotes one.
pub open spec fn all_field_errors(items: Seq<Seq<char>>) -> Option<Seq<GraphQLFieldErrorView>> {
    if forall|i: int| 0 <= i < items.len() ==> (#[trigger] parse_field_error(items[i])) is Some {
        Some(items.map_values(|t: Seq<char>| parse_field_error(t)->0))
    } else {
        None
    }
}

/// The field errors that the JSON array `text` is read as.
pub open spec fn parse_field_errors(text: Seq<char>) -> Option<Seq<GraphQLFieldErrorView>> {
    match json_items(text) {
        Some(items) => all_field_errors(items),
        None => None,
    }
}

/// The response that the JSON object `text` is read as. The shape with
/// errors is tried first: an object whose `errors` are not `null` is never
/// read as data.
pub open spec fn parse_response(text: Seq<char>) -> Option<ParsedGraphQLResponseView> {
    match json_fields(text) {
        None => None,
        Some(fields) => match present(fields, "errors"@) {
            Some(errors) => match parse_field_errors(errors) {
                Some(errors) => Some(ParsedGraphQLResponseView::Error { errors }),
                None => None,
            },
            None => match present(fields, "data"@) {
                Some(data) => Some(ParsedGraphQLResponseView::Data { data }),
                None => None,
            },
        },
    }
}

/// A response whose `errors` are not `null` is not read as data, whatever
/// its `data` is.
pub proof fn lemma_errors_shape_first(text: Seq<char>)
    requires
        json_fields(text) is Some,
        present(json_fields(text)->0, "errors"@) is Some,
    ensures
        !(parse_response(text) matches Some(ParsedGraphQLResponseView::Data { .. })),
{
}

/// Reads the unsigned integer that member `key` holds.
fn number_field(fields: &Vec<(String, RawJson)>, key: &str) -> (res: Option<u64>)
    ensures
        res == number_member(members(fields@), key@),
{
    match find_field(fields, key) {
        Some(doc) => doc.as_u64(),
        None => None,
    }
}

/// Reads the locations of a field error.
fn read_locations(fields: &Vec<(String, RawJson)>) -> (res: Option<Vec<Location>>)
    ensures
        match locations_member(members(fields@)) {
            Some(locations) => res matches Some(v) && v@ == locations,
            None => res is None,
        },
{
    let doc = match find_present(fields, "locations") {
        Some(doc) => doc,
        None => {
            return Some(Vec::new());
        },
    };
    let items = match doc.items() {
        Some(items) => items,
        None => {
            return None;
        },
    };
    let ghost all = texts(items@);
    let mut out: Vec<Location> = Vec::new();
    let mut i: usize = 0;
    while i < items.len()
        invariant
            i <= items.len(),
            all == texts(items@),
            json_items(doc@) == Some(all),
            present(members(fields@), "locations"@) == Some(doc@),
            out@.len() == i,
            forall|j: int| 0 <= j < i ==> parse_location(all[j]) == Some(#[trigger] out@[j]),
        decreases items.len() - i,
    {
        match Location::from_json(&items[i]) {
            Some(location) => {
                out.push(location);
            },
            None => {
                assert(parse_location(all[i as int]) is None);
                return None;
            },
        }
        i += 1;
    }
    assert forall|j: int| 0 <= j < all.len() implies (#[trigger] parse_location(all[j])) is Some by {
        assert(parse_location(all[j]) == Some(out@[j]));
    }
    assert(out@ =~= all_locations(all)->0);
    Some(out)
}

impl Location {
    /// Reads a location from a JSON object.
    pub fn from_json(doc: &RawJson) -> (res: Option<Location>)
        ensures
            res == parse_location(doc@),
    {
        let fields = match doc.fields() {
            Some(fields) => fields,
            None => {
                return None;
            },
        };
        match (number_field(&fields, "line"), number_field(&fields, "column")) {
            (Some(line), Some(column)) => Some(Location { line, column }),
            _ => None,
        }
    }
}

impl GraphQLFieldError {
    /// Reads a field error from a JSON object.
    pub fn from_json(doc: &RawJson) -> (res: Option<GraphQLFieldError>)
        ensures
            match parse_field_error(doc@) {
                Some(error) => res matches Some(e) && e@ == error,
                None => res is None,
            },
    {
        let fields = match doc.fields() {
            Some(fields) => fields,
            None => {
                return None;
            },
        };
        let message = match find_field(&fields, "message") {
            Some(message) => message.as_string(),
            None => {
                return None;
            },
        };
        match (message, read_locations(&fields)) {
            (Some(message), Some(locations)) => Some(GraphQLFieldError { message, locations }),
            _ => None,
        }
    }

    /// Reads a JSON array of field errors.
    pub fn list_from_json(doc: &RawJson) -> (res: Option<Vec<GraphQLFieldError>>)
        ensures
            match parse_field_errors(doc@) {
                Some(errors) => res matches Some(v) && error_views(v@) == errors,
                None => res is None,
            },
    {
        let items = match doc.items() {
            Some(items) => items,
            None => {
                return None;
            },
        };
        let ghost all = texts(items@);
        let mut out: Vec<GraphQLFieldError> = Vec::new();
        let mut i: usize = 0;
        while i < items.len()
            invariant
                i <= items.len(),
                all == texts(items@),
                json_items(doc@) == Some(all),
                out@.len() == i,
                forall|j: int|
                    0 <= j < i ==> parse_field_error(all[j]) == Some(#[trigger] out@[j]@),
            decreases items.len() - i,
        {
            match GraphQLFieldError::from_json(&items[i]) {
                Some(error) => {
                    out.push(error);
                },
                None => {
                    assert(parse_field_error(all[i as int]) is None);
                    return None;
                },
            }
            i += 1;
        }
        assert forall|j: int| 0 <= j < all.len() implies (#[trigger] parse_field_error(
            all[j],
        )) is Some by {
            assert(parse_field_error(all[j]) == Some(out@[j]@));
        }
        assert(error_views(out@) =~= all_field_errors(all)->0);
        Some(out)
    }
}

impl ParsedGraphQLResponse {
    /// Reads a response from a JSON object, trying the shape with errors
    /// first.
    pub fn from_json(doc: &RawJson) -> (res: Option<ParsedGraphQLResponse>)
        ensures
            match parse_response(doc@) {
                Some(response) => res matches Some(r) && r@ == response,
                None => res is None,
            },
    {
        let fields = match doc.fields() {
            Some(fields) => fields,
            None => {
                return None;
            },
        };
        if let Some(errors) = find_present(&fields, "errors") {
            return match GraphQLFieldError::list_from_json(errors) {
                Some(errors) => Some(ParsedGraphQLResponse::Error { errors }),
                None => None,
            };
        }
        match find_present(&fields, "data") {
            Some(data) => Some(ParsedGraphQLResponse::Data { data: data.clone() }),
            None => None,
        }
    }
}

} // verus!
