//! JSON documents carried as text.
//!
//! The codec never looks inside the values it transports: a [`RawJson`] holds
//! the text of one JSON value, and the functions here take such a text apart
//! one level at a time. The lexical work is `serde_json`'s; what is believed
//! of it is written on the private functions at the end of this file.

use crate::text::str_eq;
use std::collections::BTreeMap;
use vstd::prelude::*;

verus! {

/// The text of the single JSON value that `bytes` hold, if they hold exactly
/// one, surrounded by nothing but whitespace.
pub uninterp spec fn json_document(bytes: Seq<u8>) -> Option<Seq<char>>;

/// The texts of the elements of the JSON array that `text` is, in order.
pub uninterp spec fn json_items(text: Seq<char>) -> Option<Seq<Seq<char>>>;

/// The members of the JSON object that `text` is: each key with the text of
/// its value, in ascending order of the keys.
pub uninterp spec fn json_fields(text: Seq<char>) -> Option<Seq<(Seq<char>, Seq<char>)>>;

/// The string that the JSON string literal `text` denotes.
pub uninterp spec fn json_str(text: Seq<char>) -> Option<Seq<char>>;

/// The unsigned integer that the JSON number `text` denotes.
pub uninterp spec fn json_u64(text: Seq<char>) -> Option<u64>;

/// The JSON string literal that denotes `s`.
pub uninterp spec fn json_quoted(s: Seq<char>) -> Seq<char>;

/// Whether `text` is the text of one JSON value with nothing around it, so
/// that reading it as a document gives it back.
pub open spec fn is_json(text: Seq<char>) -> bool {
    json_document(vstd::utf8::encode_utf8(text)) == Some(text)
}

/// Whether `text` is the JSON literal `null`.
pub open spec fn is_null_text(text: Seq<char>) -> bool {
    text == "null"@
}

/// The value of the first member of `fields` whose key is `key`.
pub open spec fn lookup(fields: Seq<(Seq<char>, Seq<char>)>, key: Seq<char>) -> Option<Seq<char>>
    decreases fields.len(),
{
    if fields.len() == 0 {
        None
    } else if fields[0].0 == key {
        Some(fields[0].1)
    } else {
        lookup(fields.drop_first(), key)
    }
}

/// The value of member `key`, where a member that is absent and one that is
/// `null` both count as no value.
pub open spec fn present(fields: Seq<(Seq<char>, Seq<char>)>, key: Seq<char>) -> Option<Seq<char>> {
    match lookup(fields, key) {
        Some(text) => if is_null_text(text) {
            None
        } else {
            Some(text)
        },
        None => None,
    }
}

/// The texts of a sequence of documents.
pub open spec fn texts(docs: Seq<RawJson>) -> Seq<Seq<char>> {
    docs.map_values(|d: RawJson| d@)
}

/// The keys and value texts of a sequence of object members.
pub open spec fn members(fields: Seq<(String, RawJson)>) -> Seq<(Seq<char>, Seq<char>)> {
    fields.map_values(|f: (String, RawJson)| (f.0@, f.1@))
}

/// Whether every document of the sequence is well formed.
pub open spec fn all_wf(docs: Seq<RawJson>) -> bool {
    forall|i: int| 0 <= i < docs.len() ==> (#[trigger] docs[i]).wf()
}

/// Whether every member of the sequence has a well-formed value.
pub open spec fn all_members_wf(fields: Seq<(String, RawJson)>) -> bool {
    forall|i: int| 0 <= i < fields.len() ==> (#[trigger] fields[i]).1.wf()
}

/// The text of one JSON value, opaque to the codec.
#[derive(Debug, PartialEq, Eq)]
pub struct RawJson {
    text: String,
}

impl View for RawJson {
    type V = Seq<char>;

    closed spec fn view(&self) -> Seq<char> {
        self.text@
    }
}

impl Clone for RawJson {
    fn clone(&self) -> (res: Self)
        ensures
            res@ == self@,
    {
        proof {
            use_type_invariant(self);
        }
        RawJson { text: self.text.clone() }
    }
}

impl RawJson {
    /// The text of a document is one JSON value and nothing more.
    #[verifier::type_invariant]
    pub open spec fn wf(&self) -> bool {
        is_json(self@)
    }

    /// Reads `bytes` as one JSON document.
    pub fn parse(bytes: &[u8]) -> (res: Option<RawJson>)
        ensures
            match json_document(bytes@) {
                Some(text) => res matches Some(doc) && doc@ == text,
                None => res is None,
            },
    {
        parse_document(bytes)
    }

    /// Reads `text` as one JSON document.
    pub fn from_text(text: &str) -> (res: Option<RawJson>)
        ensures
            match json_document(vstd::utf8::encode_utf8(text@)) {
                Some(t) => res matches Some(doc) && doc@ == t,
                None => res is None,
            },
    {
        parse_document(text.as_bytes())
    }

    /// The document that is the JSON string literal for `s`.
    pub fn string(s: &str) -> (res: RawJson)
        ensures
            res@ == json_quoted(s@),
            json_str(res@) == Some(s@),
    {
        RawJson { text: quote_string(s) }
    }

    /// The text of the document.
    pub fn as_str(&self) -> (res: &str)
        ensures
            res@ == self@,
    {
        self.text.as_str()
    }

    /// The text of the document, owned.
    pub fn into_string(self) -> (res: String)
        ensures
            res@ == self@,
    {
        self.text
    }

    /// Whether the document is the literal `null`.
    pub fn is_null(&self) -> (res: bool)
        ensures
            res == is_null_text(self@),
    {
        str_eq(self.text.as_str(), "null")
    }

    /// The string that the document denotes, if it is a string literal.
    pub fn as_string(&self) -> (res: Option<String>)
        ensures
            match json_str(self@) {
                Some(s) => res matches Some(r) && r@ == s,
                None => res is None,
            },
    {
        parse_string(self.text.as_str())
    }

    /// The number that the document denotes, if it is an unsigned integer
    /// that fits 64 bits.
    pub fn as_u64(&self) -> (res: Option<u64>)
        ensures
            res == json_u64(self@),
    {
        parse_u64(self.text.as_str())
    }

    /// The elements of the document, if it is an array.
    pub fn items(&self) -> (res: Option<Vec<RawJson>>)
        ensures
            match json_items(self@) {
                Some(items) => res matches Some(v) && texts(v@) == items,
                None => res is None,
            },
    {
        parse_items(self.text.as_str())
    }

    /// The members of the document, if it is an object.
    pub fn fields(&self) -> (res: Option<Vec<(String, RawJson)>>)
        ensures
            match json_fields(self@) {
                Some(fields) => res matches Some(v) && members(v@) == fields,
                None => res is None,
            },
    {
        parse_fields(self.text.as_str())
    }
}

/// Finds the value of the first member named `key`.
pub fn find_field<'a>(fields: &'a Vec<(String, RawJson)>, key: &str) -> (res: Option<&'a RawJson>)
    ensures
        match lookup(members(fields@), key@) {
            Some(text) => res matches Some(doc) && doc@ == text,
            None => res is None,
        },
{
    let ghost all = members(fields@);
    assert(all.skip(0) =~= all);
    let mut i: usize = 0;
    while i < fields.len()
        invariant
            i <= fields.len(),
            all == members(fields@),
            lookup(all, key@) == lookup(all.skip(i as int), key@),
        decreases fields.len() - i,
    {
        proof {
            assert(all.skip(i as int).drop_first() =~= all.skip(i as int + 1));
            assert(all.skip(i as int)[0] == all[i as int]);
        }
        if str_eq(fields[i].0.as_str(), key) {
            return Some(&fields[i].1);
        }
        i += 1;
    }
    None
}

/// Finds the value of member `key`, taking `null` for no value.
pub fn find_present<'a>(fields: &'a Vec<(String, RawJson)>, key: &str) -> (res: Option<&'a RawJson>)
    ensures
        match present(members(fields@), key@) {
            Some(text) => res matches Some(doc) && doc@ == text,
            None => res is None,
        },
{
    match find_field(fields, key) {
        Some(doc) => if doc.is_null() {
            None
        } else {
            Some(doc)
        },
        None => None,
    }
}

/// Calls `serde_json::from_slice` for a boxed `RawValue`. Believed: whether it
/// succeeds and the text it yields depend on `bytes` alone; the text is the
/// range of `bytes` that holds the value, so reading it again gives it back.
#[verifier::external_body]
fn parse_document(bytes: &[u8]) -> (res: Option<RawJson>)
    ensures
        match json_document(bytes@) {
            Some(text) => res matches Some(doc) && doc@ == text && is_json(text),
            None => res is None,
        },
{
    serde_json::from_slice::<Box<serde_json::value::RawValue>>(bytes).ok().map(
        |raw| RawJson { text: raw.get().to_owned() },
    )
}

/// Calls `serde_json::from_str` for a vector of boxed `RawValue`s. Believed:
/// the outcome depends on `text` alone, and each element comes as the text of
/// one JSON value.
#[verifier::external_body]
fn parse_items(text: &str) -> (res: Option<Vec<RawJson>>)
    ensures
        match json_items(text@) {
            Some(items) => res matches Some(v) && texts(v@) == items && all_wf(v@),
            None => res is None,
        },
{
    serde_json::from_str::<Vec<Box<serde_json::value::RawValue>>>(text).ok().map(
        |items| items.iter().map(|raw| RawJson { text: raw.get().to_owned() }).collect(),
    )
}

/// Calls `serde_json::from_str` for a `BTreeMap` from `String` to boxed
/// `RawValue`. Believed: the outcome depends on `text` alone, and each value
/// comes as the text of one JSON value.
#[verifier::external_body]
fn parse_fields(text: &str) -> (res: Option<Vec<(String, RawJson)>>)
    ensures
        match json_fields(text@) {
            Some(fields) => res matches Some(v) && members(v@) == fields && all_members_wf(v@),
            None => res is None,
        },
{
    serde_json::from_str::<BTreeMap<String, Box<serde_json::value::RawValue>>>(text).ok().map(
        |map| map.iter().map(|(k, raw)| (k.clone(), RawJson { text: raw.get().to_owned() })).collect(),
    )
}

/// Calls `serde_json::from_str` for a `String`. Believed: the outcome depends
/// on `text` alone.
#[verifier::external_body]
fn parse_string(text: &str) -> (res: Option<String>)
    ensures
        match json_str(text@) {
            Some(s) => res matches Some(r) && r@ == s,
            None => res is None,
        },
{
    serde_json::from_str::<String>(text).ok()
}

/// Calls `serde_json::from_str` for a `u64`. Believed: the outcome depends on
/// `text` alone.
#[verifier::external_body]
fn parse_u64(text: &str) -> (res: Option<u64>)
    ensures
        res == json_u64(text@),
{
    serde_json::from_str::<u64>(text).ok()
}

/// Calls `serde_json::to_string` on a string slice, which has no cause to
/// fail. Believed: the literal depends on `s` alone, is one JSON value, and
/// read back as a string gives `s`.
#[verifier::external_body]
fn quote_string(s: &str) -> (res: String)
    ensures
        res@ == json_quoted(s@),
        json_str(res@) == Some(s@),
        is_json(res@),
{
    serde_json::to_string(s).unwrap_or_default()
}

} // verus!
