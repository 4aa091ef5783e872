//! Peripheral identifiers: a uuid and an index, written `<uuid>-<index>`.

use crate::json::{json_quoted, json_str, RawJson};
use crate::text::{
    contains_char, find_char, first_index, lemma_first_index, lemma_first_index_bounds,
};
use vstd::prelude::*;
use vstd::string::{StrSliceExecFns, StringExecFns};

verus! {

/// Why a uuid and an index do not make an identifier.
#[derive(Debug, Clone, Copy, PartialEq, Eq, Structural)]
pub enum PeripheralIdError {
    /// The text holds no hyphen.
    MissingSeparator,
    /// The uuid is empty.
    EmptyUuid,
    /// The uuid holds a hyphen.
    UuidContainsHyphen,
    /// The index is empty.
    EmptyIndex,
    /// The index holds `#`, which separates records in storage.
    IndexContainsSeparator,
}

/// The first reason for which `uuid` and `index` are refused, if there is one.
pub open spec fn validate_parts(uuid: Seq<char>, index: Seq<char>) -> Result<(), PeripheralIdError> {
    if uuid.len() == 0 {
        Err(PeripheralIdError::EmptyUuid)
    } else if uuid.contains('-') {
        Err(PeripheralIdError::UuidContainsHyphen)
    } else if index.len() == 0 {
        Err(PeripheralIdError::EmptyIndex)
    } else if index.contains('#') {
        Err(PeripheralIdError::IndexContainsSeparator)
    } else {
        Ok(())
    }
}

/// The written form of an identifier.
pub open spec fn id_text(uuid: Seq<char>, index: Seq<char>) -> Seq<char> {
    uuid + seq!['-'] + index
}

/// The uuid and index that `text` is read as: it is split at its first
/// hyphen, and the two parts must make an identifier.
pub open spec fn parse_id(text: Seq<char>) -> Result<(Seq<char>, Seq<char>), PeripheralIdError> {
    let at = first_index(text, '-');
    if at >= text.len() {
        Err(PeripheralIdError::MissingSeparator)
    } else {
        let uuid = text.subrange(0, at);
        let index = text.subrange(at + 1, text.len() as int);
        match validate_parts(uuid, index) {
            Ok(_) => Ok((uuid, index)),
            Err(e) => Err(e),
        }
    }
}

/// The identifier that the JSON document `text` is read as: the document is
/// a string literal that holds the written form.
pub open spec fn parse_id_json(text: Seq<char>) -> Option<(Seq<char>, Seq<char>)> {
    match json_str(text) {
        Some(s) => match parse_id(s) {
            Ok(parts) => Some(parts),
            Err(_) => None,
        },
        None => None,
    }
}

/// Writing an identifier and reading the text back gives the identifier.
pub proof fn lemma_id_text_round_trip(uuid: Seq<char>, index: Seq<char>)
    requires
        validate_parts(uuid, index) is Ok,
    ensures
        parse_id(id_text(uuid, index)) == Ok::<(Seq<char>, Seq<char>), PeripheralIdError>(
            (uuid, index),
        ),
{
    let text = id_text(uuid, index);
    let at = uuid.len() as int;
    assert forall|j: int| 0 <= j < at implies text[j] != '-' by {
        assert(text[j] == uuid[j]);
        assert(uuid.contains(uuid[j]));
    }
    assert(text[at] == '-');
    lemma_first_index(text, '-', at);
    assert(text.subrange(0, at) =~= uuid);
    assert(text.subrange(at + 1, text.len() as int) =~= index);
}

/// The uuid that a text is read with holds no hyphen, so reading never
/// refuses a uuid for one.
pub proof fn lemma_parse_never_finds_hyphen_in_uuid(text: Seq<char>)
    ensures
        parse_id(text) != Err::<(Seq<char>, Seq<char>), PeripheralIdError>(
            PeripheralIdError::UuidContainsHyphen,
        ),
{
    lemma_first_index_bounds(text, '-');
    let at = first_index(text, '-');
    if at < text.len() {
        let uuid = text.subrange(0, at);
        assert forall|j: int| 0 <= j < uuid.len() implies uuid[j] != '-' by {
            assert(uuid[j] == text[j]);
        }
    }
}

/// A peripheral of a device: the device's uuid and the peripheral's index.
#[derive(Debug, PartialEq, Eq, Hash)]
pub struct PeripheralId {
    uuid: String,
    index: String,
}

impl View for PeripheralId {
    type V = (Seq<char>, Seq<char>);

    closed spec fn view(&self) -> (Seq<char>, Seq<char>) {
        (self.uuid@, self.index@)
    }
}

impl Clone for PeripheralId {
    fn clone(&self) -> (res: Self)
        ensures
            res@ == self@,
    {
        proof {
            use_type_invariant(self);
        }
        PeripheralId { uuid: self.uuid.clone(), index: self.index.clone() }
    }
}

impl PeripheralId {
    /// Every identifier has a uuid and an index that `validate_parts` accepts.
    #[verifier::type_invariant]
    pub closed spec fn wf(&self) -> bool {
        validate_parts(self.uuid@, self.index@) is Ok
    }

    /// Makes an identifier of a uuid and an index, or says why they make
    /// none.
    pub fn new(uuid: String, index: String) -> (res: Result<PeripheralId, PeripheralIdError>)
        ensures
            match validate_parts(uuid@, index@) {
                Ok(_) => res matches Ok(id) && id@ == (uuid@, index@),
                Err(e) => res matches Err(r) && r == e,
            },
    {
        if uuid.as_str().is_empty() {
            return Err(PeripheralIdError::EmptyUuid);
        }
        if contains_char(uuid.as_str(), '-') {
            return Err(PeripheralIdError::UuidContainsHyphen);
        }
        if index.as_str().is_empty() {
            return Err(PeripheralIdError::EmptyIndex);
        }
        if contains_char(index.as_str(), '#') {
            return Err(PeripheralIdError::IndexContainsSeparator);
        }
        Ok(PeripheralId { uuid, index })
    }

    /// The uuid.
    pub fn uuid(&self) -> (res: &str)
        ensures
            res@ == self@.0,
    {
        self.uuid.as_str()
    }

    /// The index.
    pub fn index(&self) -> (res: &str)
        ensures
            res@ == self@.1,
    {
        self.index.as_str()
    }

    /// Whether two identifiers have the same uuid and the same index.
    pub fn same(&self, other: &PeripheralId) -> (res: bool)
        ensures
            res == (self@ == other@),
    {
        self.uuid == other.uuid && self.index == other.index
    }

    /// Reads `<uuid>-<index>`, splitting at the first hyphen.
    pub fn from_str(s: &str) -> (res: Result<PeripheralId, PeripheralIdError>)
        ensures
            match parse_id(s@) {
                Ok(parts) => res matches Ok(id) && id@ == parts,
                Err(e) => res matches Err(r) && r == e,
            },
    {
        let len = s.unicode_len();
        let at = find_char(s, '-');
        if at >= len {
            return Err(PeripheralIdError::MissingSeparator);
        }
        let uuid = String::from_str(s.substring_char(0, at));
        let index = String::from_str(s.substring_char(at + 1, len));
        PeripheralId::new(uuid, index)
    }

    /// Writes `<uuid>-<index>`, which `from_str` reads back as this
    /// identifier.
    pub fn to_string(&self) -> (res: String)
        ensures
            res@ == id_text(self@.0, self@.1),
            parse_id(res@) == Ok::<(Seq<char>, Seq<char>), PeripheralIdError>(self@),
    {
        proof {
            use_type_invariant(self);
            lemma_id_text_round_trip(self@.0, self@.1);
        }
        let mut text = self.uuid.clone();
        text.append("-");
        text.append(self.index.as_str());
        proof {
            reveal_strlit("-");
            assert("-"@ =~= seq!['-']);
        }
        text
    }

    /// The JSON form: a string literal that holds the written form, which
    /// `from_json` reads back as this identifier.
    pub fn to_json(&self) -> (res: RawJson)
        ensures
            res@ == json_quoted(id_text(self@.0, self@.1)),
            parse_id_json(res@) == Some(self@),
    {
        let text = self.to_string();
        RawJson::string(text.as_str())
    }

    /// Reads an identifier from a JSON string literal.
    pub fn from_json(doc: &RawJson) -> (res: Option<PeripheralId>)
        ensures
            match parse_id_json(doc@) {
                Some(parts) => res matches Some(id) && id@ == parts,
                None => res is None,
            },
    {
        match doc.as_string() {
            Some(text) => match PeripheralId::from_str(text.as_str()) {
                Ok(id) => Some(id),
                Err(_) => None,
            },
            None => None,
        }
    }
}

} // verus!
