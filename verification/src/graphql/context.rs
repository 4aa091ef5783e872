//! The authorization context that an internal request carries.

use crate::graphql::id_set::{
    contains, distinct, distinct_keys, duplicate_all, insert, keys, lemma_distinct_keys, lemma_with_key,
    lemma_without_key, remove, with_key, without_key,
};
use crate::json::{
    find_field, find_present, json_fields, json_items, json_quoted, json_str, lookup, members,
    present, texts, RawJson,
};
use crate::types::peripheral_id::{id_text, parse_id_json, PeripheralId};
use vstd::prelude::*;
use vstd::string::StringExecFns;

verus! {

/// The lines and peripherals that an access is scoped to.
pub struct AccessScopeView {
    pub line_ids: Seq<Seq<char>>,
    pub peripheral_ids: Seq<(Seq<char>, Seq<char>)>,
}

/// What a context holds: each set of identifiers as the sequence of its
/// members in order of arrival, which holds none twice.
pub struct GraphqlContextView {
    pub default_language: Seq<char>,
    pub language: Seq<char>,
    pub group_ids: Seq<Seq<char>>,
    pub line_ids: Seq<Seq<char>>,
    pub peripheral_ids: Seq<(Seq<char>, Seq<char>)>,
    pub user_pools: Seq<Seq<char>>,
    pub user_sub: Seq<char>,
    pub user_pool: Seq<char>,
    pub required_by: Option<AccessScopeView>,
    pub requires_scope: Option<AccessScopeView>,
}

/// The lines and peripherals that an access is scoped to.
#[derive(Debug)]
pub struct AccessScope {
    line_ids: Vec<String>,
    peripheral_ids: Vec<PeripheralId>,
}

/// Who asks: languages, groups, the lines and peripherals that may be
/// reached, and the user pools.
#[derive(Debug)]
pub struct GraphqlContext {
    default_language: String,
    language: String,
    group_ids: Vec<String>,
    line_ids: Vec<String>,
    peripheral_ids: Vec<PeripheralId>,
    user_pools: Vec<String>,
    user_sub: String,
    user_pool: String,
    required_by: Option<AccessScope>,
    requires_scope: Option<AccessScope>,
}

/// The view of an optional scope.
pub open spec fn scope_view(scope: Option<AccessScope>) -> Option<AccessScopeView> {
    match scope {
        Some(s) => Some(s@),
        None => None,
    }
}

/// The texts, separated by commas.
pub open spec fn joined(items: Seq<Seq<char>>) -> Seq<char>
    decreases items.len(),
{
    if items.len() == 0 {
        Seq::empty()
    } else if items.len() == 1 {
        items[0]
    } else {
        joined(items.drop_last()) + ","@ + items.last()
    }
}

/// The JSON array whose elements have the given texts.
pub open spec fn array_text(items: Seq<Seq<char>>) -> Seq<char> {
    "["@ + joined(items) + "]"@
}

/// The JSON string literals of the strings.
pub open spec fn quoted_strings(items: Seq<Seq<char>>) -> Seq<Seq<char>> {
    items.map_values(|s: Seq<char>| json_quoted(s))
}

/// The JSON string literals of the written forms of the identifiers.
pub open spec fn quoted_ids(ids: Seq<(Seq<char>, Seq<char>)>) -> Seq<Seq<char>> {
    ids.map_values(|id: (Seq<char>, Seq<char>)| json_quoted(id_text(id.0, id.1)))
}

/// The JSON object that a scope is written as.
pub open spec fn scope_text(scope: AccessScopeView) -> Seq<char> {
    "{\"lineIds\":"@ + array_text(quoted_strings(scope.line_ids)) + ",\"peripheralIds\":"@
        + array_text(quoted_ids(scope.peripheral_ids)) + "}"@
}

/// The JSON value that an optional scope is written as.
pub open spec fn optional_scope_text(scope: Option<AccessScopeView>) -> Seq<char> {
    match scope {
        Some(s) => scope_text(s),
        None => "null"@,
    }
}

/// The JSON object that a context is written as.
pub open spec fn context_text(c: GraphqlContextView) -> Seq<char> {
    "{\"defaultLanguage\":"@ + json_quoted(c.default_language) + ",\"language\":"@ + json_quoted(
        c.language,
    ) + ",\"groupIds\":"@ + array_text(quoted_strings(c.group_ids)) + ",\"lineIds\":"@
        + array_text(quoted_strings(c.line_ids)) + ",\"peripheralIds\":"@ + array_text(
        quoted_ids(c.peripheral_ids),
    ) + ",\"userPools\":"@ + array_text(quoted_strings(c.user_pools)) + ",\"userSub\":"@
        + json_quoted(c.user_sub) + ",\"userPool\":"@ + json_quoted(c.user_pool)
        + ",\"requiredBy\":"@ + optional_scope_text(c.required_by) + ",\"requires\":"@
        + optional_scope_text(c.requires_scope) + "}"@
}

/// The strings that the texts denote, if each is a string literal.
pub open spec fn all_strings(items: Seq<Seq<char>>) -> Option<Seq<Seq<char>>> {
    if forall|i: int| 0 <= i < items.len() ==> (#[trigger] json_str(items[i])) is Some {
        Some(items.map_values(|t: Seq<char>| json_str(t)->0))
    } else {
        None
    }
}

/// The identifiers that the texts denote, if each denotes one.
pub open spec fn all_ids(items: Seq<Seq<char>>) -> Option<Seq<(Seq<char>, Seq<char>)>> {
    if forall|i: int| 0 <= i < items.len() ==> (#[trigger] parse_id_json(items[i])) is Some {
        Some(items.map_values(|t: Seq<char>| parse_id_json(t)->0))
    } else {
        None
    }
}

/// The strings of the JSON array of string literals `text`.
pub open spec fn string_list(text: Seq<char>) -> Option<Seq<Seq<char>>> {
    match json_items(text) {
        Some(items) => all_strings(items),
        None => None,
    }
}

/// The identifiers of the JSON array of identifiers `text`.
pub open spec fn id_list(text: Seq<char>) -> Option<Seq<(Seq<char>, Seq<char>)>> {
    match json_items(text) {
        Some(items) => all_ids(items),
        None => None,
    }
}

/// The string that member `key` holds.
pub open spec fn string_member(fields: Seq<(Seq<char>, Seq<char>)>, key: Seq<char>) -> Option<
    Seq<char>,
> {
    match lookup(fields, key) {
        Some(text) => json_str(text),
        None => None,
    }
}

/// The strings that member `key` holds.
pub open spec fn string_list_member(
    fields: Seq<(Seq<char>, Seq<char>)>,
    key: Seq<char>,
) -> Option<Seq<Seq<char>>> {
    match lookup(fields, key) {
        Some(text) => string_list(text),
        None => None,
    }
}

/// The identifiers that member `key` holds.
pub open spec fn id_list_member(fields: Seq<(Seq<char>, Seq<char>)>, key: Seq<char>) -> Option<
    Seq<(Seq<char>, Seq<char>)>,
> {
    match lookup(fields, key) {
        Some(text) => id_list(text),
        None => None,
    }
}

/// The scope that the JSON object `text` is read as. Identifiers that occur
/// more than once count once.
pub open spec fn parse_scope(text: Seq<char>) -> Option<AccessScopeView> {
    match json_fields(text) {
        Some(fields) => match (
            string_list_member(fields, "lineIds"@),
            id_list_member(fields, "peripheralIds"@),
        ) {
            (Some(lines), Some(peripherals)) => Some(
                AccessScopeView {
                    line_ids: distinct_keys(lines),
                    peripheral_ids: distinct_keys(peripherals),
                },
            ),
            _ => None,
        },
        None => None,
    }
}

/// The scope that member `key` holds: none where the member is absent or
/// `null`. The outer `None` says that the member holds something else.
pub open spec fn scope_member(fields: Seq<(Seq<char>, Seq<char>)>, key: Seq<char>) -> Option<
    Option<AccessScopeView>,
> {
    match present(fields, key) {
        None => Some(None),
        Some(text) => match parse_scope(text) {
            Some(scope) => Some(Some(scope)),
            None => None,
        },
    }
}

/// The context that the JSON object `text` is read as. Every member but the
/// two scopes is required; members of other names are passed over;
/// identifiers that occur more than once in a set count once.
pub open spec fn parse_context(text: Seq<char>) -> Option<GraphqlContextView> {
    match json_fields(text) {
        None => None,
        Some(f) => if string_member(f, "defaultLanguage"@) is Some && string_member(
            f,
            "language"@,
        ) is Some && string_list_member(f, "groupIds"@) is Some && string_list_member(
            f,
            "lineIds"@,
        ) is Some && id_list_member(f, "peripheralIds"@) is Some && string_list_member(
            f,
            "userPools"@,
        ) is Some && string_member(f, "userSub"@) is Some && string_member(f, "userPool"@)
            is Some && scope_member(f, "requiredBy"@) is Some && scope_member(f, "requires"@)
            is Some {
            Some(
                GraphqlContextView {
                    default_language: string_member(f, "defaultLanguage"@)->0,
                    language: string_member(f, "language"@)->0,
                    group_ids: distinct_keys(string_list_member(f, "groupIds"@)->0),
                    line_ids: distinct_keys(string_list_member(f, "lineIds"@)->0),
                    peripheral_ids: distinct_keys(id_list_member(f, "peripheralIds"@)->0),
                    user_pools: string_list_member(f, "userPools"@)->0,
                    user_sub: string_member(f, "userSub"@)->0,
                    user_pool: string_member(f, "userPool"@)->0,
                    required_by: scope_member(f, "requiredBy"@)->0,
                    requires_scope: scope_member(f, "requires"@)->0,
                },
            )
        } else {
            None
        },
    }
}

/// Writes each string as a JSON string literal.
fn quote_strings(items: &Vec<String>) -> (res: Vec<String>)
    ensures
        keys(res@) == quoted_strings(keys(items@)),
{
    let mut out: Vec<String> = Vec::new();
    let mut i: usize = 0;
    while i < items.len()
        invariant
            i <= items.len(),
            out@.len() == i,
            forall|j: int| 0 <= j < i ==> out@[j]@ == json_quoted(items@[j]@),
        decreases items.len() - i,
    {
        out.push(RawJson::string(items[i].as_str()).into_string());
        i += 1;
    }
    assert(keys(out@) =~= quoted_strings(keys(items@)));
    out
}

/// Writes each identifier as a JSON string literal.
fn quote_ids(ids: &Vec<PeripheralId>) -> (res: Vec<String>)
    ensures
        keys(res@) == quoted_ids(keys(ids@)),
{
    let mut out: Vec<String> = Vec::new();
    let mut i: usize = 0;
    while i < ids.len()
        invariant
            i <= ids.len(),
            out@.len() == i,
            forall|j: int| 0 <= j < i ==> out@[j]@ == json_quoted(id_text(ids@[j]@.0, ids@[j]@.1)),
        decreases ids.len() - i,
    {
        out.push(ids[i].to_json().into_string());
        i += 1;
    }
    assert(keys(out@) =~= quoted_ids(keys(ids@)));
    out
}

/// Writes the JSON array whose elements have the given texts.
pub fn join_array(items: &Vec<String>) -> (res: String)
    ensures
        res@ == array_text(keys(items@)),
{
    let ghost all = keys(items@);
    let mut inner = String::new();
    let mut i: usize = 0;
    assert(all.take(0) =~= Seq::empty());
    while i < items.len()
        invariant
            i <= items.len(),
            all == keys(items@),
            inner@ == joined(all.take(i as int)),
        decreases items.len() - i,
    {
        proof {
            let next = all.take(i as int + 1);
            assert(next.drop_last() =~= all.take(i as int));
            assert(next.last() == items@[i as int]@);
            if i == 0 {
                assert(Seq::<char>::empty() + items@[0]@ =~= items@[0]@);
            }
        }
        if i > 0 {
            inner.append(",");
        }
        inner.append(items[i].as_str());
        i += 1;
    }
    assert(all.take(items@.len() as int) =~= all);
    let mut out = String::from_str("[");
    out.append(inner.as_str());
    out.append("]");
    out
}

/// Reads a JSON array of string literals.
fn read_strings(doc: &RawJson) -> (res: Option<Vec<String>>)
    ensures
        match string_list(doc@) {
            Some(list) => res matches Some(v) && keys(v@) == list,
            None => res is None,
        },
{
    let items = match doc.items() {
        Some(items) => items,
        None => {
            return None;
        },
    };
    let ghost all = texts(items@);
    let mut out: Vec<String> = Vec::new();
    let mut i: usize = 0;
    while i < items.len()
        invariant
            i <= items.len(),
            all == texts(items@),
            json_items(doc@) == Some(all),
            out@.len() == i,
            forall|j: int| 0 <= j < i ==> json_str(all[j]) == Some(#[trigger] out@[j]@),
        decreases items.len() - i,
    {
        match items[i].as_string() {
            Some(s) => {
                out.push(s);
            },
            None => {
                assert(json_str(all[i as int]) is None);
                return None;
            },
        }
        i += 1;
    }
    assert forall|j: int| 0 <= j < all.len() implies (#[trigger] json_str(all[j])) is Some by {
        assert(json_str(all[j]) == Some(out@[j]@));
    }
    assert(keys(out@) =~= all_strings(all)->0);
    Some(out)
}

/// Reads a JSON array of identifiers.
fn read_ids(doc: &RawJson) -> (res: Option<Vec<PeripheralId>>)
    ensures
        match id_list(doc@) {
            Some(list) => res matches Some(v) && keys(v@) == list,
            None => res is None,
        },
{
    let items = match doc.items() {
        Some(items) => items,
        None => {
            return None;
        },
    };
    let ghost all = texts(items@);
    let mut out: Vec<PeripheralId> = Vec::new();
    let mut i: usize = 0;
    while i < items.len()
        invariant
            i <= items.len(),
            all == texts(items@),
            json_items(doc@) == Some(all),
            out@.len() == i,
            forall|j: int| 0 <= j < i ==> parse_id_json(all[j]) == Some(#[trigger] out@[j]@),
        decreases items.len() - i,
    {
        match PeripheralId::from_json(&items[i]) {
            Some(id) => {
                out.push(id);
            },
            None => {
                assert(parse_id_json(all[i as int]) is None);
                return None;
            },
        }
        i += 1;
    }
    assert forall|j: int| 0 <= j < all.len() implies (#[trigger] parse_id_json(all[j])) is Some by {
        assert(parse_id_json(all[j]) == Some(out@[j]@));
    }
    assert(keys(out@) =~= all_ids(all)->0);
    Some(out)
}

/// Reads the string that member `key` holds.
fn string_field(fields: &Vec<(String, RawJson)>, key: &str) -> (res: Option<String>)
    ensures
        match string_member(members(fields@), key@) {
            Some(s) => res matches Some(r) && r@ == s,
            None => res is None,
        },
{
    match find_field(fields, key) {
        Some(doc) => doc.as_string(),
        None => None,
    }
}

/// Reads the strings that member `key` holds.
fn string_list_field(fields: &Vec<(String, RawJson)>, key: &str) -> (res: Option<Vec<String>>)
    ensures
        match string_list_member(members(fields@), key@) {
            Some(list) => res matches Some(v) && keys(v@) == list,
            None => res is None,
        },
{
    match find_field(fields, key) {
        Some(doc) => read_strings(doc),
        None => None,
    }
}

/// Reads the identifiers that member `key` holds.
fn id_list_field(fields: &Vec<(String, RawJson)>, key: &str) -> (res: Option<Vec<PeripheralId>>)
    ensures
        match id_list_member(members(fields@), key@) {
            Some(list) => res matches Some(v) && keys(v@) == list,
            None => res is None,
        },
{
    match find_field(fields, key) {
        Some(doc) => read_ids(doc),
        None => None,
    }
}

/// Reads the scope that member `key` holds.
fn scope_field(fields: &Vec<(String, RawJson)>, key: &str) -> (res: Option<Option<AccessScope>>)
    ensures
        match scope_member(members(fields@), key@) {
            Some(scope) => res matches Some(r) && scope_view(r) == scope,
            None => res is None,
        },
{
    match find_present(fields, key) {
        None => Some(None),
        Some(doc) => match AccessScope::from_json(doc) {
            Some(scope) => Some(Some(scope)),
            None => None,
        },
    }
}

impl View for AccessScope {
    type V = AccessScopeView;

    closed spec fn view(&self) -> AccessScopeView {
        AccessScopeView {
            line_ids: keys(self.line_ids@),
            peripheral_ids: keys(self.peripheral_ids@),
        }
    }
}

impl Clone for AccessScope {
    fn clone(&self) -> (res: Self)
        ensures
            res@ == self@,
    {
        proof {
            use_type_invariant(self);
        }
        AccessScope {
            line_ids: duplicate_all(&self.line_ids),
            peripheral_ids: duplicate_all(&self.peripheral_ids),
        }
    }
}

impl AccessScope {
    /// No line and no peripheral is held twice.
    #[verifier::type_invariant]
    pub closed spec fn wf(&self) -> bool {
        keys(self.line_ids@).no_duplicates() && keys(self.peripheral_ids@).no_duplicates()
    }

    /// The lines of the scope, in order of arrival, each once.
    pub fn line_ids(&self) -> (res: &Vec<String>)
        ensures
            keys(res@) == self@.line_ids,
            keys(res@).no_duplicates(),
    {
        proof {
            use_type_invariant(self);
        }
        &self.line_ids
    }

    /// The peripherals of the scope, in order of arrival, each once.
    pub fn peripheral_ids(&self) -> (res: &Vec<PeripheralId>)
        ensures
            keys(res@) == self@.peripheral_ids,
            keys(res@).no_duplicates(),
    {
        proof {
            use_type_invariant(self);
        }
        &self.peripheral_ids
    }

    /// Writes the scope as a JSON object.
    pub fn to_json_text(&self) -> (res: String)
        ensures
            res@ == scope_text(self@),
    {
        let lines = join_array(&quote_strings(&self.line_ids));
        let peripherals = join_array(&quote_ids(&self.peripheral_ids));
        let mut out = String::from_str("{\"lineIds\":");
        out.append(lines.as_str());
        out.append(",\"peripheralIds\":");
        out.append(peripherals.as_str());
        out.append("}");
        out
    }

    /// Reads a scope from a JSON object.
    pub fn from_json(doc: &RawJson) -> (res: Option<AccessScope>)
        ensures
            match parse_scope(doc@) {
                Some(scope) => res matches Some(r) && r@ == scope,
                None => res is None,
            },
    {
        let fields = match doc.fields() {
            Some(fields) => fields,
            None => {
                return None;
            },
        };
        let lines = match string_list_field(&fields, "lineIds") {
            Some(lines) => lines,
            None => {
                return None;
            },
        };
        let peripherals = match id_list_field(&fields, "peripheralIds") {
            Some(peripherals) => peripherals,
            None => {
                return None;
            },
        };
        Some(AccessScope { line_ids: distinct(lines), peripheral_ids: distinct(peripherals) })
    }
}

impl View for GraphqlContext {
    type V = GraphqlContextView;

    closed spec fn view(&self) -> GraphqlContextView {
        GraphqlContextView {
            default_language: self.default_language@,
            language: self.language@,
            group_ids: keys(self.group_ids@),
            line_ids: keys(self.line_ids@),
            peripheral_ids: keys(self.peripheral_ids@),
            user_pools: keys(self.user_pools@),
            user_sub: self.user_sub@,
            user_pool: self.user_pool@,
            required_by: scope_view(self.required_by),
            requires_scope: scope_view(self.requires_scope),
        }
    }
}

/// Copies an optional scope.
fn clone_scope(scope: &Option<AccessScope>) -> (res: Option<AccessScope>)
    ensures
        scope_view(res) == scope_view(*scope),
{
    match scope {
        Some(s) => Some(s.clone()),
        None => None,
    }
}

impl Clone for GraphqlContext {
    fn clone(&self) -> (res: Self)
        ensures
            res@ == self@,
    {
        proof {
            use_type_invariant(self);
        }
        GraphqlContext {
            default_language: self.default_language.clone(),
            language: self.language.clone(),
            group_ids: duplicate_all(&self.group_ids),
            line_ids: duplicate_all(&self.line_ids),
            peripheral_ids: duplicate_all(&self.peripheral_ids),
            user_pools: duplicate_all(&self.user_pools),
            user_sub: self.user_sub.clone(),
            user_pool: self.user_pool.clone(),
            required_by: clone_scope(&self.required_by),
            requires_scope: clone_scope(&self.requires_scope),
        }
    }
}

impl GraphqlContext {
    /// No group, no line and no peripheral is held twice.
    #[verifier::type_invariant]
    pub closed spec fn wf(&self) -> bool {
        &&& keys(self.group_ids@).no_duplicates()
        &&& keys(self.line_ids@).no_duplicates()
        &&& keys(self.peripheral_ids@).no_duplicates()
    }

    /// The lines that may be reached.
    pub open spec fn allowed_lines(&self) -> Set<Seq<char>> {
        self@.line_ids.to_set()
    }

    /// The peripherals that may be reached.
    pub open spec fn allowed_peripherals(&self) -> Set<(Seq<char>, Seq<char>)> {
        self@.peripheral_ids.to_set()
    }

    /// A context for `user_pool` in which everything else is empty.
    pub fn new(user_pool: String) -> (res: Self)
        ensures
            res@ == (GraphqlContextView {
                default_language: Seq::empty(),
                language: Seq::empty(),
                group_ids: Seq::empty(),
                line_ids: Seq::empty(),
                peripheral_ids: Seq::empty(),
                user_pools: Seq::empty(),
                user_sub: Seq::empty(),
                user_pool: user_pool@,
                required_by: None,
                requires_scope: None,
            }),
    {
        let res = GraphqlContext {
            default_language: String::new(),
            language: String::new(),
            group_ids: Vec::new(),
            line_ids: Vec::new(),
            peripheral_ids: Vec::new(),
            user_pools: Vec::new(),
            user_sub: String::new(),
            user_pool,
            required_by: None,
            requires_scope: None,
        };
        assert(res@.group_ids =~= Seq::empty());
        assert(res@.line_ids =~= Seq::empty());
        assert(res@.peripheral_ids =~= Seq::empty());
        assert(res@.user_pools =~= Seq::empty());
        res
    }

    /// The user pool.
    pub fn user_pool(&self) -> (res: &str)
        ensures
            res@ == self@.user_pool,
    {
        self.user_pool.as_str()
    }

    /// The lines that may be reached, in order of arrival, each once.
    pub fn line_ids(&self) -> (res: &Vec<String>)
        ensures
            keys(res@) == self@.line_ids,
            keys(res@).no_duplicates(),
    {
        proof {
            use_type_invariant(self);
        }
        &self.line_ids
    }

    /// The peripherals that may be reached, in order of arrival, each once.
    pub fn peripheral_ids(&self) -> (res: &Vec<PeripheralId>)
        ensures
            keys(res@) == self@.peripheral_ids,
            keys(res@).no_duplicates(),
    {
        proof {
            use_type_invariant(self);
        }
        &self.peripheral_ids
    }

    /// Lets the line be reached.
    pub fn allow_line_id(self, line_id: String) -> (res: Self)
        ensures
            res@ == (GraphqlContextView {
                line_ids: with_key(self@.line_ids, line_id@),
                ..self@
            }),
            res.allowed_lines() == self.allowed_lines().insert(line_id@),
    {
        proof {
            use_type_invariant(&self);
            lemma_with_key(self@.line_ids, line_id@);
        }
        GraphqlContext { line_ids: insert(self.line_ids, line_id), ..self }
    }

    /// Keeps the line from being reached.
    pub fn disallow_line_id(self, line_id: String) -> (res: Self)
        ensures
            res@ == (GraphqlContextView {
                line_ids: without_key(self@.line_ids, line_id@),
                ..self@
            }),
            res.allowed_lines() == self.allowed_lines().remove(line_id@),
    {
        proof {
            use_type_invariant(&self);
            lemma_without_key(self@.line_ids, line_id@);
        }
        GraphqlContext { line_ids: remove(self.line_ids, &line_id), ..self }
    }

    /// Whether the line may be reached.
    pub fn line_access_allowed(&self, line_id: &str) -> (res: bool)
        ensures
            res == self.allowed_lines().contains(line_id@),
    {
        contains(&self.line_ids, &String::from_str(line_id))
    }

    /// Lets the peripheral be reached.
    pub fn allow_peripheral_id(self, peripheral_id: PeripheralId) -> (res: Self)
        ensures
            res@ == (GraphqlContextView {
                peripheral_ids: with_key(self@.peripheral_ids, peripheral_id@),
                ..self@
            }),
            res.allowed_peripherals() == self.allowed_peripherals().insert(peripheral_id@),
    {
        proof {
            use_type_invariant(&self);
            lemma_with_key(self@.peripheral_ids, peripheral_id@);
        }
        GraphqlContext { peripheral_ids: insert(self.peripheral_ids, peripheral_id), ..self }
    }

    /// Keeps the peripheral from being reached.
    pub fn disallow_peripheral_id(self, peripheral_id: PeripheralId) -> (res: Self)
        ensures
            res@ == (GraphqlContextView {
                peripheral_ids: without_key(self@.peripheral_ids, peripheral_id@),
                ..self@
            }),
            res.allowed_peripherals() == self.allowed_peripherals().remove(peripheral_id@),
    {
        proof {
            use_type_invariant(&self);
            lemma_without_key(self@.peripheral_ids, peripheral_id@);
        }
        GraphqlContext { peripheral_ids: remove(self.peripheral_ids, &peripheral_id), ..self }
    }

    /// Whether the peripheral may be reached.
    pub fn peripheral_access_allowed(&self, peripheral_id: &PeripheralId) -> (res: bool)
        ensures
            res == self.allowed_peripherals().contains(peripheral_id@),
    {
        contains(&self.peripheral_ids, peripheral_id)
    }

    /// Sets the default language.
    pub fn set_default_language(self, default_language: String) -> (res: Self)
        ensures
            res@ == (GraphqlContextView { default_language: default_language@, ..self@ }),
    {
        proof {
            use_type_invariant(&self);
        }
        GraphqlContext { default_language, ..self }
    }

    /// Writes the context as a JSON object.
    pub fn to_json_text(&self) -> (res: String)
        ensures
            res@ == context_text(self@),
    {
        let default_language = RawJson::string(self.default_language.as_str());
        let language = RawJson::string(self.language.as_str());
        let groups = join_array(&quote_strings(&self.group_ids));
        let lines = join_array(&quote_strings(&self.line_ids));
        let peripherals = join_array(&quote_ids(&self.peripheral_ids));
        let pools = join_array(&quote_strings(&self.user_pools));
        let user_sub = RawJson::string(self.user_sub.as_str());
        let user_pool = RawJson::string(self.user_pool.as_str());
        let required_by = optional_scope_json(&self.required_by);
        let requires_scope = optional_scope_json(&self.requires_scope);
        let mut out = String::from_str("{\"defaultLanguage\":");
        out.append(default_language.as_str());
        out.append(",\"language\":");
        out.append(language.as_str());
        out.append(",\"groupIds\":");
        out.append(groups.as_str());
        out.append(",\"lineIds\":");
        out.append(lines.as_str());
        out.append(",\"peripheralIds\":");
        out.append(peripherals.as_str());
        out.append(",\"userPools\":");
        out.append(pools.as_str());
        out.append(",\"userSub\":");
        out.append(user_sub.as_str());
        out.append(",\"userPool\":");
        out.append(user_pool.as_str());
        out.append(",\"requiredBy\":");
        out.append(required_by.as_str());
        out.append(",\"requires\":");
        out.append(requires_scope.as_str());
        out.append("}");
        out
    }

    /// Reads a context from a JSON object. Identifiers that occur more than
    /// once in a set count once.
    pub fn from_json(doc: &RawJson) -> (res: Option<GraphqlContext>)
        ensures
            match parse_context(doc@) {
                Some(context) => res matches Some(c) && c@ == context,
                None => res is None,
            },
    {
        let fields = match doc.fields() {
            Some(fields) => fields,
            None => {
                return None;
            },
        };
        let default_language = string_field(&fields, "defaultLanguage");
        let language = string_field(&fields, "language");
        let group_ids = string_list_field(&fields, "groupIds");
        let line_ids = string_list_field(&fields, "lineIds");
        let peripheral_ids = id_list_field(&fields, "peripheralIds");
        let user_pools = string_list_field(&fields, "userPools");
        let user_sub = string_field(&fields, "userSub");
        let user_pool = string_field(&fields, "userPool");
        let required_by = scope_field(&fields, "requiredBy");
        let requires_scope = scope_field(&fields, "requires");
        match (
            default_language,
            language,
            group_ids,
            line_ids,
            peripheral_ids,
            user_pools,
            user_sub,
            user_pool,
            required_by,
            requires_scope,
        ) {
            (
                Some(default_language),
                Some(language),
                Some(group_ids),
                Some(line_ids),
                Some(peripheral_ids),
                Some(user_pools),
                Some(user_sub),
                Some(user_pool),
                Some(required_by),
                Some(requires_scope),
            ) => Some(
                GraphqlContext {
                    default_language,
                    language,
                    group_ids: distinct(group_ids),
                    line_ids: distinct(line_ids),
                    peripheral_ids: distinct(peripheral_ids),
                    user_pools,
                    user_sub,
                    user_pool,
                    required_by,
                    requires_scope,
                },
            ),
            _ => None,
        }
    }
}

/// Writes an optional scope: `null` for none.
fn optional_scope_json(scope: &Option<AccessScope>) -> (res: String)
    ensures
        res@ == optional_scope_text(scope_view(*scope)),
{
    match scope {
        Some(s) => s.to_json_text(),
        None => String::from_str("null"),
    }
}

/// What is read from a context's JSON object holds no line and no peripheral
/// twice, and holds as sets exactly the lines and peripherals that the
/// object lists, however often it lists them.
pub proof fn lemma_parsed_sets_deduplicate(text: Seq<char>)
    requires
        parse_context(text) is Some,
    ensures
        ({
            let context = parse_context(text)->0;
            let fields = json_fields(text)->0;
            &&& context.line_ids.no_duplicates()
            &&& context.line_ids.to_set() == (string_list_member(fields, "lineIds"@)->0).to_set()
            &&& context.peripheral_ids.no_duplicates()
            &&& context.peripheral_ids.to_set() == (id_list_member(
                fields,
                "peripheralIds"@,
            )->0).to_set()
            &&& context.group_ids.no_duplicates()
            &&& context.group_ids.to_set() == (string_list_member(fields, "groupIds"@)->0).to_set()
        }),
{
    let fields = json_fields(text)->0;
    lemma_distinct_keys(string_list_member(fields, "lineIds"@)->0);
    lemma_distinct_keys(id_list_member(fields, "peripheralIds"@)->0);
    lemma_distinct_keys(string_list_member(fields, "groupIds"@)->0);
}

} // verus!
