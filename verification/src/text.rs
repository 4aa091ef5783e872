//! Small operations on string slices, stated over their characters, and the
//! position of a first occurrence in a sequence.

use vstd::prelude::*;
use vstd::std_specs::iter::IteratorSpec;
use vstd::string::StrSliceExecFns;

verus! {

/// The position of the first `c` in `text`, or the length of `text` if it
/// holds none.
pub open spec fn first_index<A>(text: Seq<A>, c: A) -> int
    decreases text.len(),
{
    if text.len() == 0 || text[0] == c {
        0
    } else {
        1 + first_index(text.drop_first(), c)
    }
}

/// A position that follows only characters other than `c`, and that is the
/// end of the text or holds `c`, is the first index of `c`.
pub proof fn lemma_first_index<A>(text: Seq<A>, c: A, at: int)
    requires
        0 <= at <= text.len(),
        forall|j: int| 0 <= j < at ==> text[j] != c,
        at == text.len() || text[at] == c,
    ensures
        first_index(text, c) == at,
    decreases text.len(),
{
    if at > 0 {
        let rest = text.drop_first();
        assert forall|j: int| 0 <= j < at - 1 implies rest[j] != c by {
            assert(rest[j] == text[j + 1]);
        }
        lemma_first_index(rest, c, at - 1);
    }
}

/// The first index lies within the text or at its end, only other characters
/// come before it, and it is the end exactly when `c` does not occur.
pub proof fn lemma_first_index_bounds<A>(text: Seq<A>, c: A)
    ensures
        0 <= first_index(text, c) <= text.len(),
        forall|j: int| 0 <= j < first_index(text, c) ==> text[j] != c,
        first_index(text, c) < text.len() ==> text[first_index(text, c)] == c,
        first_index(text, c) == text.len() <==> !text.contains(c),
    decreases text.len(),
{
    if text.len() == 0 || text[0] == c {
    } else {
        let rest = text.drop_first();
        lemma_first_index_bounds(rest, c);
        assert forall|j: int| 0 <= j < first_index(text, c) implies text[j] != c by {
            if j > 0 {
                assert(rest[j - 1] == text[j]);
            }
        }
        if first_index(text, c) < text.len() {
            assert(rest[first_index(rest, c)] == text[first_index(text, c)]);
        }
    }
    let at = first_index(text, c);
    if at < text.len() {
        assert(text[at] == c);
    } else {
        assert forall|j: int| 0 <= j < text.len() implies text[j] != c by {}
    }
}

/// Whether two string slices hold the same characters.
pub fn str_eq(a: &str, b: &str) -> (res: bool)
    ensures
        res == (a@ == b@),
{
    let x = a.as_bytes();
    let y = b.as_bytes();
    proof {
        vstd::utf8::encode_utf8_decode_utf8(a@);
        vstd::utf8::encode_utf8_decode_utf8(b@);
    }
    if x.len() != y.len() {
        return false;
    }
    let mut i: usize = 0;
    while i < x.len()
        invariant
            i <= x.len(),
            x.len() == y.len(),
            x@ == vstd::utf8::encode_utf8(a@),
            y@ == vstd::utf8::encode_utf8(b@),
            forall|j: int| 0 <= j < i ==> x@[j] == y@[j],
        decreases x.len() - i,
    {
        if x[i] != y[i] {
            return false;
        }
        i += 1;
    }
    assert(x@ =~= y@);
    true
}

/// Whether `c` occurs in `s`.
pub fn contains_char(s: &str, c: char) -> (res: bool)
    ensures
        res == s@.contains(c),
{
    for x in it: s.chars()
        invariant
            it.seq() == s@,
            forall|j: int| 0 <= j < it.index() ==> s@[j] != c,
    {
        if x == c {
            assert(s@[it.index() as int] == c);
            return true;
        }
    }
    false
}

/// Counts the characters of `s` before the first `c`.
pub fn find_char(s: &str, c: char) -> (res: usize)
    ensures
        res == first_index(s@, c),
        res <= s@.len(),
        res == s@.len() <==> !s@.contains(c),
{
    proof {
        lemma_first_index_bounds(s@, c);
    }
    let len = s.unicode_len();
    let mut at: usize = 0;
    for x in it: s.chars()
        invariant
            it.seq() == s@,
            len == s@.len(),
            at == it.index(),
            forall|j: int| 0 <= j < at ==> s@[j] != c,
    {
        if x == c {
            proof {
                lemma_first_index(s@, c, at as int);
            }
            return at;
        }
        at += 1;
    }
    proof {
        lemma_first_index(s@, c, at as int);
    }
    at
}

} // verus!
