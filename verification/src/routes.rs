//! The request paths of the task API and how they are read.
//!
//! The collection lives at `/api/tasks`; one record lives at
//! `/api/tasks/{index}`. The client prints an index into the path and the
//! server reads it back; `lemma_item_path_round_trip` states that both sides
//! then address the same position.

use vstd::prelude::*;

use crate::text::{
    all_digits, dec_digits, dec_val, lemma_numeral_round_trip, parse_decimal, push_decimal,
};
use vstd::string::StringExecFns;

verus! {

/// The collection path.
pub open spec fn collection_path() -> Seq<char> {
    "/api/tasks"@
}

/// The prefix of every single-record path.
pub open spec fn item_prefix() -> Seq<char> {
    "/api/tasks/"@
}

/// The path addressing the record at position `i`.
pub open spec fn api_item_path(i: int) -> Seq<char> {
    item_prefix() + dec_digits(i)
}

/// Does the path address the whole collection?
pub open spec fn is_collection(p: Seq<char>) -> bool {
    p == collection_path()
}

/// The index segment of a single-record path: what stands after the prefix,
/// possibly empty. `None` when the path does not start with the prefix.
pub open spec fn item_segment(p: Seq<char>) -> Option<Seq<char>> {
    if p.len() >= item_prefix().len() && p.subrange(0, item_prefix().len() as int)
        == item_prefix() {
        Some(p.subrange(item_prefix().len() as int, p.len() as int))
    } else {
        None
    }
}

/// What an index segment denotes: a position exactly when the segment is a
/// non-empty all-digit numeral whose value fits the machine word.
pub open spec fn spec_parse_index(seg: Seq<char>) -> Option<int> {
    if seg.len() > 0 && all_digits(seg) && dec_val(seg) <= usize::MAX {
        Some(dec_val(seg))
    } else {
        None
    }
}

/// Law: the path printed for position `i` reads back as exactly the segment
/// printed, and that segment denotes `i` whenever `i` fits the machine word —
/// printing and reading an index invert each other, so an index addressed by
/// the client is the index the server acts on.
pub proof fn lemma_item_path_round_trip(i: int)
    requires
        0 <= i,
    ensures
        item_segment(api_item_path(i)) == Some(dec_digits(i)),
        i <= usize::MAX ==> spec_parse_index(dec_digits(i)) == Some(i),
{
    lemma_numeral_round_trip(i);
    let p = api_item_path(i);
    assert(p.len() >= item_prefix().len());
    assert(p.subrange(0, item_prefix().len() as int) =~= item_prefix());
    assert(p.subrange(item_prefix().len() as int, p.len() as int) =~= dec_digits(i));
}

/// Print the path addressing the record at position `i`.
pub fn item_path_string(i: usize) -> (r: String)
    ensures
        r@ == api_item_path(i as int),
{
    let mut out = String::from_str("/api/tasks/");
    push_decimal(&mut out, i);
    proof {
        assert(out@ =~= api_item_path(i as int));
    }
    out
}

/// Does `s` start with `p`?
pub fn str_starts_with(s: &str, p: &str) -> (r: bool)
    ensures
        r == (s@.len() >= p@.len() && s@.subrange(0, p@.len() as int) == p@),
{
    let n = s.unicode_len();
    let m = p.unicode_len();
    if n < m {
        return false;
    }
    let mut i: usize = 0;
    while i < m
        invariant
            n == s@.len(),
            m == p@.len(),
            m <= n,
            0 <= i <= m,
            forall|k: int| 0 <= k < i ==> s@[k] == p@[k],
        decreases m - i,
    {
        if s.get_char(i) != p.get_char(i) {
            proof {
                assert(s@.subrange(0, p@.len() as int)[i as int] != p@[i as int]);
            }
            return false;
        }
        i += 1;
    }
    proof {
        assert(s@.subrange(0, p@.len() as int) =~= p@);
    }
    true
}

/// Are the two strings equal, character for character?
pub fn str_eq(s: &str, p: &str) -> (r: bool)
    ensures
        r == (s@ == p@),
{
    let n = s.unicode_len();
    let m = p.unicode_len();
    if n != m {
        return false;
    }
    let mut i: usize = 0;
    while i < m
        invariant
            n == s@.len(),
            m == p@.len(),
            m == n,
            0 <= i <= m,
            forall|k: int| 0 <= k < i ==> s@[k] == p@[k],
        decreases m - i,
    {
        if s.get_char(i) != p.get_char(i) {
            return false;
        }
        i += 1;
    }
    proof {
        assert(s@ =~= p@);
    }
    true
}

/// Read the index segment of `path`, the part after the single-record
/// prefix: present exactly when the path starts with that prefix.
pub fn item_segment_of<'a>(path: &'a str) -> (r: Option<&'a str>)
    ensures
        r is Some <==> item_segment(path@) is Some,
        r matches Some(seg) ==> item_segment(path@) == Some(seg@),
{
    let prefix = "/api/tasks/";
    if str_starts_with(path, prefix) {
        let plen = prefix.unicode_len();
        let seg = path.substring_char(plen, path.unicode_len());
        Some(seg)
    } else {
        None
    }
}

/// Read a single-record path's index: the position it denotes, or `None`
/// when the segment is missing, not a numeral, or too large for the machine
/// word.
pub fn parse_item_index(path: &str) -> (r: Option<usize>)
    ensures
        r is Some <==> (item_segment(path@) matches Some(seg) && spec_parse_index(seg) is Some),
        r matches Some(i) ==> item_segment(path@) matches Some(seg) && spec_parse_index(seg)
            == Some(i as int),
{
    match item_segment_of(path) {
        Some(seg) => parse_decimal(seg),
        None => None,
    }
}

} // verus!
