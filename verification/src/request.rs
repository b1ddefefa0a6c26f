//! Reading the request targets that reach the callback listener.
//!
//! A target is the path of a request with its query string, as the browser
//! sent it. Nothing in it is decoded: the payload is handed on as it came.

use vstd::prelude::*;
use vstd::string::*;

verus! {

/// What follows the first `?` of `target`, if there is a `?`.
pub open spec fn query_of(target: Seq<char>) -> Option<Seq<char>>
    decreases target.len(),
{
    if target.len() == 0 {
        None
    } else if target[0] == '?' {
        Some(target.skip(1))
    } else {
        query_of(target.skip(1))
    }
}

/// Whether `needle` stands somewhere in `hay` as a run of adjacent characters.
pub open spec fn occurs_in(needle: Seq<char>, hay: Seq<char>) -> bool {
    exists|at: int| occurs_at(needle, hay, at)
}

/// Whether `needle` stands in `hay` at position `at`.
pub open spec fn occurs_at(needle: Seq<char>, hay: Seq<char>, at: int) -> bool {
    0 <= at && at + needle.len() <= hay.len() && hay.subrange(at, at + needle.len()) == needle
}

/// The text that marks an authorization code in a query string.
pub open spec fn code_key() -> Seq<char> {
    "code="@
}

/// Whether a query string carries an authorization code.
pub open spec fn has_code_key(query: Seq<char>) -> bool {
    occurs_in(code_key(), query)
}

/// The query string of `target`, where it carries an authorization code.
pub open spec fn code_payload_of(target: Seq<char>) -> Option<Seq<char>> {
    match query_of(target) {
        Some(query) => if has_code_key(query) {
            Some(query)
        } else {
            None
        },
        None => None,
    }
}

/// The start of every target that relays a fragment: the fixed sub-path and
/// the `?` that opens its query string.
pub open spec fn relay_prefix() -> Seq<char> {
    "/tokens?"@
}

/// What follows the relay prefix, where `target` starts with it.
pub open spec fn relay_payload_of(target: Seq<char>) -> Option<Seq<char>> {
    if relay_prefix().is_prefix_of(target) {
        Some(target.skip(relay_prefix().len() as int))
    } else {
        None
    }
}

/// The characters of `text`, in order.
fn chars_of(text: &str) -> (chars: Vec<char>)
    ensures
        chars@ == text@,
{
    let mut chars: Vec<char> = Vec::new();
    for c in it: text.chars()
        invariant
            chars@ == text@.take(it.index() as int),
            it.seq() == text@,
    {
        chars.push(c);
    }
    chars
}

/// The position of the first `mark` in `chars`.
fn first_index(chars: &Vec<char>, mark: char) -> (found: Option<usize>)
    ensures
        match found {
            Some(i) => i < chars@.len() && chars@[i as int] == mark && forall|j: int|
                0 <= j < i ==> chars@[j] != mark,
            None => forall|j: int| 0 <= j < chars@.len() ==> chars@[j] != mark,
        },
{
    let mut i: usize = 0;
    while i < chars.len()
        invariant
            i <= chars@.len(),
            forall|j: int| 0 <= j < i ==> chars@[j] != mark,
        decreases chars@.len() - i,
    {
        if chars[i] == mark {
            return Some(i);
        }
        i += 1;
    }
    None
}

/// Skipping a prefix that holds no `?` leaves the query string unchanged.
pub proof fn query_after_plain_prefix(target: Seq<char>, n: int)
    requires
        0 <= n <= target.len(),
        forall|j: int| 0 <= j < n ==> target[j] != '?',
    ensures
        query_of(target) == query_of(target.skip(n)),
    decreases n,
{
    if n > 0 {
        query_after_plain_prefix(target.skip(1), n - 1);
        assert(target.skip(1).skip(n - 1) == target.skip(n));
    } else {
        assert(target.skip(0) == target);
    }
}

/// The query string is what follows the first `?`, whatever comes after it,
/// further `?` included.
pub proof fn query_follows_first_mark(target: Seq<char>, i: int)
    requires
        0 <= i < target.len(),
        target[i] == '?',
        forall|j: int| 0 <= j < i ==> target[j] != '?',
    ensures
        query_of(target) == Some(target.skip(i + 1)),
{
    query_after_plain_prefix(target, i);
    assert(target.skip(i).skip(1) == target.skip(i + 1));
}

/// A target without `?` has no query string.
pub proof fn no_mark_no_query(target: Seq<char>)
    requires
        forall|j: int| 0 <= j < target.len() ==> target[j] != '?',
    ensures
        query_of(target) is None,
{
    query_after_plain_prefix(target, target.len() as int);
}

/// Whether `needle` stands in `hay` at position `at`.
fn stands_at(needle: &Vec<char>, hay: &Vec<char>, at: usize) -> (found: bool)
    requires
        at + needle@.len() <= hay@.len(),
    ensures
        found == occurs_at(needle@, hay@, at as int),
{
    let hay_len: usize = hay.len();
    let mut k: usize = 0;
    while k < needle.len()
        invariant
            k <= needle@.len(),
            at + needle@.len() <= hay@.len() == hay_len,
            forall|j: int| 0 <= j < k ==> hay@[at + j] == needle@[j],
        decreases needle@.len() - k,
    {
        if hay[at + k] != needle[k] {
            assert(hay@.subrange(at as int, at + needle@.len())[k as int] != needle@[k as int]);
            return false;
        }
        k += 1;
    }
    assert(hay@.subrange(at as int, at + needle@.len()) =~= needle@);
    true
}

/// Whether `needle` stands somewhere in `hay`.
fn stands_in(needle: &Vec<char>, hay: &Vec<char>) -> (found: bool)
    ensures
        found == occurs_in(needle@, hay@),
{
    if needle.len() > hay.len() {
        return false;
    }
    if needle.len() == 0 {
        assert(occurs_at(needle@, hay@, 0)) by {
            assert(hay@.subrange(0, 0) =~= needle@);
        }
        return true;
    }
    let last: usize = hay.len() - needle.len();
    let mut at: usize = 0;
    while at <= last
        invariant
            last == hay@.len() - needle@.len(),
            last < usize::MAX,
            at <= last + 1,
            forall|j: int| 0 <= j < at ==> !occurs_at(needle@, hay@, j),
        decreases last + 1 - at,
    {
        if stands_at(needle, hay, at) {
            return true;
        }
        at += 1;
    }
    false
}

/// The query string of a request target: what follows its first `?`.
pub fn query_string(target: &str) -> (query: Option<String>)
    ensures
        query.deep_view() == query_of(target@),
{
    let chars = chars_of(target);
    let end: usize = chars.len();
    match first_index(&chars, '?') {
        Some(i) => {
            proof {
                query_follows_first_mark(target@, i as int);
                assert(target@.skip(i + 1) == target@.subrange(i + 1, target@.len() as int));
            }
            Some(target.substring_char(i + 1, end).to_owned())
        },
        None => {
            proof {
                no_mark_no_query(target@);
            }
            None
        },
    }
}

/// Whether a query string carries an authorization code, that is, holds the
/// text `code=` anywhere.
pub fn has_code(query: &str) -> (found: bool)
    ensures
        found == has_code_key(query@),
{
    let key = chars_of("code=");
    let hay = chars_of(query);
    stands_in(&key, &hay)
}

/// The payload of a relay request: what follows `/tokens?` in a target that
/// starts with it.
pub fn relay_payload(target: &str) -> (payload: Option<String>)
    ensures
        payload.deep_view() == relay_payload_of(target@),
{
    let prefix = chars_of("/tokens?");
    let chars = chars_of(target);
    if prefix.len() <= chars.len() && stands_at(&prefix, &chars, 0) {
        proof {
            assert(target@.skip(prefix@.len() as int) == target@.subrange(
                prefix@.len() as int,
                target@.len() as int,
            ));
        }
        Some(target.substring_char(prefix.len(), chars.len()).to_owned())
    } else {
        None
    }
}

} // verus!
