//! Small verified helpers on text.

use vstd::prelude::*;
use vstd::string::*;

verus! {

/// The characters of `s`, in order.
pub fn chars_of(s: &str) -> (chars: Vec<char>)
    ensures
        chars@ == s@,
{
    broadcast use vstd::string::group_string_axioms;

    let mut chars: Vec<char> = Vec::new();
    for c in it: s.chars()
        invariant
            it.seq() == s@,
            chars@.len() == it.index(),
            chars@ == s@.take(it.index() as int),
    {
        chars.push(c);
        assert(s@.take(it.index() + 1) =~= s@.take(it.index() as int).push(c));
    }
    assert(chars@ =~= s@);
    chars
}

/// `needle` stands in `haystack`, starting at position `at`.
pub open spec fn occurs_at(needle: Seq<char>, haystack: Seq<char>, at: int) -> bool {
    &&& 0 <= at
    &&& at + needle.len() <= haystack.len()
    &&& haystack.subrange(at, at + needle.len()) == needle
}

/// `needle` stands somewhere in `haystack`.
pub open spec fn occurs_in(needle: Seq<char>, haystack: Seq<char>) -> bool {
    exists|at: int| occurs_at(needle, haystack, at)
}

/// `prefix` is how `text` begins.
pub open spec fn begins_with(text: Seq<char>, prefix: Seq<char>) -> bool {
    occurs_at(prefix, text, 0)
}

fn matches_at(needle: &Vec<char>, haystack: &Vec<char>, at: usize) -> (found: bool)
    requires
        at + needle.len() <= haystack.len(),
    ensures
        found == occurs_at(needle@, haystack@, at as int),
{
    let mut k: usize = 0;
    while k < needle.len()
        invariant
            k <= needle.len(),
            at + needle.len() <= haystack.len(),
            forall|j: int| 0 <= j < k ==> haystack@[at + j] == needle@[j],
        decreases needle.len() - k,
    {
        if haystack[at + k] != needle[k] {
            assert(haystack@.subrange(at as int, at + needle.len())[k as int] != needle@[k as int]);
            return false;
        }
        k = k + 1;
    }
    assert(haystack@.subrange(at as int, at + needle.len()) =~= needle@);
    true
}

/// Whether `needle` stands somewhere in `haystack`.
pub fn contains(haystack: &str, needle: &str) -> (found: bool)
    ensures
        found == occurs_in(needle@, haystack@),
{
    let h = chars_of(haystack);
    let n = chars_of(needle);
    let mut at: usize = 0;
    while at <= h.len() && n.len() <= h.len() - at
        invariant
            h@ == haystack@,
            n@ == needle@,
            forall|j: int| 0 <= j < at ==> !occurs_at(n@, h@, j),
        decreases h.len() - at,
    {
        if matches_at(&n, &h, at) {
            return true;
        }
        proof {
            if n@.len() == 0 {
                assert(h@.subrange(at as int, at as int) =~= n@);
            }
        }
        at = at + 1;
    }
    assert forall|j: int| !occurs_at(n@, h@, j) by {
        if occurs_at(n@, h@, j) {
            assert(j < at);
        }
    }
    false
}

/// Whether `text` begins with `prefix`.
pub fn starts_with(text: &str, prefix: &str) -> (found: bool)
    ensures
        found == begins_with(text@, prefix@),
{
    let t = chars_of(text);
    let p = chars_of(prefix);
    p.len() <= t.len() && matches_at(&p, &t, 0)
}

/// The position of the first `stop` in `text`, or the length of `text` where
/// there is none.
pub open spec fn first_index_of(text: Seq<char>, stop: char) -> nat
    decreases text.len(),
{
    if text.len() == 0 || text[0] == stop {
        0
    } else {
        1 + first_index_of(text.drop_first(), stop)
    }
}

/// The part of `text` in front of the first `stop`; all of it where there is none.
pub open spec fn before_first(text: Seq<char>, stop: char) -> Seq<char> {
    text.take(first_index_of(text, stop) as int)
}

proof fn lemma_first_index_is(text: Seq<char>, stop: char, at: nat)
    requires
        at <= text.len(),
        forall|j: int| 0 <= j < at ==> text[j] != stop,
        at == text.len() || text[at as int] == stop,
    ensures
        first_index_of(text, stop) == at,
    decreases at,
{
    if at > 0 {
        let rest = text.drop_first();
        assert forall|j: int| 0 <= j < at - 1 implies rest[j] != stop by {
            assert(rest[j] == text[j + 1]);
        }
        if at < text.len() {
            assert(rest[at - 1] == text[at as int]);
        }
        lemma_first_index_is(rest, stop, (at - 1) as nat);
    }
}

/// The part of `text` in front of the first `stop`; all of it where there is none.
pub fn take_before_first(text: &str, stop: char) -> (head: String)
    ensures
        head@ == before_first(text@, stop),
{
    let chars = chars_of(text);
    let mut at: usize = 0;
    while at < chars.len() && chars[at] != stop
        invariant
            at <= chars.len(),
            forall|j: int| 0 <= j < at ==> chars@[j] != stop,
        decreases chars.len() - at,
    {
        at = at + 1;
    }
    proof {
        lemma_first_index_is(chars@, stop, at as nat);
        assert(text@.subrange(0, at as int) =~= text@.take(at as int));
    }
    String::from_str(text.substring_char(0, at))
}

} // verus!
