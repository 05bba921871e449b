//! ASCII case folding and token search on header bytes.

use vstd::prelude::*;

verus! {

/// One byte with the ASCII letters `A`..=`Z` (0x41..=0x5a) folded to
/// `a`..=`z`, which stand 0x20 higher.
pub open spec fn lower_byte(b: u8) -> u8 {
    if 0x41 <= b <= 0x5a {
        (b + 0x20) as u8
    } else {
        b
    }
}

/// A byte string with every ASCII capital folded to its small letter.
pub open spec fn lower(bytes: Seq<u8>) -> Seq<u8> {
    Seq::new(bytes.len(), |i: int| lower_byte(bytes[i]))
}

/// Two byte strings are the same up to the case of ASCII letters.
pub open spec fn same_ignoring_case(a: Seq<u8>, b: Seq<u8>) -> bool {
    lower(a) == lower(b)
}

/// The bytes that separate the members of a header value list: space (0x20)
/// and comma (0x2c).
pub open spec fn is_separator(b: u8) -> bool {
    b == 0x20 || b == 0x2c
}

/// `value[start..end]` is one member of the list: a run without separators
/// that is bounded on each side by a separator or by an end of the value.
/// Two adjacent separators bound an empty member.
pub open spec fn member_at(value: Seq<u8>, start: int, end: int) -> bool {
    &&& 0 <= start <= end <= value.len()
    &&& (start == 0 || is_separator(value[start - 1]))
    &&& (end == value.len() || is_separator(value[end]))
    &&& forall|k: int| start <= k < end ==> !is_separator(#[trigger] value[k])
}

/// Some member of the list `value` equals `token` up to ASCII case.
pub open spec fn contains_token(value: Seq<u8>, token: Seq<u8>) -> bool {
    exists|start: int, end: int|
        #[trigger] member_at(value, start, end) && same_ignoring_case(
            value.subrange(start, end),
            token,
        )
}

/// Folds one byte to lower case.
pub fn to_lower(b: u8) -> (folded: u8)
    ensures
        folded == lower_byte(b),
{
    if 0x41 <= b && b <= 0x5a {
        b + 0x20
    } else {
        b
    }
}

/// Whether a byte separates the members of a list.
pub fn separates(b: u8) -> (yes: bool)
    ensures
        yes == is_separator(b),
{
    b == 0x20 || b == 0x2c
}

/// Compares `value[start..end]` with `token`, ignoring the case of ASCII letters.
fn range_matches(value: &[u8], start: usize, end: usize, token: &[u8]) -> (same: bool)
    requires
        start <= end <= value@.len(),
    ensures
        same == same_ignoring_case(value@.subrange(start as int, end as int), token@),
{
    let ghost part = value@.subrange(start as int, end as int);
    if end - start != token.len() {
        assert(lower(part).len() != lower(token@).len());
        return false;
    }
    let mut i: usize = 0;
    while i < token.len()
        invariant
            start <= end <= value@.len(),
            end - start == token@.len(),
            i <= token@.len(),
            part == value@.subrange(start as int, end as int),
            forall|k: int| 0 <= k < i ==> lower_byte(part[k]) == lower_byte(token@[k]),
        decreases token@.len() - i,
    {
        if to_lower(value[start + i]) != to_lower(token[i]) {
            assert(lower(part)[i as int] != lower(token@)[i as int]);
            return false;
        }
        i += 1;
    }
    assert(lower(part) =~= lower(token@));
    true
}

/// Two byte strings compared up to the case of ASCII letters.
pub fn eq_ignore_case(a: &[u8], b: &[u8]) -> (same: bool)
    ensures
        same == same_ignoring_case(a@, b@),
{
    assert(a@.subrange(0, a@.len() as int) =~= a@);
    range_matches(a, 0, a.len(), b)
}

/// Searches a comma- or space-separated header value for `token`, ignoring
/// the case of ASCII letters.
pub fn has_token(value: &[u8], token: &[u8]) -> (found: bool)
    ensures
        found == contains_token(value@, token@),
{
    let mut start: usize = 0;
    let mut i: usize = 0;
    while i < value.len()
        invariant
            start <= i <= value@.len(),
            start == 0 || is_separator(value@[start - 1]),
            forall|k: int| start <= k < i ==> !is_separator(#[trigger] value@[k]),
            forall|s: int, e: int|
                #[trigger] member_at(value@, s, e) && e < start ==> !same_ignoring_case(
                    value@.subrange(s, e),
                    token@,
                ),
        decreases value@.len() - i,
    {
        if separates(value[i]) {
            if range_matches(value, start, i, token) {
                assert(member_at(value@, start as int, i as int));
                return true;
            }
            assert forall|s: int, e: int| #[trigger] member_at(value@, s, e) && e < i + 1 implies
                !same_ignoring_case(value@.subrange(s, e), token@) by {
                if e >= start {
                    lemma_member_is_current(value@, start as int, i as int, s, e);
                }
            }
            start = i + 1;
        }
        i += 1;
    }
    let last = range_matches(value, start, value.len(), token);
    proof {
        if last {
            assert(member_at(value@, start as int, value@.len() as int));
        } else {
            assert forall|s: int, e: int| #[trigger] member_at(value@, s, e) implies
                !same_ignoring_case(value@.subrange(s, e), token@) by {
                if e >= start {
                    lemma_member_is_current(value@, start as int, value@.len() as int, s, e);
                }
            }
        }
    }
    last
}

/// A member that ends at or after the start of a separator-free run which
/// itself stops at a separator or at the end of the value is that run.
proof fn lemma_member_is_current(value: Seq<u8>, start: int, stop: int, s: int, e: int)
    requires
        0 <= start <= stop <= value.len(),
        start == 0 || is_separator(value[start - 1]),
        stop == value.len() || is_separator(value[stop]),
        forall|k: int| start <= k < stop ==> !is_separator(#[trigger] value[k]),
        member_at(value, s, e),
        start <= e <= stop,
    ensures
        s == start,
        e == stop,
{
    if e < stop {
        assert(!is_separator(value[e]));
    }
    if s < start {
        assert(!is_separator(value[start - 1]));
    }
    if s > start {
        assert(!is_separator(value[s - 1]));
    }
}

} // verus!
