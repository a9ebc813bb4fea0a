//! Byte-level text rules shared by the header checks: ASCII case folding,
//! case-blind equality and infix search.

use vstd::prelude::*;
use vstd::utf8::valid_utf8;

verus! {

/// The ASCII lower-case form of a byte. Bytes outside `A..=Z` stay as they are.
pub open spec fn ascii_lower(b: u8) -> u8 {
    if 65 <= b <= 90 {
        (b + 32) as u8
    } else {
        b
    }
}

/// A byte string with every ASCII capital folded to lower case.
pub open spec fn lowered(s: Seq<u8>) -> Seq<u8> {
    s.map_values(|b: u8| ascii_lower(b))
}

/// Two byte strings are the same up to ASCII case.
pub open spec fn eq_ignoring_case(a: Seq<u8>, b: Seq<u8>) -> bool {
    lowered(a) == lowered(b)
}

/// `needle` stands in `hay` at offset `at`.
pub open spec fn occurs_at(needle: Seq<u8>, hay: Seq<u8>, at: int) -> bool {
    &&& 0 <= at
    &&& at + needle.len() <= hay.len()
    &&& hay.subrange(at, at + needle.len()) == needle
}

/// `needle` stands somewhere in `hay` as a run of consecutive bytes.
pub open spec fn is_infix(needle: Seq<u8>, hay: Seq<u8>) -> bool {
    exists|at: int| occurs_at(needle, hay, at)
}

/// Folds one byte to ASCII lower case.
pub fn to_ascii_lower(b: u8) -> (r: u8)
    ensures
        r == ascii_lower(b),
{
    if 65 <= b && b <= 90 {
        b + 32
    } else {
        b
    }
}

/// Compares two byte strings without regard to ASCII case.
pub fn eq_ignore_ascii_case(a: &[u8], b: &[u8]) -> (same: bool)
    ensures
        same == eq_ignoring_case(a@, b@),
{
    if a.len() != b.len() {
        assert(lowered(a@).len() != lowered(b@).len());
        return false;
    }
    let mut i: usize = 0;
    while i < a.len()
        invariant
            i <= a.len(),
            a.len() == b.len(),
            forall|k: int| 0 <= k < i ==> ascii_lower(#[trigger] a@[k]) == ascii_lower(b@[k]),
        decreases a.len() - i,
    {
        if to_ascii_lower(a[i]) != to_ascii_lower(b[i]) {
            assert(lowered(a@)[i as int] != lowered(b@)[i as int]);
            return false;
        }
        i += 1;
    }
    assert(lowered(a@) =~= lowered(b@));
    true
}

/// Whether `needle` stands at offset `at` of the lower-cased `hay`.
fn lowered_occurs_at(needle: &[u8], hay: &[u8], at: usize) -> (found: bool)
    requires
        at + needle.len() <= hay.len(),
    ensures
        found == occurs_at(needle@, lowered(hay@), at as int),
{
    let mut j: usize = 0;
    while j < needle.len()
        invariant
            j <= needle.len(),
            at + needle.len() <= hay.len(),
            forall|k: int| 0 <= k < j ==> ascii_lower(#[trigger] hay@[at + k]) == needle@[k],
        decreases needle.len() - j,
    {
        if to_ascii_lower(hay[at + j]) != needle[j] {
            assert(lowered(hay@).subrange(at as int, at + needle.len())[j as int] != needle@[j as int]);
            return false;
        }
        j += 1;
    }
    assert forall|k: int| 0 <= k < needle@.len() implies lowered(hay@).subrange(
        at as int,
        at + needle.len(),
    )[k] == needle@[k] by {
        assert(ascii_lower(hay@[at + k]) == needle@[k]);
    }
    assert(lowered(hay@).subrange(at as int, at + needle.len()) =~= needle@);
    true
}

/// Searches the lower-cased form of `hay` for `needle`. The needle is taken
/// as it is, so one that holds a capital letter is never found.
pub fn contains_lowered(hay: &[u8], needle: &[u8]) -> (found: bool)
    ensures
        found == is_infix(needle@, lowered(hay@)),
{
    if needle.len() > hay.len() {
        return false;
    }
    let last: usize = hay.len() - needle.len();
    let mut at: usize = 0;
    loop
        invariant
            at <= last,
            last == hay.len() - needle.len(),
            needle.len() <= hay.len(),
            forall|k: int| 0 <= k < at ==> !occurs_at(needle@, lowered(hay@), k),
        decreases last - at,
    {
        if lowered_occurs_at(needle, hay, at) {
            return true;
        }
        if at == last {
            return false;
        }
        at += 1;
    }
}

/// `std::str::from_utf8`. The contract claims that it accepts a byte string
/// exactly when the bytes are well-formed UTF-8.
#[verifier::external_body]
pub(crate) fn is_utf8(bytes: &[u8]) -> (valid: bool)
    ensures
        valid == valid_utf8(bytes@),
{
    std::str::from_utf8(bytes).is_ok()
}

} // verus!
