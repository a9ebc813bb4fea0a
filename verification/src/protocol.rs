//! Subprotocol negotiation: which of the names that the server supports the
//! client has offered in `Sec-WebSocket-Protocol`.

use vstd::prelude::*;
use vstd::slice::slice_to_vec;
use vstd::string::StringSliceAdditionalSpecFns;

verus! {

/// The comma, which parts the names that a client offers.
pub const COMMA: u8 = 44;

/// A byte of a header value that can be read as text: visible ASCII, the
/// space and the horizontal tab.
pub open spec fn is_text_byte(b: u8) -> bool {
    32 <= b < 127 || b == 9
}

/// A header value that can be read as text.
pub open spec fn is_text(bytes: Seq<u8>) -> bool {
    forall|i: int| 0 <= i < bytes.len() ==> is_text_byte(#[trigger] bytes[i])
}

/// The white space that such text can hold: the space and the tab.
pub open spec fn is_blank(b: u8) -> bool {
    b == 32 || b == 9
}

/// `s` without the white space at its start.
pub open spec fn trim_start(s: Seq<u8>) -> Seq<u8>
    decreases s.len(),
{
    if s.len() > 0 && is_blank(s[0]) {
        trim_start(s.drop_first())
    } else {
        s
    }
}

/// `s` without the white space at its end.
pub open spec fn trim_end(s: Seq<u8>) -> Seq<u8>
    decreases s.len(),
{
    if s.len() > 0 && is_blank(s.last()) {
        trim_end(s.drop_last())
    } else {
        s
    }
}

/// `s` without the white space at either end.
pub open spec fn trimmed(s: Seq<u8>) -> Seq<u8> {
    trim_end(trim_start(s))
}

/// The bytes from `from` up to `to` are one of the pieces into which the
/// commas cut `text`: a comma or an end of the text stands on either side,
/// and no comma in between. Text without a comma is one piece, and a piece
/// may be empty.
pub open spec fn is_piece(text: Seq<u8>, from: int, to: int) -> bool {
    &&& 0 <= from <= to <= text.len()
    &&& from == 0 || text[from - 1] == COMMA
    &&& to == text.len() || text[to] == COMMA
    &&& forall|i: int| from <= i < to ==> text[i] != COMMA
}

/// The client's list `text` offers `name`: one of its pieces, white space
/// at its ends aside, is exactly the name.
pub open spec fn offers(text: Seq<u8>, name: Seq<u8>) -> bool {
    exists|from: int, to: int| #[trigger]
        is_piece(text, from, to) && trimmed(text.subrange(from, to)) == name
}

/// The first of `candidates` that `text` offers, if there is one. The order
/// of the candidates decides; the order of the offers does not matter.
pub open spec fn first_offered(candidates: Seq<Seq<u8>>, text: Seq<u8>) -> Option<Seq<u8>>
    decreases candidates.len(),
{
    if candidates.len() == 0 {
        None
    } else if offers(text, candidates[0]) {
        Some(candidates[0])
    } else {
        first_offered(candidates.drop_first(), text)
    }
}

/// The candidates as byte strings.
pub open spec fn candidate_bytes(candidates: Seq<&str>) -> Seq<Seq<u8>> {
    candidates.map_values(|name: &str| name.spec_bytes())
}

/// Tells whether a header value can be read as text.
pub fn is_visible_text(bytes: &[u8]) -> (visible: bool)
    ensures
        visible == is_text(bytes@),
{
    let mut i: usize = 0;
    while i < bytes.len()
        invariant
            i <= bytes.len(),
            forall|k: int| 0 <= k < i ==> is_text_byte(#[trigger] bytes@[k]),
        decreases bytes.len() - i,
    {
        let b = bytes[i];
        if !(32 <= b && b < 127 || b == 9) {
            return false;
        }
        i += 1;
    }
    true
}

/// Finds where the piece that starts at `from` ends.
fn piece_end(text: &[u8], from: usize) -> (to: usize)
    requires
        from <= text.len(),
    ensures
        from <= to <= text.len(),
        to == text.len() || text@[to as int] == COMMA,
        forall|i: int| from <= i < to ==> text@[i] != COMMA,
{
    let mut to: usize = from;
    while to < text.len() && text[to] != COMMA
        invariant
            from <= to <= text.len(),
            forall|i: int| from <= i < to ==> text@[i] != COMMA,
        decreases text.len() - to,
    {
        to += 1;
    }
    to
}

/// Finds what is left of the bytes from `from` up to `to` once the white
/// space at both ends is set aside.
fn trim_bounds(text: &[u8], from: usize, to: usize) -> (kept: (usize, usize))
    requires
        from <= to <= text.len(),
    ensures
        from <= kept.0 <= kept.1 <= to,
        text@.subrange(kept.0 as int, kept.1 as int) == trimmed(
            text@.subrange(from as int, to as int),
        ),
{
    let mut start: usize = from;
    while start < to && (text[start] == 32 || text[start] == 9)
        invariant
            from <= start <= to <= text.len(),
            trim_start(text@.subrange(from as int, to as int)) == trim_start(
                text@.subrange(start as int, to as int),
            ),
        decreases to - start,
    {
        assert(text@.subrange(start as int, to as int).drop_first() =~= text@.subrange(
            start + 1,
            to as int,
        ));
        start += 1;
    }
    assert(trim_start(text@.subrange(start as int, to as int)) == text@.subrange(
        start as int,
        to as int,
    ));
    let mut end: usize = to;
    while end > start && (text[end - 1] == 32 || text[end - 1] == 9)
        invariant
            start <= end <= to <= text.len(),
            trim_end(text@.subrange(start as int, to as int)) == trim_end(
                text@.subrange(start as int, end as int),
            ),
        decreases end - start,
    {
        assert(text@.subrange(start as int, end as int).drop_last() =~= text@.subrange(
            start as int,
            end - 1,
        ));
        end -= 1;
    }
    assert(trim_end(text@.subrange(start as int, end as int)) == text@.subrange(
        start as int,
        end as int,
    ));
    (start, end)
}

/// Compares the bytes from `from` up to `to` with `name`.
fn range_is(text: &[u8], from: usize, to: usize, name: &[u8]) -> (same: bool)
    requires
        from <= to <= text.len(),
    ensures
        same == (text@.subrange(from as int, to as int) == name@),
{
    if to - from != name.len() {
        return false;
    }
    let mut i: usize = 0;
    while i < name.len()
        invariant
            from <= to <= text.len(),
            to - from == name.len(),
            i <= name.len(),
            forall|k: int| 0 <= k < i ==> text@[from + k] == name@[k],
        decreases name.len() - i,
    {
        if text[from + i] != name[i] {
            assert(text@.subrange(from as int, to as int)[i as int] != name@[i as int]);
            return false;
        }
        i += 1;
    }
    assert(text@.subrange(from as int, to as int) =~= name@);
    true
}

/// Tells whether the client's list `text` offers `name`.
pub fn is_offered(text: &[u8], name: &[u8]) -> (offered: bool)
    ensures
        offered == offers(text@, name@),
{
    let mut from: usize = 0;
    loop
        invariant
            from <= text.len(),
            from == 0 || text@[from - 1] == COMMA,
            forall|a: int, b: int|
                a < from && #[trigger] is_piece(text@, a, b) ==> trimmed(text@.subrange(a, b))
                    != name@,
        decreases text.len() - from,
    {
        let to = piece_end(text, from);
        assert(is_piece(text@, from as int, to as int));
        let (start, end) = trim_bounds(text, from, to);
        if range_is(text, start, end, name) {
            return true;
        }
        assert forall|a: int, b: int| a <= to && #[trigger] is_piece(text@, a, b) implies trimmed(
            text@.subrange(a, b),
        ) != name@ by {
            if a >= from {
                if a > from {
                    assert(text@[a - 1] != COMMA);
                }
                if b < to {
                    assert(text@[b] != COMMA);
                }
                if b > to {
                    assert(text@[to as int] == COMMA);
                }
                assert(a == from && b == to);
            }
        }
        if to == text.len() {
            return false;
        }
        from = to + 1;
    }
}

/// White space aside, text stays text.
proof fn lemma_trimmed_text(s: Seq<u8>)
    requires
        is_text(s),
    ensures
        is_text(trim_start(s)),
        is_text(trim_end(s)),
        is_text(trimmed(s)),
    decreases s.len(),
{
    if s.len() > 0 {
        assert forall|i: int| 0 <= i < s.drop_first().len() implies is_text_byte(
            #[trigger] s.drop_first()[i],
        ) by {
            assert(s.drop_first()[i] == s[i + 1]);
        }
        assert forall|i: int| 0 <= i < s.drop_last().len() implies is_text_byte(
            #[trigger] s.drop_last()[i],
        ) by {
            assert(s.drop_last()[i] == s[i]);
        }
        lemma_trimmed_text(s.drop_first());
        lemma_trimmed_text(s.drop_last());
    }
    lemma_trim_end_text(trim_start(s));
}

/// Without the white space at its end, text stays text.
proof fn lemma_trim_end_text(s: Seq<u8>)
    requires
        is_text(s),
    ensures
        is_text(trim_end(s)),
    decreases s.len(),
{
    if s.len() > 0 {
        assert forall|i: int| 0 <= i < s.drop_last().len() implies is_text_byte(
            #[trigger] s.drop_last()[i],
        ) by {
            assert(s.drop_last()[i] == s[i]);
        }
        lemma_trim_end_text(s.drop_last());
    }
}

/// A name that text offers is text itself.
pub proof fn lemma_offered_is_text(text: Seq<u8>, name: Seq<u8>)
    requires
        is_text(text),
        offers(text, name),
    ensures
        is_text(name),
{
    let (from, to) = choose|from: int, to: int| #[trigger]
        is_piece(text, from, to) && trimmed(text.subrange(from, to)) == name;
    let piece = text.subrange(from, to);
    assert forall|i: int| 0 <= i < piece.len() implies is_text_byte(#[trigger] piece[i]) by {
        assert(piece[i] == text[from + i]);
    }
    lemma_trimmed_text(piece);
}

/// What is chosen is one of the candidates, the client offers it, and no
/// candidate before it is offered. Nothing is chosen only where no
/// candidate is offered.
pub proof fn lemma_first_offered(candidates: Seq<Seq<u8>>, text: Seq<u8>)
    ensures
        match first_offered(candidates, text) {
            Some(name) => exists|i: int|
                {
                    &&& 0 <= i < candidates.len()
                    &&& #[trigger] candidates[i] == name
                    &&& offers(text, name)
                    &&& forall|j: int| 0 <= j < i ==> !offers(text, #[trigger] candidates[j])
                },
            None => forall|i: int| 0 <= i < candidates.len() ==> !offers(text, #[trigger] candidates[i]),
        },
    decreases candidates.len(),
{
    if candidates.len() > 0 {
        if offers(text, candidates[0]) {
            assert(candidates[0] == candidates[0]);
        } else {
            let rest = candidates.drop_first();
            lemma_first_offered(rest, text);
            match first_offered(rest, text) {
                Some(name) => {
                    let i = choose|i: int|
                        {
                            &&& 0 <= i < rest.len()
                            &&& #[trigger] rest[i] == name
                            &&& offers(text, name)
                            &&& forall|j: int| 0 <= j < i ==> !offers(text, #[trigger] rest[j])
                        };
                    assert(candidates[i + 1] == name);
                    assert forall|j: int| 0 <= j < i + 1 implies !offers(
                        text,
                        #[trigger] candidates[j],
                    ) by {
                        if j > 0 {
                            assert(candidates[j] == rest[j - 1]);
                        }
                    }
                },
                None => {
                    assert forall|i: int| 0 <= i < candidates.len() implies !offers(
                        text,
                        #[trigger] candidates[i],
                    ) by {
                        if i > 0 {
                            assert(candidates[i] == rest[i - 1]);
                        }
                    }
                },
            }
        }
    }
}

/// Picks the first of the server's `candidates`, which stand in order of
/// preference, that the client's list `text` offers.
pub fn select_protocol(candidates: &[&str], text: &[u8]) -> (chosen: Option<Vec<u8>>)
    ensures
        match chosen {
            Some(name) => first_offered(candidate_bytes(candidates@), text@) == Some(name@),
            None => first_offered(candidate_bytes(candidates@), text@) is None,
        },
{
    let ghost all = candidate_bytes(candidates@);
    let mut i: usize = 0;
    assert(all.skip(0) =~= all);
    while i < candidates.len()
        invariant
            i <= candidates.len(),
            all == candidate_bytes(candidates@),
            first_offered(all, text@) == first_offered(all.skip(i as int), text@),
        decreases candidates.len() - i,
    {
        let name = candidates[i].as_bytes();
        assert(all.skip(i as int)[0] == name@);
        if is_offered(text, name) {
            return Some(slice_to_vec(name));
        }
        assert(all.skip(i as int).drop_first() =~= all.skip(i + 1));
        i += 1;
    }
    assert(all.skip(i as int).len() == 0);
    None
}

} // verus!
