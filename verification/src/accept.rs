//! The accept key: what a server sends back in `Sec-WebSocket-Accept` to show
//! that it read the client's `Sec-WebSocket-Key`.

use crate::headers::{is_header_value, is_value_byte};
use sha1::Digest;
use vstd::prelude::*;
use vstd::string::StringSliceAdditionalSpecFns;

verus! {

/// The GUID that RFC 6455 has the server append to the client's key.
pub const WS_GUID: &'static str = "258EAFA5-E914-47DA-95CA-C5AB0DC85B11";

/// SHA-1 takes messages of fewer than 2^64 bits, that is fewer than this
/// many bytes.
pub const SHA1_MAX_INPUT: u64 = 0x2000_0000_0000_0000;

/// The longest client key that can be signed: the key and the GUID after it
/// must fit in a SHA-1 message.
pub const MAX_KEY_LEN: u64 = 0x1fff_ffff_ffff_ffdb;

/// The SHA-1 digest of a message.
pub uninterp spec fn sha1_digest(message: Seq<u8>) -> Seq<u8>;

/// The character that stands for the six-bit value `v` in the standard
/// base64 alphabet: `A`-`Z`, `a`-`z`, `0`-`9`, `+`, `/`.
pub open spec fn base64_symbol(v: int) -> u8 {
    if v < 26 {
        (65 + v) as u8
    } else if v < 52 {
        (71 + v) as u8
    } else if v < 62 {
        (v - 4) as u8
    } else if v == 62 {
        43
    } else {
        47
    }
}

/// The padding character `=`.
pub open spec fn base64_pad() -> u8 {
    61
}

/// Standard base64 with padding (RFC 4648, section 4): every three bytes
/// become four symbols, and a last group of one or two bytes is filled up
/// with `=`. The twenty-four bits of three bytes `a`, `b`, `c` are cut into
/// the six-bit values `a / 4`, `a % 4 * 16 + b / 16`, `b % 16 * 4 + c / 64`
/// and `c % 64`; a byte that is missing counts as zero.
pub open spec fn base64_text(data: Seq<u8>) -> Seq<u8>
    decreases data.len(),
{
    if data.len() == 0 {
        seq![]
    } else if data.len() == 1 {
        seq![
            base64_symbol(data[0] as int / 4),
            base64_symbol(data[0] as int % 4 * 16),
            base64_pad(),
            base64_pad(),
        ]
    } else if data.len() == 2 {
        seq![
            base64_symbol(data[0] as int / 4),
            base64_symbol(data[0] as int % 4 * 16 + data[1] as int / 16),
            base64_symbol(data[1] as int % 16 * 4),
            base64_pad(),
        ]
    } else {
        seq![
            base64_symbol(data[0] as int / 4),
            base64_symbol(data[0] as int % 4 * 16 + data[1] as int / 16),
            base64_symbol(data[1] as int % 16 * 4 + data[2] as int / 64),
            base64_symbol(data[2] as int % 64),
        ] + base64_text(data.skip(3))
    }
}

/// The definition gives the texts that RFC 4648 lists for its test vectors:
/// `f` is `Zg==`, `fo` is `Zm8=`, `foo` is `Zm9v`, `foob` is `Zm9vYg==`, and
/// the empty input has the empty text.
pub proof fn base64_text_of_rfc_vectors()
    ensures
        base64_text(seq![]) == Seq::<u8>::empty(),
        base64_text(seq![102u8]) == seq![90u8, 103, 61, 61],
        base64_text(seq![102u8, 111]) == seq![90u8, 109, 56, 61],
        base64_text(seq![102u8, 111, 111]) == seq![90u8, 109, 57, 118],
        base64_text(seq![102u8, 111, 111, 98]) == seq![90u8, 109, 57, 118, 89, 103, 61, 61],
{
    reveal_with_fuel(base64_text, 3);
    assert(seq![102u8, 111, 111].skip(3) =~= seq![]);
    assert(seq![102u8, 111, 111, 98].skip(3) =~= seq![98u8]);
    assert(base64_text(seq![102u8]) =~= seq![90u8, 103, 61, 61]);
    assert(base64_text(seq![102u8, 111]) =~= seq![90u8, 109, 56, 61]);
    assert(base64_text(seq![102u8, 111, 111]) =~= seq![90u8, 109, 57, 118]);
    assert(base64_text(seq![98u8]) =~= seq![89u8, 103, 61, 61]);
    assert(base64_text(seq![102u8, 111, 111, 98]) =~= seq![90u8, 109, 57, 118, 89, 103, 61, 61]);
}

/// The accept key for a client key: the base64 text of the SHA-1 digest of
/// the key followed by the GUID.
pub open spec fn accept_key(key: Seq<u8>) -> Seq<u8> {
    base64_text(sha1_digest(key + WS_GUID.spec_bytes()))
}

/// `Sha1::digest` of the `sha1` crate, in the one-shot form of its `Digest`
/// trait. The contract names the digest and claims its length of twenty
/// bytes. A message of 2^61 bytes or more is left out: its length in bits
/// does not fit the counter.
#[verifier::external_body]
pub(crate) fn sha1(message: &[u8]) -> (digest: Vec<u8>)
    requires
        message@.len() < SHA1_MAX_INPUT,
    ensures
        digest@ == sha1_digest(message@),
        digest@.len() == 20,
{
    sha1::Sha1::digest(message).to_vec()
}

/// `base64::encode`, which encodes with the standard alphabet and padding.
/// The contract claims that the text is `base64_text` of the input. An
/// input whose text would be longer than `usize::MAX` is left out.
#[verifier::external_body]
pub(crate) fn base64_encode(data: &[u8]) -> (text: Vec<u8>)
    requires
        data@.len() / 3 * 4 + 4 <= usize::MAX,
    ensures
        text@ == base64_text(data@),
{
    base64::encode(data).into_bytes()
}

/// A symbol is never the padding character, is a byte that a header value
/// admits, and stands for one six-bit value only.
proof fn lemma_symbols(v: int, w: int)
    requires
        0 <= v < 64,
        0 <= w < 64,
    ensures
        base64_symbol(v) != base64_pad(),
        is_value_byte(base64_symbol(v)),
        base64_symbol(v) == base64_symbol(w) ==> v == w,
{
}

/// The text has four characters for every three bytes begun.
pub proof fn lemma_base64_len(data: Seq<u8>)
    ensures
        base64_text(data).len() == 4 * ((data.len() + 2) / 3),
    decreases data.len(),
{
    if data.len() >= 3 {
        lemma_base64_len(data.skip(3));
    }
}

/// Every character of the text is one that a header value admits.
pub proof fn lemma_base64_is_header_value(data: Seq<u8>)
    ensures
        is_header_value(base64_text(data)),
    decreases data.len(),
{
    let text = base64_text(data);
    if data.len() >= 1 {
        lemma_symbols(data[0] as int / 4, 0);
        lemma_symbols(data[0] as int % 4 * 16, 0);
    }
    if data.len() >= 2 {
        lemma_symbols(data[0] as int % 4 * 16 + data[1] as int / 16, 0);
        lemma_symbols(data[1] as int % 16 * 4, 0);
    }
    if data.len() >= 3 {
        lemma_symbols(data[1] as int % 16 * 4 + data[2] as int / 64, 0);
        lemma_symbols(data[2] as int % 64, 0);
        lemma_base64_is_header_value(data.skip(3));
        let rest = base64_text(data.skip(3));
        assert forall|i: int| 0 <= i < text.len() implies is_value_byte(#[trigger] text[i]) by {
            if i >= 4 {
                assert(text[i] == rest[i - 4]);
            }
        }
    }
}

/// Base64 loses nothing: two inputs with the same text are the same input.
pub proof fn lemma_base64_injective(a: Seq<u8>, b: Seq<u8>)
    requires
        base64_text(a) == base64_text(b),
    ensures
        a == b,
    decreases a.len(),
{
    let ta = base64_text(a);
    let tb = base64_text(b);
    lemma_base64_len(a);
    lemma_base64_len(b);
    if a.len() == 0 || b.len() == 0 {
        assert(a =~= b);
    } else {
        let a0 = a[0] as int;
        let b0 = b[0] as int;
        let a1 = if a.len() >= 2 { a[1] as int } else { 0 };
        let b1 = if b.len() >= 2 { b[1] as int } else { 0 };
        let a2 = if a.len() >= 3 { a[2] as int } else { 0 };
        let b2 = if b.len() >= 3 { b[2] as int } else { 0 };
        lemma_symbols(a0 / 4, b0 / 4);
        lemma_symbols(a0 % 4 * 16 + a1 / 16, b0 % 4 * 16 + b1 / 16);
        lemma_symbols(a1 % 16 * 4 + a2 / 64, b1 % 16 * 4 + b2 / 64);
        lemma_symbols(a2 % 64, b2 % 64);
        assert(ta[0] == tb[0] && ta[1] == tb[1] && ta[2] == tb[2] && ta[3] == tb[3]);
        assert(a0 == b0 && a1 == b1 && a2 == b2);
        assert((a.len() >= 2) == (b.len() >= 2) && (a.len() >= 3) == (b.len() >= 3));
        if a.len() >= 3 {
            assert(ta.skip(4) =~= base64_text(a.skip(3)));
            assert(tb.skip(4) =~= base64_text(b.skip(3)));
            lemma_base64_injective(a.skip(3), b.skip(3));
            assert forall|i: int| 0 <= i < a.len() implies a[i] == b[i] by {
                if i >= 3 {
                    assert(a[i] == a.skip(3)[i - 3]);
                    assert(b[i] == b.skip(3)[i - 3]);
                }
            }
            assert(a.skip(3).len() == b.skip(3).len());
        }
        assert(a =~= b);
    }
}

/// The GUID is thirty-six bytes long.
proof fn lemma_guid_len()
    ensures
        WS_GUID.spec_bytes().len() == 36,
{
    reveal_strlit("258EAFA5-E914-47DA-95CA-C5AB0DC85B11");
    vstd::string::is_ascii_spec_bytes(WS_GUID);
}

/// Writes a digest as the text that goes into the header: its standard
/// base64 form, which a header value admits as it stands.
pub fn encode_digest(digest: &[u8]) -> (text: Vec<u8>)
    requires
        digest@.len() / 3 * 4 + 4 <= usize::MAX,
    ensures
        text@ == base64_text(digest@),
        text@.len() == 4 * ((digest@.len() + 2) / 3),
        is_header_value(text@),
{
    proof {
        lemma_base64_len(digest@);
        lemma_base64_is_header_value(digest@);
    }
    base64_encode(digest)
}

/// Signs a client key: returns the value of `Sec-WebSocket-Accept` that
/// answers a `Sec-WebSocket-Key` of `key`.
pub fn sign(key: &[u8]) -> (accept: Vec<u8>)
    requires
        key@.len() <= MAX_KEY_LEN,
    ensures
        accept@ == accept_key(key@),
        accept@.len() == 28,
        is_header_value(accept@),
{
    let guid = WS_GUID.as_bytes();
    let mut message: Vec<u8> = Vec::new();
    message.extend_from_slice(key);
    message.extend_from_slice(guid);
    assert(message@ == key@ + WS_GUID.spec_bytes());
    proof {
        lemma_guid_len();
    }
    let digest = sha1(message.as_slice());
    encode_digest(digest.as_slice())
}

/// Signing is a function of the key: the same key always gives the same
/// accept key.
pub proof fn accept_key_is_deterministic(first: Seq<u8>, second: Seq<u8>)
    requires
        first == second,
    ensures
        accept_key(first) == accept_key(second),
{
}

/// Two keys get different accept keys wherever SHA-1 tells them apart: the
/// encoding that follows the digest loses nothing.
pub proof fn accept_keys_differ_with_digests(first: Seq<u8>, second: Seq<u8>)
    requires
        sha1_digest(first + WS_GUID.spec_bytes()) != sha1_digest(second + WS_GUID.spec_bytes()),
    ensures
        accept_key(first) != accept_key(second),
{
    if accept_key(first) == accept_key(second) {
        lemma_base64_injective(
            sha1_digest(first + WS_GUID.spec_bytes()),
            sha1_digest(second + WS_GUID.spec_bytes()),
        );
    }
}

} // verus!
