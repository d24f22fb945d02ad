//! Standard base64 (RFC 4648, with `=` padding), through the `base64` crate.

use vstd::prelude::*;
use vstd::utf8::is_ascii_chars;

verus! {

/// The character of the standard base64 alphabet for a 6-bit value.
pub open spec fn b64_char(v: int) -> char {
    if v < 26 {
        (65 + v) as char
    } else if v < 52 {
        (97 + v - 26) as char
    } else if v < 62 {
        (48 + v - 52) as char
    } else if v == 62 {
        '+'
    } else {
        '/'
    }
}

/// Standard base64 with padding: every 3 bytes become 4 characters; a final
/// group of 1 or 2 bytes is padded with `=` to 4 characters.
pub open spec fn b64_encode(d: Seq<u8>) -> Seq<char>
    decreases d.len(),
{
    if d.len() == 0 {
        Seq::empty()
    } else {
        let a = d[0] as int;
        let b = if d.len() > 1 { d[1] as int } else { 0 };
        let c = if d.len() > 2 { d[2] as int } else { 0 };
        let c1 = b64_char(a / 4);
        let c2 = b64_char((a % 4) * 16 + b / 16);
        let c3 = if d.len() > 1 { b64_char((b % 16) * 4 + c / 64) } else { '=' };
        let c4 = if d.len() > 2 { b64_char(c % 64) } else { '=' };
        if d.len() <= 3 {
            seq![c1, c2, c3, c4]
        } else {
            seq![c1, c2, c3, c4] + b64_encode(d.skip(3))
        }
    }
}

/// What `base64::engine::general_purpose::STANDARD.decode` makes of a string:
/// the bytes whose standard encoding it is, if there are any. The standard
/// engine requires canonical padding and rejects stray trailing bits, so it
/// accepts exactly the encodings of byte strings; the encoding is one-to-one,
/// so those bytes are unique.
pub open spec fn b64_decoded(s: Seq<char>) -> Option<Seq<u8>> {
    if exists|d: Seq<u8>| #[trigger] b64_encode(d) == s {
        Some(choose|d: Seq<u8>| #[trigger] b64_encode(d) == s)
    } else {
        None
    }
}

/// Standard base64 text is ASCII, four characters for every three bytes or
/// part of them.
pub proof fn lemma_b64_encode_shape(d: Seq<u8>)
    ensures
        b64_encode(d).len() == 4 * ((d.len() + 2) / 3),
        is_ascii_chars(b64_encode(d)),
    decreases d.len(),
{
    if d.len() > 3 {
        lemma_b64_encode_shape(d.skip(3));
    }
    if d.len() > 0 {
        let a = d[0] as int;
        let b = if d.len() > 1 { d[1] as int } else { 0 };
        let c = if d.len() > 2 { d[2] as int } else { 0 };
        assert(0 <= a / 4 < 64);
        assert(0 <= (a % 4) * 16 + b / 16 < 64);
        assert(0 <= (b % 16) * 4 + c / 64 < 64);
        assert(0 <= c % 64 < 64);
    }
}

pub open spec fn opt_bytes(r: Option<Vec<u8>>) -> Option<Seq<u8>> {
    match r {
        Some(v) => Some(v@),
        None => None,
    }
}

/// `base64::engine::general_purpose::STANDARD.encode`.
#[verifier::external_body]
pub(crate) fn base64_encode(data: &[u8]) -> (r: String)
    ensures
        r@ == b64_encode(data@),
{
    base64::Engine::encode(&base64::engine::general_purpose::STANDARD, data)
}

/// `base64::engine::general_purpose::STANDARD.decode`, with the error dropped:
/// the bytes that the text is the canonical standard encoding of, and `None`
/// for any other text.
#[verifier::external_body]
pub(crate) fn base64_decode(s: &str) -> (r: Option<Vec<u8>>)
    ensures
        opt_bytes(r) == b64_decoded(s@),
{
    base64::Engine::decode(&base64::engine::general_purpose::STANDARD, s).ok()
}

} // verus!
