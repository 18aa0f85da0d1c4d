//! URL-safe, unpadded base64: the binary-to-text boundary of the core.
//!
//! Signatures and ciphertexts travel as text in this encoding. The
//! encoding and its strict decoding are specified here, and decoding an
//! encoded sequence is proved to give the sequence back.

use vstd::prelude::*;

use crate::cli::Base64Format;
use crate::errors::Error;

verus! {

/// The URL-safe base64 alphabet, as a function from a six-bit value to
/// its character.
pub open spec fn b64_char(v: u8) -> char
    recommends
        v < 64,
{
    if v < 26 {
        ((v + 65) as u32) as char  // 'A'..='Z'
    } else if v < 52 {
        ((v + 71) as u32) as char  // 'a'..='z'
    } else if v < 62 {
        ((v - 4) as u32) as char  // '0'..='9'
    } else if v == 62 {
        '-'
    } else {
        '_'
    }
}

/// The six-bit value of an alphabet character, or `None` for any other
/// character.
pub open spec fn b64_val(c: char) -> Option<u8> {
    let u = c as u32;
    if 65 <= u <= 90 {
        Some((u - 65) as u8)
    } else if 97 <= u <= 122 {
        Some((u - 71) as u8)
    } else if 48 <= u <= 57 {
        Some((u + 4) as u8)
    } else if c == '-' {
        Some(62u8)
    } else if c == '_' {
        Some(63u8)
    } else {
        None
    }
}

/// URL-safe unpadded base64 of a byte sequence: full three-byte groups
/// become four characters, a final one or two bytes become two or three.
pub open spec fn spec_b64_encode(s: Seq<u8>) -> Seq<char>
    decreases s.len(),
{
    if s.len() == 0 {
        Seq::empty()
    } else if s.len() == 1 {
        let b0 = s[0];
        seq![b64_char(b0 >> 2), b64_char((b0 & 3) << 4)]
    } else if s.len() == 2 {
        let b0 = s[0];
        let b1 = s[1];
        seq![
            b64_char(b0 >> 2),
            b64_char(((b0 & 3) << 4) | (b1 >> 4)),
            b64_char((b1 & 15) << 2),
        ]
    } else {
        let b0 = s[0];
        let b1 = s[1];
        let b2 = s[2];
        seq![
            b64_char(b0 >> 2),
            b64_char(((b0 & 3) << 4) | (b1 >> 4)),
            b64_char(((b1 & 15) << 2) | (b2 >> 6)),
            b64_char(b2 & 63),
        ] + spec_b64_encode(s.skip(3))
    }
}

/// Strict decoding of a final two-character group: the four unused bits
/// must be zero.
pub open spec fn b64_decode2(c0: char, c1: char) -> Option<Seq<u8>> {
    match (b64_val(c0), b64_val(c1)) {
        (Some(v0), Some(v1)) => if v1 & 15 == 0 {
            Some(seq![(v0 << 2) | (v1 >> 4)])
        } else {
            None
        },
        _ => None,
    }
}

/// Strict decoding of a final three-character group: the two unused bits
/// must be zero.
pub open spec fn b64_decode3(c0: char, c1: char, c2: char) -> Option<Seq<u8>> {
    match (b64_val(c0), b64_val(c1), b64_val(c2)) {
        (Some(v0), Some(v1), Some(v2)) => if v2 & 3 == 0 {
            Some(seq![(v0 << 2) | (v1 >> 4), (v1 << 4) | (v2 >> 2)])
        } else {
            None
        },
        _ => None,
    }
}

/// Decoding of a full four-character group into three bytes.
pub open spec fn b64_decode4(c0: char, c1: char, c2: char, c3: char) -> Option<Seq<u8>> {
    match (b64_val(c0), b64_val(c1), b64_val(c2), b64_val(c3)) {
        (Some(v0), Some(v1), Some(v2), Some(v3)) => Some(
            seq![(v0 << 2) | (v1 >> 4), (v1 << 4) | (v2 >> 2), (v2 << 6) | v3],
        ),
        _ => None,
    }
}

/// Strict URL-safe unpadded base64 decoding: only alphabet characters,
/// no length of the form 4k+1, and zero unused bits in a final partial
/// group. Exactly the encodings produced by `spec_b64_encode` are
/// accepted.
pub open spec fn spec_b64_decode(t: Seq<char>) -> Option<Seq<u8>>
    decreases t.len(),
{
    if t.len() == 0 {
        Some(Seq::empty())
    } else if t.len() == 1 {
        None
    } else if t.len() == 2 {
        b64_decode2(t[0], t[1])
    } else if t.len() == 3 {
        b64_decode3(t[0], t[1], t[2])
    } else {
        match (b64_decode4(t[0], t[1], t[2], t[3]), spec_b64_decode(t.skip(4))) {
            (Some(head), Some(rest)) => Some(head + rest),
            _ => None,
        }
    }
}

/// The alphabet and its valuation are mutually inverse on six-bit values.
pub proof fn lemma_b64_char_val(v: u8)
    requires
        v < 64,
    ensures
        b64_val(b64_char(v)) == Some(v),
{
    if v < 26 {
        assert((((v + 65) as u32) as char) as u32 == v + 65);
    } else if v < 52 {
        assert((((v + 71) as u32) as char) as u32 == v + 71);
    } else if v < 62 {
        assert((((v - 4) as u32) as char) as u32 == v - 4);
    }
}

/// Decoding an encoded byte sequence gives the sequence back.
pub proof fn lemma_b64_round_trip(s: Seq<u8>)
    ensures
        spec_b64_decode(spec_b64_encode(s)) == Some(s),
    decreases s.len(),
{
    if s.len() == 0 {
        assert(spec_b64_decode(spec_b64_encode(s)) == Some(s));
    } else if s.len() == 1 {
        let b0 = s[0];
        assert((b0 >> 2) < 64 && ((b0 & 3) << 4) < 64) by (bit_vector);
        lemma_b64_char_val(b0 >> 2);
        lemma_b64_char_val((b0 & 3) << 4);
        assert(((b0 & 3) << 4) & 15 == 0) by (bit_vector);
        assert(((b0 >> 2) << 2) | (((b0 & 3) << 4) >> 4) == b0) by (bit_vector);
        assert(seq![b0] =~= s);
    } else if s.len() == 2 {
        let b0 = s[0];
        let b1 = s[1];
        assert((b0 >> 2) < 64 && (((b0 & 3) << 4) | (b1 >> 4)) < 64 && ((b1 & 15) << 2) < 64)
            by (bit_vector);
        lemma_b64_char_val(b0 >> 2);
        lemma_b64_char_val(((b0 & 3) << 4) | (b1 >> 4));
        lemma_b64_char_val((b1 & 15) << 2);
        assert(((b1 & 15) << 2) & 3 == 0) by (bit_vector);
        assert(((b0 >> 2) << 2) | ((((b0 & 3) << 4) | (b1 >> 4)) >> 4) == b0) by (bit_vector);
        assert(((((b0 & 3) << 4) | (b1 >> 4)) << 4) | (((b1 & 15) << 2) >> 2) == b1)
            by (bit_vector);
        assert(seq![b0, b1] =~= s);
    } else {
        let b0 = s[0];
        let b1 = s[1];
        let b2 = s[2];
        let head = seq![
            b64_char(b0 >> 2),
            b64_char(((b0 & 3) << 4) | (b1 >> 4)),
            b64_char(((b1 & 15) << 2) | (b2 >> 6)),
            b64_char(b2 & 63),
        ];
        let t = spec_b64_encode(s);
        let rest = spec_b64_encode(s.skip(3));
        assert(t == head + rest);
        assert(t.len() >= 4);
        assert(t[0] == head[0] && t[1] == head[1] && t[2] == head[2] && t[3] == head[3]);
        assert(t.skip(4) =~= rest);
        assert((b0 >> 2) < 64 && (((b0 & 3) << 4) | (b1 >> 4)) < 64 && ((((b1 & 15) << 2) | (b2
            >> 6))) < 64 && (b2 & 63) < 64) by (bit_vector);
        lemma_b64_char_val(b0 >> 2);
        lemma_b64_char_val(((b0 & 3) << 4) | (b1 >> 4));
        lemma_b64_char_val(((b1 & 15) << 2) | (b2 >> 6));
        lemma_b64_char_val(b2 & 63);
        assert(((b0 >> 2) << 2) | ((((b0 & 3) << 4) | (b1 >> 4)) >> 4) == b0) by (bit_vector);
        assert(((((b0 & 3) << 4) | (b1 >> 4)) << 4) | (((((b1 & 15) << 2) | (b2 >> 6))) >> 2)
            == b1) by (bit_vector);
        assert(((((b1 & 15) << 2) | (b2 >> 6)) << 6) | (b2 & 63) == b2) by (bit_vector);
        lemma_b64_round_trip(s.skip(3));
        assert(seq![b0, b1, b2] + s.skip(3) =~= s);
    }
}

/// The standard alphabet is the URL-safe one with its two last
/// characters exchanged for '+' and '/'.
pub open spec fn std_of_url(c: char) -> char {
    if c == '-' {
        '+'
    } else if c == '_' {
        '/'
    } else {
        c
    }
}

/// The padding that canonical padded base64 appends for a byte count.
pub open spec fn b64_padding(n: int) -> Seq<char> {
    if n % 3 == 1 {
        seq!['=', '=']
    } else if n % 3 == 2 {
        seq!['=']
    } else {
        Seq::empty()
    }
}

/// Canonical padded base64 of a byte sequence in the standard alphabet.
pub open spec fn spec_b64_std_encode(s: Seq<u8>) -> Seq<char> {
    spec_b64_encode(s).map_values(|c: char| std_of_url(c)) + b64_padding(s.len() as int)
}

/// Canonical padded base64 of a byte sequence in the URL-safe alphabet.
pub open spec fn spec_b64_url_pad_encode(s: Seq<u8>) -> Seq<char> {
    spec_b64_encode(s) + b64_padding(s.len() as int)
}

/// Relies on base64's `URL_SAFE_NO_PAD` engine `encode`: URL-safe
/// unpadded base64 of the input bytes.
#[verifier::external_body]
pub(crate) fn b64url_encode(data: &[u8]) -> (r: String)
    ensures
        r@ == spec_b64_encode(data@),
{
    base64::Engine::encode(&base64::engine::general_purpose::URL_SAFE_NO_PAD, data)
}

/// Relies on base64's `URL_SAFE_NO_PAD` engine `decode`: strict decoding
/// that accepts exactly the canonical unpadded encodings.
#[verifier::external_body]
pub(crate) fn b64url_decode(data: &str) -> (r: Option<Vec<u8>>)
    ensures
        match r {
            Some(v) => spec_b64_decode(data@) == Some(v@),
            None => spec_b64_decode(data@) is None,
        },
{
    base64::Engine::decode(&base64::engine::general_purpose::URL_SAFE_NO_PAD, data).ok()
}

/// Relies on base64's `STANDARD` engine `encode`: canonical padded
/// base64 in the standard alphabet.
#[verifier::external_body]
fn b64std_encode(data: &[u8]) -> (r: String)
    ensures
        r@ == spec_b64_std_encode(data@),
{
    base64::Engine::encode(&base64::engine::general_purpose::STANDARD, data)
}

/// Relies on base64's `STANDARD` engine `decode`: strict decoding that
/// accepts exactly the canonical padded encodings.
#[verifier::external_body]
fn b64std_decode(data: &str) -> (r: Option<Vec<u8>>)
    ensures
        match r {
            Some(v) => data@ == spec_b64_std_encode(v@),
            None => forall|v: Seq<u8>| data@ != spec_b64_std_encode(v),
        },
{
    base64::Engine::decode(&base64::engine::general_purpose::STANDARD, data).ok()
}

/// Relies on base64's `URL_SAFE` engine `encode`: canonical padded
/// base64 in the URL-safe alphabet.
#[verifier::external_body]
fn b64url_pad_encode(data: &[u8]) -> (r: String)
    ensures
        r@ == spec_b64_url_pad_encode(data@),
{
    base64::Engine::encode(&base64::engine::general_purpose::URL_SAFE, data)
}

/// Relies on base64's `URL_SAFE` engine `decode`: strict decoding that
/// accepts exactly the canonical padded encodings.
#[verifier::external_body]
fn b64url_pad_decode(data: &str) -> (r: Option<Vec<u8>>)
    ensures
        match r {
            Some(v) => data@ == spec_b64_url_pad_encode(v@),
            None => forall|v: Seq<u8>| data@ != spec_b64_url_pad_encode(v),
        },
{
    base64::Engine::decode(&base64::engine::general_purpose::URL_SAFE, data).ok()
}

/// What encoding buffered input produces for each format tag.
pub open spec fn spec_process_encode(format: Base64Format, data: Seq<u8>) -> Seq<char> {
    match format {
        Base64Format::Standard => spec_b64_std_encode(data),
        Base64Format::UrlSafe => spec_b64_url_pad_encode(data),
    }
}

/// Encodes buffered input as canonical padded base64 in the chosen
/// alphabet.
pub fn process_encode(data: &[u8], format: Base64Format) -> (r: String)
    ensures
        r@ == spec_process_encode(format, data@),
{
    match format {
        Base64Format::Standard => b64std_encode(data),
        Base64Format::UrlSafe => b64url_pad_encode(data),
    }
}

/// Decodes base64 text in the chosen alphabet. Exactly the canonical
/// padded encodings are accepted; everything else is a decode failure.
pub fn process_decode(data: &str, format: Base64Format) -> (r: Result<Vec<u8>, Error>)
    ensures
        match r {
            Ok(v) => data@ == spec_process_encode(format, v@),
            Err(e) => e == Error::DecodeFailure && (forall|v: Seq<u8>|
                data@ != spec_process_encode(format, v)),
        },
{
    let decoded = match format {
        Base64Format::Standard => b64std_decode(data),
        Base64Format::UrlSafe => b64url_pad_decode(data),
    };
    match decoded {
        Some(v) => Ok(v),
        None => Err(Error::DecodeFailure),
    }
}

} // verus!
