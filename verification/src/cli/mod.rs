//! Option types and tag parsing for the command-line surface.
//!
//! Scheme and format tags are matched case-insensitively, so the helpers
//! here model ASCII lowercasing of character sequences.

mod base64;
mod csv;
mod genpass;
mod http;
mod jwt;
mod text;

pub use base64::Base64DecodeOpts;
pub use base64::Base64EncodeOpts;
pub use base64::Base64Format;
pub use base64::Base64SubCommand;
pub use base64::parse_base64_format;
pub use base64::spec_parse_base64_format;
pub use csv::CsvOpts;
pub use csv::OutputFormat;
pub use csv::parser_format;
pub use csv::spec_parser_format;
pub use genpass::GenPassOpts;
pub use http::HttpServeOpts;
pub use http::HttpSubCommand;
pub use jwt::JwtKeyType;
pub use jwt::parse_key_type;
pub use jwt::spec_parse_key_type;
pub use text::KeyGenerateOpts;
pub use text::TextDecryptOpts;
pub use text::TextEncryptOpts;
pub use text::TextSignFormat;
pub use text::TextSingOpts;
pub use text::TextSubCommand;
pub use text::TextVerifyOpts;
pub use text::parse_text_sign_format;
pub use text::spec_parse_text_sign_format;

use vstd::prelude::*;

verus! {

/// ASCII lowercasing of a single character; anything outside 'A'..'Z'
/// is left as it is.
pub open spec fn spec_lower_char(c: char) -> char {
    if 65 <= c as u32 <= 90 {
        ((c as u32) + 32) as char
    } else {
        c
    }
}

/// ASCII lowercasing of a character sequence.
pub open spec fn spec_lower(s: Seq<char>) -> Seq<char> {
    s.map_values(|c: char| spec_lower_char(c))
}

/// The lowered code point of a character.
fn lower_code(c: char) -> (r: u32)
    ensures
        r == spec_lower_char(c) as u32,
{
    let u = c as u32;
    if 65 <= u && u <= 90 {
        proof {
            vstd::utf8::char_is_scalar(c);
        }
        assert(((u + 32) as char) as u32 == u + 32);
        u + 32
    } else {
        u
    }
}

/// A sequence with no ASCII uppercase characters is its own lowercasing.
pub proof fn lemma_lower_id(s: Seq<char>)
    requires
        forall|i: int| 0 <= i < s.len() ==> !(65 <= #[trigger] s[i] as u32 <= 90),
    ensures
        spec_lower(s) == s,
{
    assert(spec_lower(s) =~= s);
}

/// Whether two strings are equal up to ASCII case.
pub fn eq_ignore_ascii_case(s: &str, t: &str) -> (r: bool)
    ensures
        r == (spec_lower(s@) == spec_lower(t@)),
{
    let n = s.unicode_len();
    let m = t.unicode_len();
    if n != m {
        assert(spec_lower(s@).len() != spec_lower(t@).len());
        return false;
    }
    let mut i: usize = 0;
    while i < n
        invariant
            i <= n,
            n == s@.len(),
            n == t@.len(),
            forall|j: int| 0 <= j < i ==> spec_lower(s@)[j] == spec_lower(t@)[j],
        decreases n - i,
    {
        let a = lower_code(s.get_char(i));
        let b = lower_code(t.get_char(i));
        if a != b {
            proof {
                vstd::utf8::char_u32_cast(
                    spec_lower_char(s@[i as int]),
                    spec_lower_char(s@[i as int]) as u32,
                );
                vstd::utf8::char_u32_cast(
                    spec_lower_char(t@[i as int]),
                    spec_lower_char(t@[i as int]) as u32,
                );
            }
            assert(spec_lower(s@)[i as int] != spec_lower(t@)[i as int]);
            return false;
        }
        proof {
            vstd::utf8::char_u32_cast(
                spec_lower_char(s@[i as int]),
                spec_lower_char(s@[i as int]) as u32,
            );
            vstd::utf8::char_u32_cast(
                spec_lower_char(t@[i as int]),
                spec_lower_char(t@[i as int]) as u32,
            );
        }
        i = i + 1;
    }
    assert(spec_lower(s@) =~= spec_lower(t@));
    true
}

} // verus!
