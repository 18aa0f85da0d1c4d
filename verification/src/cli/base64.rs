//! Options and format tag of the base64 commands.

use vstd::prelude::*;

use crate::cli::eq_ignore_ascii_case;
use crate::cli::spec_lower;
use crate::errors::Error;

verus! {

/// The base64 subcommands.
#[derive(Debug, Clone)]
pub enum Base64SubCommand {
    Encode(Base64EncodeOpts),
    Decode(Base64DecodeOpts),
}

/// Options of the encode command.
#[derive(Debug, Clone)]
pub struct Base64EncodeOpts {
    pub input: String,
    pub format: Base64Format,
}

/// Options of the decode command.
#[derive(Debug, Clone)]
pub struct Base64DecodeOpts {
    pub output: String,
    pub format: Base64Format,
}

/// The supported base64 alphabets.
#[derive(Debug, Clone, Copy, PartialEq, Eq, Structural)]
pub enum Base64Format {
    Standard,
    UrlSafe,
}

impl Base64Format {
    /// The canonical tag of the format.
    pub fn text(&self) -> (r: &'static str)
        ensures
            r@ == self.spec_text(),
    {
        match self {
            Base64Format::Standard => "standard",
            Base64Format::UrlSafe => "urlsafe",
        }
    }

    /// What `text` returns for each format.
    pub open spec fn spec_text(&self) -> Seq<char> {
        match self {
            Base64Format::Standard => "standard"@,
            Base64Format::UrlSafe => "urlsafe"@,
        }
    }
}

/// What `parse_base64_format` returns: the format whose tag the input
/// matches up to ASCII case, or `UnsupportedScheme`.
pub open spec fn spec_parse_base64_format(s: Seq<char>) -> Result<Base64Format, Error> {
    if spec_lower(s) == "standard"@ {
        Ok(Base64Format::Standard)
    } else if spec_lower(s) == "urlsafe"@ {
        Ok(Base64Format::UrlSafe)
    } else {
        Err(Error::UnsupportedScheme)
    }
}

/// Parses a base64 format tag, case-insensitively.
pub fn parse_base64_format(s: &str) -> (r: Result<Base64Format, Error>)
    ensures
        r == spec_parse_base64_format(s@),
{
    proof {
        reveal_strlit("standard");
        reveal_strlit("urlsafe");
        crate::cli::lemma_lower_id("standard"@);
        crate::cli::lemma_lower_id("urlsafe"@);
    }
    if eq_ignore_ascii_case(s, "standard") {
        Ok(Base64Format::Standard)
    } else if eq_ignore_ascii_case(s, "urlsafe") {
        Ok(Base64Format::UrlSafe)
    } else {
        Err(Error::UnsupportedScheme)
    }
}

} // verus!
