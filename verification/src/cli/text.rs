//! Options and the scheme tag for the text-protection commands.

use vstd::prelude::*;

use crate::cli::eq_ignore_ascii_case;
use crate::cli::spec_lower;
use crate::errors::Error;

verus! {

/// The text-protection subcommands.
#[derive(Debug, Clone)]
pub enum TextSubCommand {
    Sign(TextSingOpts),
    Verify(TextVerifyOpts),
    Generate(KeyGenerateOpts),
    Encrypt(TextEncryptOpts),
    Decrypt(TextDecryptOpts),
}

/// Options of the sign command.
#[derive(Debug, Clone)]
pub struct TextSingOpts {
    pub input: String,
    pub key: String,
    pub format: TextSignFormat,
}

/// Options of the verify command.
#[derive(Debug, Clone)]
pub struct TextVerifyOpts {
    pub input: String,
    pub key: String,
    pub sig: String,
    pub format: TextSignFormat,
}

/// Options of the key-generation command.
#[derive(Debug, Clone)]
pub struct KeyGenerateOpts {
    pub format: TextSignFormat,
    pub output_path: String,
}

/// Options of the encrypt command.
#[derive(Debug, Clone)]
pub struct TextEncryptOpts {
    pub input: String,
    pub key: String,
}

/// Options of the decrypt command.
#[derive(Debug, Clone)]
pub struct TextDecryptOpts {
    pub input: String,
    pub key: String,
}

/// The closed set of signature schemes.
#[derive(Debug, Clone, Copy, PartialEq, Eq, Structural)]
pub enum TextSignFormat {
    Blake3,
    Ed25519,
}

impl TextSignFormat {
    /// The canonical tag of the scheme.
    pub fn text(&self) -> (r: &'static str)
        ensures
            r@ == self.spec_text(),
    {
        match self {
            TextSignFormat::Blake3 => "blake3",
            TextSignFormat::Ed25519 => "ed25519",
        }
    }

    /// What `text` returns for each scheme.
    pub open spec fn spec_text(&self) -> Seq<char> {
        match self {
            TextSignFormat::Blake3 => "blake3"@,
            TextSignFormat::Ed25519 => "ed25519"@,
        }
    }
}

/// What `parse_text_sign_format` returns: the scheme whose tag the input
/// matches up to ASCII case, or `UnsupportedScheme`.
pub open spec fn spec_parse_text_sign_format(s: Seq<char>) -> Result<TextSignFormat, Error> {
    if spec_lower(s) == "blake3"@ {
        Ok(TextSignFormat::Blake3)
    } else if spec_lower(s) == "ed25519"@ {
        Ok(TextSignFormat::Ed25519)
    } else {
        Err(Error::UnsupportedScheme)
    }
}

/// Parses a scheme tag, case-insensitively.
pub fn parse_text_sign_format(s: &str) -> (r: Result<TextSignFormat, Error>)
    ensures
        r == spec_parse_text_sign_format(s@),
{
    proof {
        reveal_strlit("blake3");
        reveal_strlit("ed25519");
        crate::cli::lemma_lower_id("blake3"@);
        crate::cli::lemma_lower_id("ed25519"@);
    }
    if eq_ignore_ascii_case(s, "blake3") {
        Ok(TextSignFormat::Blake3)
    } else if eq_ignore_ascii_case(s, "ed25519") {
        Ok(TextSignFormat::Ed25519)
    } else {
        Err(Error::UnsupportedScheme)
    }
}

} // verus!
