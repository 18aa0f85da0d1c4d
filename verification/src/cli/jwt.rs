//! The key-material kinds of the token commands.

use vstd::prelude::*;

use crate::cli::eq_ignore_ascii_case;
use crate::cli::spec_lower;
use crate::errors::Error;

verus! {

/// How token key material is supplied.
#[derive(Debug, Clone, Copy, PartialEq, Eq, Structural)]
pub enum JwtKeyType {
    Secret,
    Base64Secret,
    Rsa,
    ECDSA,
    EdDSA,
    RsaDer,
    ECDSADer,
    EdDSADer,
}

impl JwtKeyType {
    /// The canonical tag of the key kind.
    pub fn text(&self) -> (r: &'static str)
        ensures
            r@ == self.spec_text(),
    {
        match self {
            JwtKeyType::Secret => "secret",
            JwtKeyType::Base64Secret => "base64Secret",
            JwtKeyType::Rsa => "rsa",
            JwtKeyType::ECDSA => "ecdsa",
            JwtKeyType::EdDSA => "eddsa",
            JwtKeyType::RsaDer => "rsaDer",
            JwtKeyType::ECDSADer => "ecdsaDer",
            JwtKeyType::EdDSADer => "eddsaDer",
        }
    }

    /// What `text` returns for each kind.
    pub open spec fn spec_text(&self) -> Seq<char> {
        match self {
            JwtKeyType::Secret => "secret"@,
            JwtKeyType::Base64Secret => "base64Secret"@,
            JwtKeyType::Rsa => "rsa"@,
            JwtKeyType::ECDSA => "ecdsa"@,
            JwtKeyType::EdDSA => "eddsa"@,
            JwtKeyType::RsaDer => "rsaDer"@,
            JwtKeyType::ECDSADer => "ecdsaDer"@,
            JwtKeyType::EdDSADer => "eddsaDer"@,
        }
    }
}

/// What `parse_key_type` returns: the key kind whose tag the input
/// matches up to ASCII case, or `UnsupportedScheme`.
pub open spec fn spec_parse_key_type(s: Seq<char>) -> Result<JwtKeyType, Error> {
    if spec_lower(s) == "secret"@ {
        Ok(JwtKeyType::Secret)
    } else if spec_lower(s) == "base64-secret"@ {
        Ok(JwtKeyType::Base64Secret)
    } else if spec_lower(s) == "rsa"@ {
        Ok(JwtKeyType::Rsa)
    } else if spec_lower(s) == "ecdsa"@ {
        Ok(JwtKeyType::ECDSA)
    } else if spec_lower(s) == "eddsa"@ {
        Ok(JwtKeyType::EdDSA)
    } else if spec_lower(s) == "rsa-der"@ {
        Ok(JwtKeyType::RsaDer)
    } else if spec_lower(s) == "ecdsa-der"@ {
        Ok(JwtKeyType::ECDSADer)
    } else if spec_lower(s) == "eddsa-der"@ {
        Ok(JwtKeyType::EdDSADer)
    } else {
        Err(Error::UnsupportedScheme)
    }
}

/// Parses a key-kind tag, case-insensitively.
pub fn parse_key_type(s: &str) -> (r: Result<JwtKeyType, Error>)
    ensures
        r == spec_parse_key_type(s@),
{
    proof {
        reveal_strlit("secret");
        reveal_strlit("base64-secret");
        reveal_strlit("rsa");
        reveal_strlit("ecdsa");
        reveal_strlit("eddsa");
        reveal_strlit("rsa-der");
        reveal_strlit("ecdsa-der");
        reveal_strlit("eddsa-der");
        crate::cli::lemma_lower_id("secret"@);
        crate::cli::lemma_lower_id("base64-secret"@);
        crate::cli::lemma_lower_id("rsa"@);
        crate::cli::lemma_lower_id("ecdsa"@);
        crate::cli::lemma_lower_id("eddsa"@);
        crate::cli::lemma_lower_id("rsa-der"@);
        crate::cli::lemma_lower_id("ecdsa-der"@);
        crate::cli::lemma_lower_id("eddsa-der"@);
    }
    if eq_ignore_ascii_case(s, "secret") {
        Ok(JwtKeyType::Secret)
    } else if eq_ignore_ascii_case(s, "base64-secret") {
        Ok(JwtKeyType::Base64Secret)
    } else if eq_ignore_ascii_case(s, "rsa") {
        Ok(JwtKeyType::Rsa)
    } else if eq_ignore_ascii_case(s, "ecdsa") {
        Ok(JwtKeyType::ECDSA)
    } else if eq_ignore_ascii_case(s, "eddsa") {
        Ok(JwtKeyType::EdDSA)
    } else if eq_ignore_ascii_case(s, "rsa-der") {
        Ok(JwtKeyType::RsaDer)
    } else if eq_ignore_ascii_case(s, "ecdsa-der") {
        Ok(JwtKeyType::ECDSADer)
    } else if eq_ignore_ascii_case(s, "eddsa-der") {
        Ok(JwtKeyType::EdDSADer)
    } else {
        Err(Error::UnsupportedScheme)
    }
}

} // verus!
