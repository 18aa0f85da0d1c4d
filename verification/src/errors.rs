//! The typed, recoverable errors of the library.
//!
//! Every failure of the core is surfaced as one of these values; no
//! operation of the library aborts the process.

use vstd::prelude::*;

verus! {

/// Everything that can go wrong in the text-protection core.
#[derive(Clone, Copy, Debug, PartialEq, Eq, Structural)]
pub enum Error {
    /// An input source could not be reached or read.
    IoFailure,
    /// Key material is shorter than the scheme requires.
    MalformedKey,
    /// Public-key bytes do not decode to a valid curve point.
    InvalidPublicKey,
    /// A signature is not of the scheme's exact expected length.
    InvalidSignatureEncoding,
    /// An authentication tag did not match during decryption.
    AuthenticationFailure,
    /// Malformed base64 where decoding is mandatory.
    DecodeFailure,
    /// Decrypted bytes are not valid UTF-8 text.
    NonUtf8Output,
    /// An unrecognized scheme tag.
    UnsupportedScheme,
}

impl Error {
    /// A short human-readable description of the error.
    pub fn as_text(&self) -> (r: &'static str)
        ensures
            r@ == self.spec_text(),
    {
        match self {
            Error::IoFailure => "input could not be read",
            Error::MalformedKey => "key material is too short",
            Error::InvalidPublicKey => "public key bytes are not a valid key",
            Error::InvalidSignatureEncoding => "signature has the wrong length",
            Error::AuthenticationFailure => "ciphertext failed authentication",
            Error::DecodeFailure => "input is not valid base64",
            Error::NonUtf8Output => "decrypted bytes are not valid UTF-8",
            Error::UnsupportedScheme => "unrecognized scheme tag",
        }
    }

    /// What `as_text` returns for each variant.
    pub open spec fn spec_text(&self) -> Seq<char> {
        match self {
            Error::IoFailure => "input could not be read"@,
            Error::MalformedKey => "key material is too short"@,
            Error::InvalidPublicKey => "public key bytes are not a valid key"@,
            Error::InvalidSignatureEncoding => "signature has the wrong length"@,
            Error::AuthenticationFailure => "ciphertext failed authentication"@,
            Error::DecodeFailure => "input is not valid base64"@,
            Error::NonUtf8Output => "decrypted bytes are not valid UTF-8"@,
            Error::UnsupportedScheme => "unrecognized scheme tag"@,
        }
    }
}

} // verus!
