//! The cryptographic primitives the core is built on.
//!
//! Each primitive is an outside call behind a small trusted wrapper. What
//! a primitive returns is a pure function of its arguments, so each result
//! is given a name, and the wrappers' contracts speak of those names; the
//! logic above them is verified against the contracts.

use chacha20poly1305::aead::Aead;
use chacha20poly1305::aead::KeyInit;
use vstd::prelude::*;

verus! {

/// The 32-byte keyed digest that `blake3::keyed_hash` computes.
pub uninterp spec fn blake3_keyed_digest(key: Seq<u8>, data: Seq<u8>) -> Seq<u8>;

/// The 64-byte deterministic signature that an Ed25519 signing key built
/// from `seed` produces over `data`.
pub uninterp spec fn ed25519_signature(seed: Seq<u8>, data: Seq<u8>) -> Seq<u8>;

/// The 32-byte public key of the Ed25519 signing key built from `seed`.
pub uninterp spec fn ed25519_public_key(seed: Seq<u8>) -> Seq<u8>;

/// Whether 32 bytes are a valid Ed25519 public-key encoding.
pub uninterp spec fn ed25519_key_valid(pk: Seq<u8>) -> bool;

/// Whether Ed25519 verification accepts `sig` over `data` under `pk`.
pub uninterp spec fn ed25519_accepts(pk: Seq<u8>, data: Seq<u8>, sig: Seq<u8>) -> bool;

/// The ciphertext-with-tag that XChaCha20-Poly1305 produces from a key, a
/// nonce and a plaintext.
pub uninterp spec fn xchacha_seal(key: Seq<u8>, nonce: Seq<u8>, data: Seq<u8>) -> Seq<u8>;

/// What XChaCha20-Poly1305 decryption returns for a key, a nonce and a
/// ciphertext-with-tag: the plaintext, or nothing when authentication
/// fails.
pub uninterp spec fn xchacha_open(key: Seq<u8>, nonce: Seq<u8>, data: Seq<u8>) -> Option<
    Seq<u8>,
>;

/// Relies on `blake3::keyed_hash` and `Hash::as_bytes`: the keyed digest
/// of the input, always 32 bytes.
#[verifier::external_body]
pub(crate) fn blake3_keyed_hash(key: &[u8], data: &[u8]) -> (r: Vec<u8>)
    requires
        key@.len() == 32,
    ensures
        r@ == blake3_keyed_digest(key@, data@),
        r@.len() == 32,
{
    let mut k = [0u8; 32];
    k.copy_from_slice(key);
    blake3::keyed_hash(&k, data).as_bytes().to_vec()
}

/// Relies on `ed25519_dalek::SigningKey::from_bytes` and `Signer::sign`:
/// a deterministic 64-byte signature that verifies under the signing
/// key's own public key.
#[verifier::external_body]
pub(crate) fn ed25519_sign(seed: &[u8], data: &[u8]) -> (r: Vec<u8>)
    requires
        seed@.len() == 32,
    ensures
        r@ == ed25519_signature(seed@, data@),
        r@.len() == 64,
        ed25519_accepts(ed25519_public_key(seed@), data@, r@),
{
    let mut s = [0u8; 32];
    s.copy_from_slice(seed);
    let key = ed25519_dalek::SigningKey::from_bytes(&s);
    let sig = ed25519_dalek::Signer::sign(&key, data);
    sig.to_bytes().to_vec()
}

/// Relies on `ed25519_dalek::SigningKey::verifying_key` and
/// `VerifyingKey::to_bytes`: the 32-byte public key of a seed, a valid
/// encoding by construction.
#[verifier::external_body]
pub(crate) fn ed25519_derive_public(seed: &[u8]) -> (r: Vec<u8>)
    requires
        seed@.len() == 32,
    ensures
        r@ == ed25519_public_key(seed@),
        r@.len() == 32,
        ed25519_key_valid(r@),
{
    let mut s = [0u8; 32];
    s.copy_from_slice(seed);
    let key = ed25519_dalek::SigningKey::from_bytes(&s);
    key.verifying_key().to_bytes().to_vec()
}

/// Relies on `ed25519_dalek::VerifyingKey::from_bytes`: it succeeds
/// exactly on valid public-key encodings.
#[verifier::external_body]
pub(crate) fn ed25519_check_public(pk: &[u8]) -> (r: bool)
    requires
        pk@.len() == 32,
    ensures
        r == ed25519_key_valid(pk@),
{
    let mut p = [0u8; 32];
    p.copy_from_slice(pk);
    ed25519_dalek::VerifyingKey::from_bytes(&p).is_ok()
}

/// Relies on `ed25519_dalek::VerifyingKey::from_bytes`,
/// `Signature::from_bytes` and `Verifier::verify`: whether the signature
/// verifies over the input under the public key.
#[verifier::external_body]
pub(crate) fn ed25519_verify(pk: &[u8], data: &[u8], sig: &[u8]) -> (r: bool)
    requires
        pk@.len() == 32,
        ed25519_key_valid(pk@),
        sig@.len() == 64,
    ensures
        r == ed25519_accepts(pk@, data@, sig@),
{
    let mut p = [0u8; 32];
    p.copy_from_slice(pk);
    let key = match ed25519_dalek::VerifyingKey::from_bytes(&p) {
        Ok(k) => k,
        Err(_) => return false,
    };
    let mut sb = [0u8; 64];
    sb.copy_from_slice(sig);
    let signature = ed25519_dalek::Signature::from_bytes(&sb);
    ed25519_dalek::Verifier::verify(&key, data, &signature).is_ok()
}

/// Relies on `chacha20poly1305::XChaCha20Poly1305` `encrypt`: the
/// ciphertext is the plaintext length plus the 16-byte tag, and opens
/// back to the plaintext under the same key and nonce. Encryption only
/// fails for plaintexts near 2^38 bytes, which the precondition excludes.
#[verifier::external_body]
pub(crate) fn xchacha_encrypt(key: &[u8], nonce: &[u8], data: &[u8]) -> (r: Vec<u8>)
    requires
        key@.len() == 32,
        nonce@.len() == 24,
        data@.len() + 64 < 0x4000000000,
    ensures
        r@ == xchacha_seal(key@, nonce@, data@),
        r@.len() == data@.len() + 16,
        xchacha_open(key@, nonce@, r@) == Some(data@),
{
    let cipher = chacha20poly1305::XChaCha20Poly1305::new(
        chacha20poly1305::Key::from_slice(key),
    );
    cipher.encrypt(chacha20poly1305::XNonce::from_slice(nonce), data).unwrap()
}

/// Relies on `chacha20poly1305::XChaCha20Poly1305` `decrypt`: the
/// plaintext when the tag authenticates, an error otherwise.
#[verifier::external_body]
pub(crate) fn xchacha_decrypt(key: &[u8], nonce: &[u8], data: &[u8]) -> (r: Option<Vec<u8>>)
    requires
        key@.len() == 32,
        nonce@.len() == 24,
    ensures
        match r {
            Some(p) => xchacha_open(key@, nonce@, data@) == Some(p@),
            None => xchacha_open(key@, nonce@, data@) is None,
        },
{
    let cipher = chacha20poly1305::XChaCha20Poly1305::new(
        chacha20poly1305::Key::from_slice(key),
    );
    cipher.decrypt(chacha20poly1305::XNonce::from_slice(nonce), data).ok()
}

/// Relies on `rand::rngs::OsRng` `fill_bytes`: bytes from the operating
/// system's secure random source; nothing is promised of their values.
#[verifier::external_body]
pub(crate) fn random_bytes(n: usize) -> (r: Vec<u8>)
    ensures
        r@.len() == n,
{
    let mut v = vec![0u8; n];
    rand::RngCore::fill_bytes(&mut rand::rngs::OsRng, &mut v);
    v
}

/// Relies on `String::from_utf8`: it succeeds exactly on valid UTF-8 and
/// decodes it.
#[verifier::external_body]
pub(crate) fn utf8_string(v: Vec<u8>) -> (r: Option<String>)
    ensures
        match r {
            Some(s) => vstd::utf8::valid_utf8(v@) && s@ == vstd::utf8::decode_utf8(v@),
            None => !vstd::utf8::valid_utf8(v@),
        },
{
    String::from_utf8(v).ok()
}

} // verus!
