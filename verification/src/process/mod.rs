//! The verified processing core: signing, verification, authenticated
//! encryption, and key generation.

mod b64;
mod primitives;
mod text;

pub use b64::process_decode;
pub use b64::process_encode;
pub use b64::lemma_b64_round_trip;
pub use b64::spec_b64_decode;
pub use b64::spec_b64_encode;
pub use b64::spec_b64_std_encode;
pub use b64::spec_b64_url_pad_encode;
pub use b64::spec_process_encode;
pub use primitives::blake3_keyed_digest;
pub use primitives::ed25519_accepts;
pub use primitives::ed25519_key_valid;
pub use primitives::ed25519_public_key;
pub use primitives::ed25519_signature;
pub use primitives::xchacha_open;
pub use primitives::xchacha_seal;
pub use text::Blake3;
pub use text::ChaCha20Poly1305Key;
pub use text::Crypto;
pub use text::KeyMaterial;
pub use text::Ed25519Signer;
pub use text::Ed25519Verifier;
pub use text::KeyEntry;
pub use text::TextSigner;
pub use text::TextVerifier;
pub use text::key32;
pub use text::lemma_keyed_hash_round_trip;
pub use text::lemma_keyed_hash_tamper;
pub use text::lemma_ciphertext_framing;
pub use text::process_text_decrypt;
pub use text::process_text_encrypt;
pub use text::process_text_key_generate;
pub use text::process_text_sign;
pub use text::process_text_verify;
pub use text::spec_cipher_decrypt;
pub use text::spec_cipher_decrypt_bytes;
pub use text::spec_open_framed;
pub use text::spec_signature_length;
pub use text::spec_text_sign;
pub use text::spec_text_verify;
