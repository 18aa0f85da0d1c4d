//! A small command-line toolkit library whose core is a text-protection
//! subsystem: keyed-hash and asymmetric signing, signature verification,
//! authenticated encryption and decryption, and generation of fresh key
//! material, selectable by named scheme.

mod cli;
mod errors;
mod process;

pub use cli::Base64DecodeOpts;
pub use cli::Base64EncodeOpts;
pub use cli::Base64Format;
pub use cli::Base64SubCommand;
pub use cli::CsvOpts;
pub use cli::GenPassOpts;
pub use cli::HttpServeOpts;
pub use cli::HttpSubCommand;
pub use cli::JwtKeyType;
pub use cli::KeyGenerateOpts;
pub use cli::OutputFormat;
pub use cli::TextDecryptOpts;
pub use cli::TextEncryptOpts;
pub use cli::TextSignFormat;
pub use cli::TextSingOpts;
pub use cli::TextSubCommand;
pub use cli::TextVerifyOpts;
pub use cli::eq_ignore_ascii_case;
pub use cli::parse_base64_format;
pub use cli::parse_key_type;
pub use cli::parse_text_sign_format;
pub use cli::parser_format;
pub use cli::spec_lower;
pub use cli::spec_parse_base64_format;
pub use cli::spec_parse_key_type;
pub use cli::spec_parse_text_sign_format;
pub use cli::spec_parser_format;
pub use errors::Error;
pub use process::Blake3;
pub use process::ChaCha20Poly1305Key;
pub use process::Crypto;
pub use process::KeyMaterial;
pub use process::Ed25519Signer;
pub use process::Ed25519Verifier;
pub use process::KeyEntry;
pub use process::TextSigner;
pub use process::TextVerifier;
pub use process::blake3_keyed_digest;
pub use process::ed25519_accepts;
pub use process::ed25519_key_valid;
pub use process::ed25519_public_key;
pub use process::ed25519_signature;
pub use process::key32;
pub use process::lemma_b64_round_trip;
pub use process::lemma_ciphertext_framing;
pub use process::lemma_keyed_hash_round_trip;
pub use process::lemma_keyed_hash_tamper;
pub use process::process_decode;
pub use process::process_encode;
pub use process::process_text_decrypt;
pub use process::process_text_encrypt;
pub use process::process_text_key_generate;
pub use process::process_text_sign;
pub use process::process_text_verify;
pub use process::spec_b64_decode;
pub use process::spec_b64_encode;
pub use process::spec_cipher_decrypt;
pub use process::spec_cipher_decrypt_bytes;
pub use process::spec_open_framed;
pub use process::spec_process_encode;
pub use process::spec_signature_length;
pub use process::spec_text_sign;
pub use process::spec_text_verify;
pub use process::xchacha_open;
pub use process::xchacha_seal;
