//! Tests of the text-protection core: signing, verification,
//! authenticated encryption, and key generation.

use base64::Engine;
use chacha20poly1305::aead::Aead;
use chacha20poly1305::aead::KeyInit;
use rcli::Error;
use rcli::TextSignFormat;
use rcli::process_text_decrypt;
use rcli::process_text_encrypt;
use rcli::process_text_key_generate;
use rcli::process_text_sign;
use rcli::process_text_verify;

/// The fixture key: the 32 bytes 0x00 through 0x1f.
fn fixture_key() -> Vec<u8> {
    let mut v = Vec::new();
    for i in 0..32u8 {
        v.push(i);
    }
    v
}

#[test]
fn test_process_text_sign() {
    let data = "hello".as_bytes();
    let key = fixture_key();
    let format = TextSignFormat::Blake3;
    let sig = process_text_sign(data, &key, format).unwrap();
    let ret = process_text_verify(data, &key, &sig, format).unwrap();
    assert!(ret);
}

#[test]
fn test_process_text_verify() {
    let data = "hello".as_bytes();
    let key = fixture_key();
    let format = TextSignFormat::Blake3;
    let sig = "IyeMGMjJ_g-_rfuUCvXwjT_RgCv5Gd1td-vSEaGfvik";
    let sig = base64::engine::general_purpose::URL_SAFE_NO_PAD
        .decode(sig)
        .unwrap();
    let ret = process_text_verify(data, &key, &sig, format).unwrap();
    assert!(ret);
}

#[test]
fn test_chacha20poly1305_encrypt_decrypt() {
    let key = fixture_key();
    let data = "a small fixed plaintext".as_bytes();
    let ciphertext = process_text_encrypt(data, &key).unwrap();
    let plaintext = process_text_decrypt(&ciphertext, &key).unwrap();
    assert_eq!(data, plaintext.as_bytes());
}

#[test]
fn test_keyed_hash_fixed_digest() {
    // The fixture scenario: "hello" under the fixture key has one fixed
    // digest, reproducible across implementations of the keyed hash.
    let key = fixture_key();
    let sig = process_text_sign("hello".as_bytes(), &key, TextSignFormat::Blake3).unwrap();
    let encoded = base64::engine::general_purpose::URL_SAFE_NO_PAD.encode(&sig);
    assert_eq!(encoded, "IyeMGMjJ_g-_rfuUCvXwjT_RgCv5Gd1td-vSEaGfvik");
    assert!(process_text_verify("hello".as_bytes(), &key, &sig, TextSignFormat::Blake3).unwrap());
    assert!(!process_text_verify("hellp".as_bytes(), &key, &sig, TextSignFormat::Blake3).unwrap());
}

#[test]
fn test_keyed_hash_digest_matches_reference() {
    // The library's keyed-hash signature must be the blake3 keyed hash
    // itself, byte for byte.
    let key = fixture_key();
    let data = "some reference input".as_bytes();
    let sig = process_text_sign(data, &key, TextSignFormat::Blake3).unwrap();
    let mut k = [0u8; 32];
    k.copy_from_slice(&key);
    let expected = blake3::keyed_hash(&k, data);
    assert_eq!(sig.as_slice(), expected.as_bytes());
}

#[test]
fn test_ed25519_signature_matches_reference() {
    // The library's asymmetric signature must be the deterministic
    // ed25519 signature itself, byte for byte.
    let key = fixture_key();
    let data = "some reference input".as_bytes();
    let sig = process_text_sign(data, &key, TextSignFormat::Ed25519).unwrap();
    let mut seed = [0u8; 32];
    seed.copy_from_slice(&key);
    let signing = ed25519_dalek::SigningKey::from_bytes(&seed);
    let expected = ed25519_dalek::Signer::sign(&signing, data);
    assert_eq!(sig.as_slice(), expected.to_bytes().as_slice());
    assert_eq!(sig.len(), 64);
}

#[test]
fn test_ed25519_sign_verify_round_trip() {
    let key = fixture_key();
    let data = "a message to protect".as_bytes();
    let sig = process_text_sign(data, &key, TextSignFormat::Ed25519).unwrap();
    let mut seed = [0u8; 32];
    seed.copy_from_slice(&key);
    let pk = ed25519_dalek::SigningKey::from_bytes(&seed)
        .verifying_key()
        .to_bytes();
    let ret = process_text_verify(data, &pk, &sig, TextSignFormat::Ed25519).unwrap();
    assert!(ret);
}

#[test]
fn test_different_inputs_verify_false() {
    let key = fixture_key();
    let sig = process_text_sign("first input".as_bytes(), &key, TextSignFormat::Blake3).unwrap();
    let ret =
        process_text_verify("second input".as_bytes(), &key, &sig, TextSignFormat::Blake3)
            .unwrap();
    assert!(!ret);

    let sig = process_text_sign("first input".as_bytes(), &key, TextSignFormat::Ed25519).unwrap();
    let mut seed = [0u8; 32];
    seed.copy_from_slice(&key);
    let pk = ed25519_dalek::SigningKey::from_bytes(&seed)
        .verifying_key()
        .to_bytes();
    let ret =
        process_text_verify("second input".as_bytes(), &pk, &sig, TextSignFormat::Ed25519)
            .unwrap();
    assert!(!ret);
}

#[test]
fn test_keyed_hash_signature_tamper() {
    // Flipping any bit of a valid keyed-hash signature must make
    // verification fail.
    let key = fixture_key();
    let data = "tamper target".as_bytes();
    let sig = process_text_sign(data, &key, TextSignFormat::Blake3).unwrap();
    for byte in 0..sig.len() {
        for bit in 0..8 {
            let mut bad = sig.clone();
            bad[byte] ^= 1u8 << bit;
            let ret = process_text_verify(data, &key, &bad, TextSignFormat::Blake3).unwrap();
            assert!(!ret);
        }
    }
}

#[test]
fn test_ed25519_signature_tamper() {
    // Flipping any bit of a valid asymmetric signature must make
    // verification fail.
    let key = fixture_key();
    let data = "tamper target".as_bytes();
    let sig = process_text_sign(data, &key, TextSignFormat::Ed25519).unwrap();
    let mut seed = [0u8; 32];
    seed.copy_from_slice(&key);
    let pk = ed25519_dalek::SigningKey::from_bytes(&seed)
        .verifying_key()
        .to_bytes();
    for byte in 0..sig.len() {
        for bit in 0..8 {
            let mut bad = sig.clone();
            bad[byte] ^= 1u8 << bit;
            let ret = process_text_verify(data, &pk, &bad, TextSignFormat::Ed25519).unwrap();
            assert!(!ret);
        }
    }
}

#[test]
fn test_key_generate_keyed_hash() {
    let entries = process_text_key_generate(TextSignFormat::Blake3).unwrap();
    assert_eq!(entries.len(), 1);
    assert_eq!(entries[0].name, "blake3.txt");
    assert_eq!(entries[0].data.len(), 32);
}

#[test]
fn test_key_generate_ed25519() {
    let entries = process_text_key_generate(TextSignFormat::Ed25519).unwrap();
    assert_eq!(entries.len(), 2);
    assert_eq!(entries[0].name, "ed25519.sk");
    assert_eq!(entries[1].name, "ed25519.pk");
    assert_eq!(entries[0].data.len(), 32);
    assert_eq!(entries[1].data.len(), 32);

    // The generated pair round-trips sign and verify.
    let data = "generated pair check".as_bytes();
    let sig = process_text_sign(data, &entries[0].data, TextSignFormat::Ed25519).unwrap();
    let ret = process_text_verify(data, &entries[1].data, &sig, TextSignFormat::Ed25519).unwrap();
    assert!(ret);
}

#[test]
fn test_key_generate_ed25519_twice_differs() {
    // Two generations draw fresh randomness and give different pairs.
    let first = process_text_key_generate(TextSignFormat::Ed25519).unwrap();
    let second = process_text_key_generate(TextSignFormat::Ed25519).unwrap();
    assert_ne!(first[0].data, second[0].data);
    assert_ne!(first[1].data, second[1].data);

    let data = "each pair works".as_bytes();
    for pair in [&first, &second] {
        let sig = process_text_sign(data, &pair[0].data, TextSignFormat::Ed25519).unwrap();
        let ret =
            process_text_verify(data, &pair[1].data, &sig, TextSignFormat::Ed25519).unwrap();
        assert!(ret);
    }
}

#[test]
fn test_encrypt_decrypt_across_instances() {
    // Only the key bytes and the ciphertext text cross between the two
    // calls, as between two independent invocations.
    let data = "plaintext that crosses invocations".as_bytes();
    let ciphertext = {
        let key = fixture_key();
        process_text_encrypt(data, &key).unwrap()
    };
    let plaintext = {
        let key = fixture_key();
        process_text_decrypt(&ciphertext, &key).unwrap()
    };
    assert_eq!(plaintext.as_bytes(), data);
}

#[test]
fn test_ciphertext_layout() {
    // The ciphertext text is canonical unpadded URL-safe base64 of a
    // 24-byte nonce followed by the plaintext length plus a 16-byte tag,
    // and the reference cipher opens it.
    let key = fixture_key();
    let data = "layout check".as_bytes();
    let text = process_text_encrypt(data, &key).unwrap();
    assert!(!text.contains('\n'));
    let framed = base64::engine::general_purpose::URL_SAFE_NO_PAD
        .decode(&text)
        .unwrap();
    assert_eq!(framed.len(), 24 + data.len() + 16);

    let cipher = chacha20poly1305::XChaCha20Poly1305::new(
        chacha20poly1305::Key::from_slice(&key),
    );
    let opened = cipher
        .decrypt(
            chacha20poly1305::XNonce::from_slice(&framed[..24]),
            &framed[24..],
        )
        .unwrap();
    assert_eq!(opened.as_slice(), data);
}

#[test]
fn test_ciphertext_tamper() {
    // Flipping any byte of the ciphertext text must surface as an
    // authentication failure, never as corrupted plaintext.
    let key = fixture_key();
    let data = "tamper detection".as_bytes();
    let text = process_text_encrypt(data, &key).unwrap();
    let bytes = text.as_bytes();
    for i in 0..bytes.len() {
        let mut bad = bytes.to_vec();
        bad[i] ^= 1;
        let bad_text = String::from_utf8(bad).unwrap();
        let ret = process_text_decrypt(&bad_text, &key);
        assert_eq!(ret.unwrap_err(), Error::AuthenticationFailure);
    }
}

#[test]
fn test_decrypt_wrong_key_fails() {
    let key = fixture_key();
    let text = process_text_encrypt("secret".as_bytes(), &key).unwrap();
    let mut other = fixture_key();
    other[0] ^= 0xff;
    let ret = process_text_decrypt(&text, &other);
    assert_eq!(ret.unwrap_err(), Error::AuthenticationFailure);
}

#[test]
fn test_decrypt_non_utf8_plaintext() {
    let key = fixture_key();
    let data: Vec<u8> = vec![0xff, 0xfe, 0x00, 0x80];
    let text = process_text_encrypt(&data, &key).unwrap();
    let ret = process_text_decrypt(&text, &key);
    assert_eq!(ret.unwrap_err(), Error::NonUtf8Output);
}

#[test]
fn test_short_key_is_malformed() {
    let key = [0u8; 31];
    let data = "anything".as_bytes();
    assert_eq!(
        process_text_sign(data, &key, TextSignFormat::Blake3).unwrap_err(),
        Error::MalformedKey
    );
    assert_eq!(
        process_text_sign(data, &key, TextSignFormat::Ed25519).unwrap_err(),
        Error::MalformedKey
    );
    assert_eq!(
        process_text_verify(data, &key, &[0u8; 32], TextSignFormat::Blake3).unwrap_err(),
        Error::MalformedKey
    );
    assert_eq!(
        process_text_verify(data, &key, &[0u8; 64], TextSignFormat::Ed25519).unwrap_err(),
        Error::MalformedKey
    );
    assert_eq!(
        process_text_encrypt(data, &key).unwrap_err(),
        Error::MalformedKey
    );
    assert_eq!(
        process_text_decrypt("xxxx", &key).unwrap_err(),
        Error::MalformedKey
    );
}

#[test]
fn test_ed25519_signature_length_checked() {
    // A signature of any length other than exactly 64 bytes is rejected
    // before verification, longer buffers included.
    let key = fixture_key();
    let data = "length check".as_bytes();
    let mut seed = [0u8; 32];
    seed.copy_from_slice(&key);
    let pk = ed25519_dalek::SigningKey::from_bytes(&seed)
        .verifying_key()
        .to_bytes();
    let sig = process_text_sign(data, &key, TextSignFormat::Ed25519).unwrap();

    let short = &sig[..63];
    assert_eq!(
        process_text_verify(data, &pk, short, TextSignFormat::Ed25519).unwrap_err(),
        Error::InvalidSignatureEncoding
    );
    let mut long = sig.clone();
    long.push(0);
    assert_eq!(
        process_text_verify(data, &pk, &long, TextSignFormat::Ed25519).unwrap_err(),
        Error::InvalidSignatureEncoding
    );
}

#[test]
fn test_invalid_public_key_rejected() {
    // Roughly half of all 32-byte values do not decode to a curve
    // point; the first such value among small ones must be rejected as
    // an invalid public key before any verification.
    let data = "any input".as_bytes();
    let mut found = false;
    for b in 0u8..=255 {
        let mut pk = [0u8; 32];
        pk[0] = b;
        if ed25519_dalek::VerifyingKey::from_bytes(&pk).is_err() {
            assert_eq!(
                process_text_verify(data, &pk, &[0u8; 64], TextSignFormat::Ed25519)
                    .unwrap_err(),
                Error::InvalidPublicKey
            );
            found = true;
            break;
        }
    }
    assert!(found);
}

#[test]
fn test_blake3_key_truncation() {
    // Longer key material than 32 bytes is used through its first 32
    // bytes exactly.
    let mut long_key = fixture_key();
    long_key.extend_from_slice(&[0xaa; 8]);
    let data = "truncation".as_bytes();
    let with_long = process_text_sign(data, &long_key, TextSignFormat::Blake3).unwrap();
    let with_exact = process_text_sign(data, &fixture_key(), TextSignFormat::Blake3).unwrap();
    assert_eq!(with_long, with_exact);
}
