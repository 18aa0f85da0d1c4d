//! Tests of the base64 encode and decode commands.

use rcli::Base64Format;
use rcli::Error;
use rcli::process_decode;
use rcli::process_encode;

#[test]
fn test_encode_known_vectors() {
    assert_eq!(process_encode(b"", Base64Format::Standard), "");
    assert_eq!(process_encode(b"f", Base64Format::Standard), "Zg==");
    assert_eq!(process_encode(b"fo", Base64Format::Standard), "Zm8=");
    assert_eq!(process_encode(b"foo", Base64Format::Standard), "Zm9v");
    assert_eq!(process_encode(b"foob", Base64Format::Standard), "Zm9vYg==");
    assert_eq!(process_encode(b"fooba", Base64Format::Standard), "Zm9vYmE=");
    assert_eq!(process_encode(b"foobar", Base64Format::Standard), "Zm9vYmFy");
}

#[test]
fn test_encode_alphabets_differ() {
    // 0xfb 0xff uses the two characters on which the alphabets differ.
    let data = [0xfbu8, 0xff];
    assert_eq!(process_encode(&data, Base64Format::Standard), "+/8=");
    assert_eq!(process_encode(&data, Base64Format::UrlSafe), "-_8=");
}

#[test]
fn test_decode_round_trip() {
    let data = b"any binary\x00\xff payload".to_vec();
    for format in [Base64Format::Standard, Base64Format::UrlSafe] {
        let text = process_encode(&data, format);
        assert_eq!(process_decode(&text, format).unwrap(), data);
    }
}

#[test]
fn test_decode_rejects_malformed() {
    // Missing padding, wrong alphabet, an invalid symbol, and non-zero
    // trailing bits are each refused.
    assert_eq!(
        process_decode("Zg", Base64Format::Standard).unwrap_err(),
        Error::DecodeFailure
    );
    assert_eq!(
        process_decode("-_8=", Base64Format::Standard).unwrap_err(),
        Error::DecodeFailure
    );
    assert_eq!(
        process_decode("+/8=", Base64Format::UrlSafe).unwrap_err(),
        Error::DecodeFailure
    );
    assert_eq!(
        process_decode("Z!==", Base64Format::Standard).unwrap_err(),
        Error::DecodeFailure
    );
    assert_eq!(
        process_decode("Zh==", Base64Format::Standard).unwrap_err(),
        Error::DecodeFailure
    );
    assert_eq!(process_decode("Zg==", Base64Format::Standard).unwrap(), b"f");
}
