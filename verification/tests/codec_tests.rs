use sm2_envelope::codec::{decode_hex, encode_hex};
use sm2_envelope::service::digest_of;
use sm2_envelope::AppError;

#[test]
fn encode_is_prefixed_lowercase() {
    assert_eq!(encode_hex(&[0xabu8, 0x01, 0xff]), "0xab01ff");
    assert_eq!(encode_hex(&[]), "0x");
}

#[test]
fn decode_accepts_prefixed_and_bare() {
    let bare = decode_hex("deadbeef").unwrap();
    let prefixed = decode_hex("0xdeadbeef").unwrap();
    assert_eq!(bare, vec![0xde, 0xad, 0xbe, 0xef]);
    assert_eq!(bare, prefixed);
}

#[test]
fn decode_accepts_upper_case() {
    assert_eq!(decode_hex("0xDEADBEEF").unwrap(), vec![0xde, 0xad, 0xbe, 0xef]);
}

#[test]
fn round_trip_bytes() {
    let cases: Vec<Vec<u8>> = vec![
        vec![0x00],
        vec![0xff],
        vec![0xde, 0xad, 0xbe, 0xef],
        (0u8..=255).collect(),
    ];
    for b in cases {
        assert_eq!(decode_hex(&encode_hex(&b)).unwrap(), b);
    }
}

#[test]
fn bare_prefix_is_not_valid_hex() {
    // The rendering of no bytes is "0x": too short to carry the prefix
    // convention, and 'x' is no hex digit.
    assert_eq!(decode_hex("0x"), Err(AppError::FromHexError));
}

#[test]
fn odd_length_and_bad_digits_are_errors() {
    assert_eq!(decode_hex("abc"), Err(AppError::FromHexError));
    assert_eq!(decode_hex("0xabc"), Err(AppError::FromHexError));
    assert_eq!(decode_hex("zz"), Err(AppError::FromHexError));
    assert_eq!(decode_hex("0x12g4"), Err(AppError::FromHexError));
}

#[test]
fn empty_text_decodes_to_no_bytes() {
    assert_eq!(decode_hex("").unwrap(), Vec::<u8>::new());
}

#[test]
fn digest_of_matches_known_vector() {
    // SM3("abc"), the standard's own example vector.
    let d = digest_of("0x616263").unwrap();
    assert_eq!(
        d,
        "0x66c7f0f462eeedd9d1f2d46bdc10e4e24167c4875cf2f7a2297da02b8f4ba8e0"
    );
}

#[test]
fn digest_of_rejects_bad_hex() {
    assert_eq!(digest_of("0xzz"), Err(AppError::FromHexError));
}
