use libsm::sm2::signature::SigCtx;

use sm2_envelope::codec::encode_hex;
use sm2_envelope::service::{sign, verify};
use sm2_envelope::AppError;

#[test]
fn test_sign_should_eq_signature_len() {
    let ctx = SigCtx::new();
    let (_pk, sk) = ctx.new_keypair();
    let privk_hex = encode_hex(&sk.to_bytes_be());
    let data_hex = "0xffff";

    let signature = sign(&privk_hex, data_hex).unwrap();
    assert_eq!(signature.len(), 128)
}

#[test]
fn test_verify_should_be_true() {
    let ctx = SigCtx::new();
    let (pk, sk) = ctx.new_keypair();
    let pubk_hex = encode_hex(&ctx.serialize_pubkey(&pk, false));
    let privk_hex = encode_hex(&ctx.serialize_seckey(&sk));
    let data_hex = "0xffff";

    let signature = sign(&privk_hex, data_hex).unwrap();
    let signature_hex = encode_hex(&signature);
    let result = verify(&pubk_hex, &signature_hex, data_hex).unwrap();
    assert_eq!(result, true)
}

#[test]
fn test_verify_should_be_false() {
    let ctx = SigCtx::new();
    let (pk, sk) = ctx.new_keypair();
    let pubk_hex = encode_hex(&ctx.serialize_pubkey(&pk, false));
    let privk_hex = encode_hex(&ctx.serialize_seckey(&sk));
    let data_hex = "0xffff";

    let signature = sign(&privk_hex, data_hex).unwrap();
    let signature_hex = encode_hex(&signature);

    let data_hex = "0xffffff";
    let result = verify(&pubk_hex, &signature_hex, data_hex).unwrap();
    assert_eq!(result, false)
}

// A fixed keypair: the scalar 1 is a valid private key, and its public key
// is derived deterministically. Signing the digest 0xffff must give a
// 128-byte envelope (258 hex characters with the prefix) that verifies
// against the same digest and fails against 0xffffff.
#[test]
fn fixed_keypair_scenario() {
    let privk_hex = "0x0000000000000000000000000000000000000000000000000000000000000001";
    let ctx = SigCtx::new();
    let sk = ctx
        .load_seckey(&sm2_envelope::codec::decode_hex(privk_hex).unwrap())
        .unwrap();
    let pk = ctx.pk_from_sk(&sk);
    let pubk_hex = encode_hex(&ctx.serialize_pubkey(&pk, false));

    let signature = sign(privk_hex, "0xffff").unwrap();
    assert_eq!(signature.len(), 128);
    let signature_hex = encode_hex(&signature);
    assert_eq!(signature_hex.len(), 258);

    assert_eq!(verify(&pubk_hex, &signature_hex, "0xffff").unwrap(), true);
    assert_eq!(verify(&pubk_hex, &signature_hex, "0xffffff").unwrap(), false);
}

// The embedded-key short-circuit: an envelope signed by one keypair is
// rejected when presented with another keypair's public key, although its
// signature fields would validate against the embedded key.
#[test]
fn key_mismatch_is_rejected() {
    let ctx = SigCtx::new();
    let (pk_a, sk_a) = ctx.new_keypair();
    let (pk_b, _sk_b) = ctx.new_keypair();
    let pubk_a_hex = encode_hex(&ctx.serialize_pubkey(&pk_a, false));
    let pubk_b_hex = encode_hex(&ctx.serialize_pubkey(&pk_b, false));
    let privk_a_hex = encode_hex(&ctx.serialize_seckey(&sk_a));

    let signature = sign(&privk_a_hex, "0xffff").unwrap();
    let signature_hex = encode_hex(&signature);

    assert_eq!(verify(&pubk_a_hex, &signature_hex, "0xffff").unwrap(), true);
    assert_eq!(verify(&pubk_b_hex, &signature_hex, "0xffff").unwrap(), false);
}

// Flipping a single bit anywhere in the r ‖ s region of a valid envelope
// must flip the verdict to false.
#[test]
fn tampered_signature_is_rejected() {
    let ctx = SigCtx::new();
    let (pk, sk) = ctx.new_keypair();
    let pubk_hex = encode_hex(&ctx.serialize_pubkey(&pk, false));
    let privk_hex = encode_hex(&ctx.serialize_seckey(&sk));

    let mut signature = sign(&privk_hex, "0xffff").unwrap();
    signature[17] ^= 0x20;
    let signature_hex = encode_hex(&signature);
    assert_eq!(verify(&pubk_hex, &signature_hex, "0xffff").unwrap(), false);
}

// Wrong lengths are the verdict false, never an error.
#[test]
fn wrong_lengths_give_false_not_error() {
    let ctx = SigCtx::new();
    let (pk, _sk) = ctx.new_keypair();
    let pubk_hex = encode_hex(&ctx.serialize_pubkey(&pk, false));

    // 127-byte envelope.
    let short_env_hex = encode_hex(&vec![0u8; 127]);
    assert_eq!(verify(&pubk_hex, &short_env_hex, "0xffff").unwrap(), false);

    // 64-byte public key against a 128-byte envelope.
    let env_hex = encode_hex(&vec![0u8; 128]);
    let short_key_hex = encode_hex(&vec![4u8; 64]);
    assert_eq!(verify(&short_key_hex, &env_hex, "0xffff").unwrap(), false);
}

// Malformed input encoding is a request error, kept apart from rejection.
#[test]
fn malformed_hex_is_an_error() {
    assert_eq!(sign("0xzz", "0xffff"), Err(AppError::FromHexError));
    assert_eq!(sign("abc", "0xffff"), Err(AppError::FromHexError));
    assert!(matches!(
        verify("0xgg", "0x00", "0x00"),
        Err(AppError::FromHexError)
    ));
}

// The scalar order - 1 is in range, but the curve library cannot sign with
// it (it would invert the order itself), so signing reports it as a
// conversion failure instead of aborting.
#[test]
fn order_minus_one_key_is_a_conversion_error() {
    let privk_hex = "0xfffffffeffffffffffffffffffffffff7203df6b21c6052b53bbf40939d54122";
    assert_eq!(sign(privk_hex, "0xffff"), Err(AppError::ConversionError));
}

// Signature fields crafted so that the combined verification point is the
// curve's identity: r = order - 2, s = 1 against the base point as public
// key. The verdict must be false, not a crash.
#[test]
fn identity_point_envelope_is_rejected() {
    let gx = "32c4ae2c1f1981195f9904466a39c9948fe30bbff2660be1715a4589334c74c7";
    let gy = "bc3736a2f4f6779c59bdcee36b692153d0a9877cc62a474002df32e52139f0a0";
    let r = "fffffffeffffffffffffffffffffffff7203df6b21c6052b53bbf40939d54121";
    let s = "0000000000000000000000000000000000000000000000000000000000000001";
    let pubk_hex = format!("0x04{}{}", gx, gy);
    let env_hex = format!("0x{}{}{}{}", r, s, gx, gy);
    let digest_hex = format!("0x{}", "00".repeat(32));
    assert_eq!(verify(&pubk_hex, &env_hex, &digest_hex).unwrap(), false);
}

// A scalar outside [1, order - 1] fails key loading, not hex decoding.
#[test]
fn invalid_scalar_is_a_conversion_error() {
    let zero_key_hex = encode_hex(&vec![0u8; 32]);
    assert_eq!(sign(&zero_key_hex, "0xffff"), Err(AppError::ConversionError));

    let short_key_hex = encode_hex(&vec![1u8; 31]);
    assert_eq!(
        sign(&short_key_hex, "0xffff"),
        Err(AppError::ConversionError)
    );
}
