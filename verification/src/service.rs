//! The sign and verify entry points: decode the hex inputs, run the
//! envelope logic, and keep the two failure worlds apart. Malformed input
//! encoding is a request error; a well-formed but cryptographically invalid
//! signature is the legitimate boolean verdict `false`.

use vstd::prelude::*;

use crate::AppError;
use crate::codec::{decode_hex, encode_hex, is_valid_hex, spec_hex_decode, spec_hex_encode,
    strip_hex_prefix};
use crate::codec::lemma_hex_encode_decode;
use crate::crypto::{be_bytes_val, bytes_all_zero, bytes_eq, lemma_all_zero_val,
    lemma_order_bytes_val, seckey_valid, sm2_curve_order, sm2_pubkey_of, sm2_sign_parts,
    sm3_digest, sm3_of, SM2_ORDER_BE, SM2_ORDER_MINUS_ONE_BE};
use crate::envelope::{encode_envelope, envelope_accepted, verify_envelope};

verus! {

/// Whether hex text decodes, prefix convention applied.
pub open spec fn wellformed_hex(s: Seq<char>) -> bool {
    is_valid_hex(strip_hex_prefix(s))
}

/// The bytes that hex text denotes, prefix convention applied.
pub open spec fn decoded_bytes(s: Seq<char>) -> Seq<u8> {
    spec_hex_decode(strip_hex_prefix(s))
}

/// Sign a hex-encoded digest with a hex-encoded private key, returning the
/// 128-byte signature envelope. A hex failure on either input is
/// `FromHexError`; a decoded key the curve rejects is `ConversionError`; a
/// valid key — the one exception is the scalar `order - 1`, with which the
/// curve library cannot sign — is owed an envelope that verifies against
/// the public key derived from the private key and the same digest.
pub fn sign(privk_hex: &str, digest_hex: &str) -> (r: Result<Vec<u8>, AppError>)
    ensures
        r == Err::<Vec<u8>, AppError>(AppError::FromHexError) <==> !(wellformed_hex(privk_hex@)
            && wellformed_hex(digest_hex@)),
        wellformed_hex(privk_hex@) && wellformed_hex(digest_hex@) && !seckey_valid(
            decoded_bytes(privk_hex@)) ==> r == Err::<Vec<u8>, AppError>(
            AppError::ConversionError),
        wellformed_hex(privk_hex@) && wellformed_hex(digest_hex@) && seckey_valid(
            decoded_bytes(privk_hex@)) && be_bytes_val(decoded_bytes(privk_hex@))
            != sm2_curve_order() - 1 ==> r is Ok,
        r is Ok ==> seckey_valid(decoded_bytes(privk_hex@)),
        r matches Ok(env) ==> env@.len() == 128 && envelope_accepted(
            sm2_pubkey_of(decoded_bytes(privk_hex@)), env@, decoded_bytes(digest_hex@)),
{
    let privk = match decode_hex(privk_hex) {
        Ok(v) => v,
        Err(e) => return Err(e),
    };
    let data = match decode_hex(digest_hex) {
        Ok(v) => v,
        Err(e) => return Err(e),
    };
    if privk.len() != 32 {
        return Err(AppError::ConversionError);
    }
    if bytes_all_zero(privk.as_slice()) {
        proof {
            lemma_all_zero_val(privk@);
        }
        return Err(AppError::ConversionError);
    }
    let order = SM2_ORDER_BE;
    if bytes_eq(privk.as_slice(), order.as_slice()) {
        proof {
            lemma_order_bytes_val();
        }
        return Err(AppError::ConversionError);
    }
    let order_minus_one = SM2_ORDER_MINUS_ONE_BE;
    if bytes_eq(privk.as_slice(), order_minus_one.as_slice()) {
        proof {
            lemma_order_bytes_val();
        }
        return Err(AppError::ConversionError);
    }
    match sm2_sign_parts(privk.as_slice(), data.as_slice()) {
        Some(parts) => Ok(
            encode_envelope(parts.0.as_slice(), parts.1.as_slice(), parts.2.as_slice()),
        ),
        None => Err(AppError::ConversionError),
    }
}

/// Verify a hex-encoded envelope against a hex-encoded public key and
/// digest. A hex failure on any of the three inputs is `FromHexError`;
/// otherwise the verdict is exactly the envelope check: right lengths,
/// embedded key equal to the supplied one, and the curve's acceptance of
/// the signature fields.
pub fn verify(pubk_hex: &str, signature_hex: &str, digest_hex: &str) -> (r: Result<
    bool,
    AppError,
>)
    ensures
        r is Ok <==> wellformed_hex(pubk_hex@) && wellformed_hex(signature_hex@)
            && wellformed_hex(digest_hex@),
        r matches Ok(b) ==> b == envelope_accepted(decoded_bytes(pubk_hex@), decoded_bytes(
            signature_hex@), decoded_bytes(digest_hex@)),
        r matches Err(e) ==> e == AppError::FromHexError,
{
    let pubk = match decode_hex(pubk_hex) {
        Ok(v) => v,
        Err(e) => return Err(e),
    };
    let sig_bytes = match decode_hex(signature_hex) {
        Ok(v) => v,
        Err(e) => return Err(e),
    };
    let data = match decode_hex(digest_hex) {
        Ok(v) => v,
        Err(e) => return Err(e),
    };
    Ok(verify_envelope(pubk.as_slice(), sig_bytes.as_slice(), data.as_slice()))
}

/// Hash a hex-encoded raw message and return the 32-byte digest as hex:
/// the bridge from the "raw" endpoints to the "digest" ones. Fails exactly
/// when the input is not valid hex.
pub fn digest_of(raw_hex: &str) -> (r: Result<String, AppError>)
    ensures
        r is Ok <==> wellformed_hex(raw_hex@),
        r matches Ok(h) ==> h@ == seq!['0', 'x'] + spec_hex_encode(
            sm3_of(decoded_bytes(raw_hex@))),
        r matches Ok(h) ==> h@.len() == 66,
        r matches Err(e) ==> e == AppError::FromHexError,
{
    let data = match decode_hex(raw_hex) {
        Ok(v) => v,
        Err(e) => return Err(e),
    };
    let digest = sm3_digest(data.as_slice());
    proof {
        lemma_hex_encode_decode(digest@);
    }
    Ok(encode_hex(digest.as_slice()))
}

} // verus!
