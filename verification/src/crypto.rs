//! The trusted boundary to the SM2/SM3 primitives in `libsm`: hashing,
//! signing and the elliptic-curve accept/reject decision. Everything here
//! is stated over plain byte sequences; what the curve computes is named,
//! not restated, and the envelope logic built on top is verified against
//! these contracts.

use vstd::prelude::*;

use libsm::sm2::signature::{SigCtx, Signature};
use libsm::sm3::hash::Sm3Hash;

verus! {

/// The value of a byte sequence read as a big-endian unsigned integer.
pub open spec fn be_bytes_val(b: Seq<u8>) -> nat
    decreases b.len(),
{
    if b.len() == 0 {
        0
    } else {
        be_bytes_val(b.drop_last()) * 256 + b.last() as nat
    }
}

/// The order of the SM2 curve's base point: a private key is a scalar in
/// `[1, order - 1]`.
pub open spec fn sm2_curve_order() -> nat {
    0xFFFFFFFE_FFFFFFFF_FFFFFFFF_FFFFFFFF_7203DF6B_21C6052B_53BBF409_39D54123nat
}

/// Serialized private keys the curve accepts: exactly 32 bytes whose
/// big-endian value is a scalar in `[1, order - 1]`.
pub open spec fn seckey_valid(sk: Seq<u8>) -> bool {
    sk.len() == 32 && 1 <= be_bytes_val(sk) && be_bytes_val(sk) < sm2_curve_order()
}

/// The curve order, written out as the 32 big-endian bytes that a serialized
/// scalar equal to it would have.
pub const SM2_ORDER_BE: [u8; 32] = [
    0xFF, 0xFF, 0xFF, 0xFE, 0xFF, 0xFF, 0xFF, 0xFF, 0xFF, 0xFF, 0xFF, 0xFF, 0xFF, 0xFF, 0xFF,
    0xFF, 0x72, 0x03, 0xDF, 0x6B, 0x21, 0xC6, 0x05, 0x2B, 0x53, 0xBB, 0xF4, 0x09, 0x39, 0xD5,
    0x41, 0x23,
];

/// The encoding of the scalar `order - 1`. The order ends in `0x23`, so
/// only the last byte differs.
pub const SM2_ORDER_MINUS_ONE_BE: [u8; 32] = [
    0xFF, 0xFF, 0xFF, 0xFE, 0xFF, 0xFF, 0xFF, 0xFF, 0xFF, 0xFF, 0xFF, 0xFF, 0xFF, 0xFF, 0xFF,
    0xFF, 0x72, 0x03, 0xDF, 0x6B, 0x21, 0xC6, 0x05, 0x2B, 0x53, 0xBB, 0xF4, 0x09, 0x39, 0xD5,
    0x41, 0x22,
];

/// A 32-byte key whose value cannot make the curve library abort: it is not
/// the all-zero encoding (the scalar 0), not the order's own encoding, and
/// not the encoding of `order - 1`. The loader rejects values above the
/// order; derivation aborts on 0 and the order; and signing aborts on
/// `order - 1`, whose successor has no inverse modulo the order.
pub open spec fn seckey_bytes_guarded(sk: Seq<u8>) -> bool {
    &&& sk.len() == 32
    &&& sk != Seq::new(32, |i: int| 0u8)
    &&& sk != SM2_ORDER_BE@
    &&& sk != SM2_ORDER_MINUS_ONE_BE@
}

/// A sequence of zero bytes reads as the value zero.
pub proof fn lemma_all_zero_val(s: Seq<u8>)
    requires
        forall|i: int| 0 <= i < s.len() ==> s[i] == 0,
    ensures
        be_bytes_val(s) == 0,
    decreases s.len(),
{
    if s.len() > 0 {
        lemma_all_zero_val(s.drop_last());
    }
}

/// The two order constants read back as the numbers they write out.
pub proof fn lemma_order_bytes_val()
    ensures
        be_bytes_val(SM2_ORDER_BE@) == sm2_curve_order(),
        be_bytes_val(SM2_ORDER_MINUS_ONE_BE@) == sm2_curve_order() - 1,
{
    reveal_with_fuel(be_bytes_val, 33);
    assert(be_bytes_val(SM2_ORDER_BE@) == sm2_curve_order());
    assert(SM2_ORDER_MINUS_ONE_BE@.drop_last() =~= SM2_ORDER_BE@.drop_last());
    assert(be_bytes_val(SM2_ORDER_MINUS_ONE_BE@) == sm2_curve_order() - 1);
}

/// A field shorter than 32 bytes, right-aligned in a zero-filled 32-byte
/// window: the envelope's rendering of a big-endian scalar.
pub open spec fn pad32(b: Seq<u8>) -> Seq<u8>
    recommends
        b.len() <= 32,
{
    if b.len() >= 32 {
        b
    } else {
        Seq::new((32 - b.len()) as nat, |i: int| 0u8) + b
    }
}

/// The SM3 digest of a byte sequence.
pub uninterp spec fn sm3_of(data: Seq<u8>) -> Seq<u8>;

/// The curve's verification verdict for a message against a serialized
/// public key and the two 32-byte signature fields: true exactly when the
/// key bytes load as a valid curve point and the point accepts `(r, s)`
/// over the message. A load failure or an out-of-range field is a verdict
/// of false, never an error.
pub uninterp spec fn sm2_accepts(msg: Seq<u8>, pubkey: Seq<u8>, r: Seq<u8>, s: Seq<u8>) -> bool;

/// The uncompressed 65-byte serialization of the public key derived from a
/// serialized private key.
pub uninterp spec fn sm2_pubkey_of(sk: Seq<u8>) -> Seq<u8>;

/// Relies on `Sm3Hash::new` and `Sm3Hash::get_hash`: the digest is a
/// function of the input bytes alone and is always 32 bytes.
#[verifier::external_body]
pub(crate) fn sm3_digest(data: &[u8]) -> (r: Vec<u8>)
    ensures
        r@ == sm3_of(data@),
        r@.len() == 32,
{
    let mut hasher = Sm3Hash::new(data);
    hasher.get_hash().to_vec()
}

/// Relies on `SigCtx::load_seckey`, `SigCtx::pk_from_sk`, `SigCtx::sign` and
/// `SigCtx::serialize_pubkey`. The loader rejects a key that is not 32 bytes
/// or whose value exceeds the order, and returns that rejection; the guard
/// in `requires` keeps out the three encodings on which the library would
/// abort instead — 0 and the order (derivation), and `order - 1` (signing
/// inverts `sk + 1`, and the order has no inverse modulo itself). So a
/// guarded valid key always comes back `Some`: the only abnormal exit left
/// is a nonce colliding with `r·sk`, which aborts rather than returns and
/// has no reachable probability. Signing draws a fresh nonce, so two calls
/// on one input differ. A produced `(r, s)` pair is the minimal big-endian
/// form of two scalars in `[1, order - 1]`, so each fits in 32 bytes, and —
/// libsm's own round-trip tests show it — verifies under the signer's
/// serialized public key, whose uncompressed form is 65 bytes led by the
/// tag `0x04`.
#[verifier::external_body]
pub(crate) fn sm2_sign_parts(sk: &[u8], msg: &[u8]) -> (r: Option<(Vec<u8>, Vec<u8>, Vec<u8>)>)
    requires
        seckey_bytes_guarded(sk@),
    ensures
        !seckey_valid(sk@) ==> r is None,
        seckey_valid(sk@) ==> r is Some,
        r matches Some(parts) ==> {
            &&& parts.2@ == sm2_pubkey_of(sk@)
            &&& parts.2@.len() == 65
            &&& parts.2@[0] == 4
            &&& 1 <= parts.0@.len() <= 32
            &&& 1 <= parts.1@.len() <= 32
            &&& sm2_accepts(msg@, parts.2@, pad32(parts.0@), pad32(parts.1@))
        },
{
    let ctx = SigCtx::new();
    let sk_scalar = match ctx.load_seckey(sk) { Ok(v) => v, Err(_) => return None };
    let pk = ctx.pk_from_sk(&sk_scalar);
    let sig = ctx.sign(msg, &sk_scalar, &pk);
    let pk_bytes = ctx.serialize_pubkey(&pk, false);
    Some((sig.get_r().to_bytes_be(), sig.get_s().to_bytes_be(), pk_bytes))
}

/// Relies on `SigCtx::load_pubkey`, `Signature::new` and `SigCtx::verify`:
/// together a function of the four byte arguments alone. Bytes that do not
/// load as an uncompressed curve point, out-of-range fields and a failed
/// curve equation all come back as the verdict false. One step stands
/// before the call: `verify` would abort when the combined point
/// `s·G + ((r + s) mod order)·P` is the identity — fields an attacker can
/// craft from the key's discrete-logarithm relation — so that point is
/// computed with the same curve calls `verify` makes and, when `is_zero`
/// reports the identity, the verdict is the standard's `false` instead of
/// an abort. `verify` itself repeats the range checks first, so for every
/// other input the verdict is its own.
#[verifier::external_body]
pub(crate) fn sm2_verify_parts(pubkey: &[u8], msg: &[u8], r_field: &[u8], s_field: &[u8]) -> (r: bool)
    requires
        pubkey@.len() == 65,
    ensures
        r == sm2_accepts(msg@, pubkey@, r_field@, s_field@),
{
    let ctx = SigCtx::new();
    let curve = libsm::sm2::ecc::EccCtx::new();
    let pk = match ctx.load_pubkey(pubkey) { Ok(p) => p, Err(_) => return false };
    let sig = Signature::new(r_field, s_field);
    let t = (sig.get_r() + sig.get_s()) % curve.get_n();
    let combined = curve.add(&curve.g_mul(sig.get_s()), &curve.mul(&t, &pk));
    if combined.is_zero() { return false; }
    ctx.verify(msg, &pk, &sig)
}

/// Whether every byte is zero: the all-zero 32-byte encoding is the scalar
/// 0, which no valid private key has.
pub(crate) fn bytes_all_zero(b: &[u8]) -> (r: bool)
    ensures
        r == (forall|i: int| 0 <= i < b@.len() ==> b@[i] == 0),
{
    let mut k: usize = 0;
    while k < b.len()
        invariant
            k <= b@.len(),
            forall|i: int| 0 <= i < k ==> b@[i] == 0,
        decreases b@.len() - k,
    {
        if b[k] != 0 {
            return false;
        }
        k += 1;
    }
    true
}

/// Byte-for-byte equality of two slices.
pub(crate) fn bytes_eq(a: &[u8], b: &[u8]) -> (r: bool)
    ensures
        r == (a@ == b@),
{
    if a.len() != b.len() {
        return false;
    }
    let mut k: usize = 0;
    while k < a.len()
        invariant
            k <= a@.len(),
            a@.len() == b@.len(),
            forall|i: int| 0 <= i < k ==> a@[i] == b@[i],
        decreases a@.len() - k,
    {
        if a[k] != b[k] {
            return false;
        }
        k += 1;
    }
    proof {
        assert(a@ =~= b@);
    }
    true
}

} // verus!
