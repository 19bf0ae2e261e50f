//! The signature envelope: a 128-byte blob `r ‖ s ‖ X ‖ Y`, where `r` and
//! `s` are the signature scalars rendered big-endian in zero-padded 32-byte
//! windows and `X ‖ Y` are the 64 coordinate bytes of the signer's public
//! key (tag byte stripped). Building the blob and the pre-verification
//! consistency check are verified; the curve arithmetic behind the final
//! verdict is the trusted boundary in `crypto`.

use vstd::prelude::*;

use crate::crypto::{pad32, sm2_accepts, sm2_verify_parts};
use vstd::slice::slice_subrange;

verus! {

/// When a supplied public key and an envelope pass verification against a
/// digest: the envelope is exactly 128 bytes, the key exactly 65, the key's
/// coordinate bytes equal the envelope's embedded 64, and the curve accepts
/// the two 32-byte signature fields over the digest. Any length or
/// embedded-key mismatch is folded into rejection, never an error.
pub open spec fn envelope_accepted(pubkey: Seq<u8>, envelope: Seq<u8>, digest: Seq<u8>) -> bool {
    &&& envelope.len() == 128
    &&& pubkey.len() == 65
    &&& pubkey.subrange(1, 65) == envelope.subrange(64, 128)
    &&& sm2_accepts(digest, pubkey, envelope.subrange(0, 32), envelope.subrange(32, 64))
}

/// Append a signature scalar to the buffer, right-aligned in a zero-filled
/// 32-byte window: big-endian value semantics are kept for scalars that
/// serialize to fewer than 32 bytes.
fn push_padded_field(out: &mut Vec<u8>, field: &[u8])
    requires
        field@.len() <= 32,
    ensures
        final(out)@ == old(out)@ + pad32(field@),
{
    let pad = 32 - field.len();
    let mut i: usize = 0;
    while i < pad
        invariant
            i <= pad,
            pad == 32 - field@.len(),
            out@ == old(out)@ + Seq::new(i as nat, |j: int| 0u8),
        decreases pad - i,
    {
        out.push(0u8);
        i += 1;
        proof {
            assert(out@ =~= old(out)@ + Seq::new(i as nat, |j: int| 0u8));
        }
    }
    let mut k: usize = 0;
    while k < field.len()
        invariant
            k <= field@.len(),
            field@.len() <= 32,
            out@ == old(out)@ + Seq::new((32 - field@.len()) as nat, |j: int| 0u8)
                + field@.subrange(0, k as int),
        decreases field@.len() - k,
    {
        out.push(field[k]);
        k += 1;
        proof {
            assert(out@ =~= old(out)@ + Seq::new((32 - field@.len()) as nat, |j: int| 0u8)
                + field@.subrange(0, k as int));
        }
    }
    proof {
        assert(field@.subrange(0, field@.len() as int) =~= field@);
        assert(out@ =~= old(out)@ + pad32(field@));
    }
}

/// Build the 128-byte envelope from the signature scalars in minimal
/// big-endian form and the 65-byte uncompressed public key. This never
/// fails: the scalars are bounded by the curve's field width, so each fits
/// its 32-byte window, and the result is exactly 128 bytes for every valid
/// triple.
pub fn encode_envelope(r: &[u8], s: &[u8], pubkey: &[u8]) -> (out: Vec<u8>)
    requires
        r@.len() <= 32,
        s@.len() <= 32,
        pubkey@.len() == 65,
    ensures
        out@.len() == 128,
        out@ == pad32(r@) + pad32(s@) + pubkey@.subrange(1, 65),
        out@.subrange(0, 32) == pad32(r@),
        out@.subrange(32, 64) == pad32(s@),
        out@.subrange(64, 128) == pubkey@.subrange(1, 65),
{
    let mut out: Vec<u8> = Vec::new();
    push_padded_field(&mut out, r);
    push_padded_field(&mut out, s);
    let mut k: usize = 1;
    while k < 65
        invariant
            1 <= k <= 65,
            pubkey@.len() == 65,
            out@ == pad32(r@) + pad32(s@) + pubkey@.subrange(1, k as int),
        decreases 65 - k,
    {
        out.push(pubkey[k]);
        k += 1;
        proof {
            assert(out@ =~= pad32(r@) + pad32(s@) + pubkey@.subrange(1, k as int));
        }
    }
    proof {
        assert(out@.subrange(0, 32) =~= pad32(r@));
        assert(out@.subrange(32, 64) =~= pad32(s@));
        assert(out@.subrange(64, 128) =~= pubkey@.subrange(1, 65));
    }
    out
}

/// Parse and verify an envelope against a supplied public key and digest.
/// Rejects — with the verdict `false`, never an error — an envelope that is
/// not 128 bytes, a key that is not 65 bytes, or an embedded key that
/// disagrees byte for byte with the supplied one; only then is the curve
/// asked for its verdict on the two signature fields.
pub fn verify_envelope(pubkey: &[u8], envelope: &[u8], digest: &[u8]) -> (r: bool)
    ensures
        r == envelope_accepted(pubkey@, envelope@, digest@),
{
    if envelope.len() != 128 {
        return false;
    }
    if pubkey.len() != 65 {
        return false;
    }
    let mut k: usize = 0;
    while k < 64
        invariant
            k <= 64,
            pubkey@.len() == 65,
            envelope@.len() == 128,
            forall|j: int| 0 <= j < k ==> #[trigger] pubkey@[j + 1] == envelope@[j + 64],
        decreases 64 - k,
    {
        if pubkey[k + 1] != envelope[k + 64] {
            proof {
                assert(pubkey@.subrange(1, 65)[k as int] != envelope@.subrange(64, 128)[
                    k as int]);
            }
            return false;
        }
        k += 1;
    }
    proof {
        assert(pubkey@.subrange(1, 65) =~= envelope@.subrange(64, 128));
    }
    let r_field = slice_subrange(envelope, 0, 32);
    let s_field = slice_subrange(envelope, 32, 64);
    sm2_verify_parts(pubkey, digest, r_field, s_field)
}

/// An envelope whose embedded key disagrees with the supplied public key is
/// rejected outright, even if the curve would accept its signature fields
/// against the embedded key.
pub proof fn lemma_key_mismatch_rejects(pubkey: Seq<u8>, envelope: Seq<u8>, digest: Seq<u8>)
    requires
        pubkey.len() == 65,
        envelope.len() == 128,
        pubkey.subrange(1, 65) != envelope.subrange(64, 128),
    ensures
        !envelope_accepted(pubkey, envelope, digest),
{
}

/// An envelope that is not exactly 128 bytes, or a public key that is not
/// exactly 65, is rejected with the verdict `false` for every digest.
pub proof fn lemma_length_rejects(pubkey: Seq<u8>, envelope: Seq<u8>, digest: Seq<u8>)
    requires
        envelope.len() != 128 || pubkey.len() != 65,
    ensures
        !envelope_accepted(pubkey, envelope, digest),
{
}

} // verus!
