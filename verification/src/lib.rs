//! SM2 signature envelopes: the fixed 128-byte wire format `r ‖ s ‖ X ‖ Y`
//! that packs a curve signature together with the signer's public-key
//! coordinates, the hex codec used on the wire, and the verification
//! procedure that cross-checks the embedded key against the supplied key
//! before any elliptic-curve work is done.
//!
//! The elliptic-curve and hash primitives themselves come from `libsm` and
//! are trusted; everything built on top of them — the codec, the envelope
//! layout, and the accept/reject decision — is verified.

use vstd::prelude::*;

pub mod codec;
pub mod crypto;
pub mod envelope;
pub mod service;
pub mod types;

verus! {

/// Request-level failures: malformed input encoding, or a private key that
/// the curve's key-loading step rejects. A well-formed but cryptographically
/// invalid signature is never an error; it is the boolean result `false`.
#[derive(Debug, Clone, Copy, PartialEq, Eq, Structural)]
pub enum AppError {
    /// The input text is not valid hex.
    FromHexError,
    /// The decoded private key is not a scalar the curve accepts.
    ConversionError,
}

} // verus!
