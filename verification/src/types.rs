//! Plain request and response shapes for the six service endpoints. Every
//! field is hex text or a boolean; the boundary layer owns the JSON forms
//! and converts to and from these.

use vstd::prelude::*;

verus! {

/// A freshly generated keypair, both keys hex-encoded.
#[derive(Debug)]
pub struct PrivatekeyRes {
    pub private_key: String,
    pub public_key: String,
}

/// Request to sign a raw message: it is hashed before signing.
#[derive(Debug)]
pub struct SignatureRawReq {
    pub private_key: String,
    pub raw: String,
}

/// Request to sign a caller-supplied digest directly.
#[derive(Debug)]
pub struct SignatureDigestReq {
    pub private_key: String,
    pub digest: String,
}

/// A produced signature envelope, hex-encoded.
#[derive(Debug)]
pub struct SignatureRes {
    pub signature: String,
}

/// Request to verify a signature over a raw message: it is hashed first.
#[derive(Debug)]
pub struct VerificationRawReq {
    pub public_key: String,
    pub signature: String,
    pub raw: String,
}

/// Request to verify a signature over a caller-supplied digest.
#[derive(Debug)]
pub struct VerificationDigestReq {
    pub public_key: String,
    pub signature: String,
    pub digest: String,
}

/// The accept/reject outcome of a verification.
#[derive(Debug)]
pub struct VerificationRes {
    pub result: bool,
}

} // verus!
