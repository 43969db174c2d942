//! ECDSA over P-256 with a SHA-256 digest: the check that a frame came from
//! the beacon that holds the registered key.

use vstd::prelude::*;
use p256::ecdsa::signature::Verifier;

verus! {

/// Whether the P-256 ECDSA check accepts `signature` (two 32-byte big-endian
/// scalars) over `data` under the SEC1-encoded `public_key`.
pub uninterp spec fn p256_ecdsa_accepts(public_key: Seq<u8>, data: Seq<u8>, signature: Seq<u8>) -> bool;

/// Relies on p256's `VerifyingKey::from_sec1_bytes`, `Signature::from_bytes`
/// and `Verifier::verify`: a malformed key or signature is refused like a
/// failed check, and the answer depends on the three byte strings alone.
#[verifier::external_body]
fn p256_verify(public_key: &[u8], data: &[u8], signature: &[u8]) -> (r: bool)
    requires
        signature@.len() == 64,
    ensures
        r == p256_ecdsa_accepts(public_key@, data@, signature@),
{
    let Ok(key) = p256::ecdsa::VerifyingKey::from_sec1_bytes(public_key) else { return false };
    let Ok(sig) = p256::ecdsa::Signature::from_bytes(signature.into()) else { return false };
    key.verify(data, &sig).is_ok()
}

/// Whether a detached signature authenticates `signed_data` under
/// `public_key`: it must be 64 bytes long and pass the P-256 ECDSA check.
pub open spec fn signature_valid(signed_data: Seq<u8>, signature: Seq<u8>, public_key: Seq<u8>) -> bool {
    signature.len() == 64 && p256_ecdsa_accepts(public_key, signed_data, signature)
}

/// Checks a detached signature. Every failure, a malformed key, a malformed
/// signature or a mismatch, gives the same `false`.
pub fn verify_signature(signed_data: &[u8], signature: &[u8], public_key: &[u8]) -> (r: bool)
    ensures
        r == signature_valid(signed_data@, signature@, public_key@),
{
    if signature.len() != 64 {
        return false;
    }
    p256_verify(public_key, signed_data, signature)
}

/// The verdict on a signature is a function of the signed data, the signature
/// and the key: the same three inputs always give the same answer.
pub proof fn lemma_verification_deterministic(
    data1: Seq<u8>,
    sig1: Seq<u8>,
    key1: Seq<u8>,
    data2: Seq<u8>,
    sig2: Seq<u8>,
    key2: Seq<u8>,
)
    requires
        data1 == data2,
        sig1 == sig2,
        key1 == key2,
    ensures
        signature_valid(data1, sig1, key1) == signature_valid(data2, sig2, key2),
{
}

} // verus!
