//! SLH-DSA-SHA2-128s (FIPS 205) signature verification, done by the
//! `slh_dsa` crate.
use vstd::prelude::*;
use slh_dsa::signature::Verifier;

verus! {

/// Length in bytes of an SLH-DSA-SHA2-128s verifying key.
pub const VK_LEN: usize = 32;

/// Length in bytes of an SLH-DSA-SHA2-128s signature.
pub const SIG_LEN: usize = 7856;

/// Whether the SLH-DSA-SHA2-128s signature `sig` over `message` verifies
/// against the verifying key `vk` (as computed by `slh_dsa`, with an empty
/// context string).
pub uninterp spec fn slh_dsa_sha2_128s_verifies(vk: Seq<u8>, message: Seq<u8>, sig: Seq<u8>) -> bool;

/// What became of an attempt to verify a signature from raw bytes.
#[derive(PartialEq, Eq, Structural, Clone, Copy, Debug)]
pub enum SlhVerification {
    /// The verifying key bytes were not accepted as a key.
    KeyRejected,
    /// The signature bytes were not accepted as a signature.
    SignatureRejected,
    /// Both parsed; the flag says whether the signature is valid.
    Checked(bool),
}

/// Verifies an SLH-DSA-SHA2-128s signature with `slh_dsa`:
/// `VerifyingKey::<Sha2_128s>::try_from(vk)`, `Signature::<Sha2_128s>::try_from(sig)`
/// and `Verifier::verify`. Trusted: a key is rejected exactly when it is not
/// `VK_LEN` bytes long and a signature exactly when it is not `SIG_LEN` bytes
/// long (both conversions check the length and then split fixed-size
/// arrays); otherwise the result is the named verification outcome.
#[verifier::external_body]
pub fn slh_dsa_verify(vk: &[u8], message: &[u8], sig: &[u8]) -> (r: SlhVerification)
    ensures
        (r == SlhVerification::KeyRejected) <==> vk@.len() != VK_LEN,
        (r == SlhVerification::SignatureRejected) <==> (vk@.len() == VK_LEN && sig@.len() != SIG_LEN),
        r matches SlhVerification::Checked(ok) ==> ok == slh_dsa_sha2_128s_verifies(vk@, message@, sig@),
{
    let key = match slh_dsa::VerifyingKey::<slh_dsa::Sha2_128s>::try_from(vk) {
        Ok(key) => key,
        Err(_) => return SlhVerification::KeyRejected,
    };
    let signature = match slh_dsa::Signature::<slh_dsa::Sha2_128s>::try_from(sig) {
        Ok(signature) => signature,
        Err(_) => return SlhVerification::SignatureRejected,
    };
    SlhVerification::Checked(key.verify(message, &signature).is_ok())
}

} // verus!
