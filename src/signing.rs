use solana_sdk::signature::Signature;
use solana_sdk::signer::keypair::Keypair;
use solana_sdk::signer::Signer;
use vstd::prelude::*;

use crate::error::{AppError, ErrorKind};

verus! {

/// Whether 64 bytes form an Ed25519 keypair: a private half followed by the
/// public key derived from it.
pub uninterp spec fn keypair_accepts(secret: Seq<u8>) -> bool;

/// The Ed25519 signature that a keypair makes over a message.
pub uninterp spec fn signature_of(secret: Seq<u8>, message: Seq<u8>) -> Seq<u8>;

/// Whether a signature is valid for a message under a public key.
pub uninterp spec fn signature_valid(signature: Seq<u8>, message: Seq<u8>, pubkey: Seq<u8>) -> bool;

/// The public key held in the last 32 bytes of a 64-byte secret.
pub open spec fn public_half(secret: Seq<u8>) -> Seq<u8> {
    secret.subrange(32, 64)
}

/// Relies on `Keypair::new` and `Keypair::to_bytes`: a keypair drawn from the
/// operating system's random source, as its private half followed by the
/// public key derived from it, which `Keypair::try_from` accepts.
#[verifier::external_body]
pub(crate) fn fresh_keypair() -> (r: [u8; 64])
    ensures
        keypair_accepts(r@),
{
    Keypair::new().to_bytes()
}

/// Relies on `Keypair::try_from(&[u8])`, which accepts 64 bytes exactly when
/// the last 32 are the public key derived from the first 32, and on
/// `Signer::sign_message`: deterministic Ed25519 signing, whose 64-byte
/// signature verifies under that public key.
#[verifier::external_body]
fn keypair_sign(secret: &[u8], message: &[u8]) -> (r: Option<Vec<u8>>)
    requires
        secret@.len() == 64,
    ensures
        r is Some <==> keypair_accepts(secret@),
        r matches Some(sig) ==> sig@ == signature_of(secret@, message@),
        r matches Some(sig) ==> sig@.len() == 64,
        r matches Some(sig) ==> signature_valid(sig@, message@, public_half(secret@)),
{
    match Keypair::try_from(secret) {
        Ok(kp) => Some(kp.sign_message(message).as_ref().to_vec()),
        Err(_) => None,
    }
}

/// Relies on `Signature::verify`: strict Ed25519 verification of the
/// signature over the message under the public key, giving `false` for any
/// failure, a public key that is no curve point included.
#[verifier::external_body]
fn signature_check(signature: &[u8], message: &[u8], pubkey: &[u8]) -> (r: bool)
    requires
        signature@.len() == 64,
    ensures
        r == signature_valid(signature@, message@, pubkey@),
{
    match Signature::try_from(signature) {
        Ok(sig) => sig.verify(pubkey, message),
        Err(_) => false,
    }
}

/// Signs `message` with a 64-byte secret (private half, then public key).
/// Fails with `InvalidKeyMaterial` when the secret is not 64 bytes or its
/// public half is not derived from its private half. The signature is a
/// function of the secret and the message, and verifies under the secret's
/// public half.
pub fn sign(message: &[u8], secret: &[u8]) -> (r: Result<Vec<u8>, AppError>)
    ensures
        r is Ok <==> secret@.len() == 64 && keypair_accepts(secret@),
        r matches Ok(sig) ==> sig@ == signature_of(secret@, message@),
        r matches Ok(sig) ==> sig@.len() == 64,
        r matches Ok(sig) ==> signature_valid(sig@, message@, public_half(secret@)),
        r matches Err(e) ==> e.0 == ErrorKind::InvalidKeyMaterial,
{
    if secret.len() != 64 {
        return Err(AppError(ErrorKind::InvalidKeyMaterial));
    }
    match keypair_sign(secret, message) {
        Some(sig) => Ok(sig),
        None => Err(AppError(ErrorKind::InvalidKeyMaterial)),
    }
}

/// Checks a signature over `message` under `pubkey`. A signature that is
/// well shaped but wrong is `Ok(false)`, not an error; only a signature that
/// is not 64 bytes or a key that is not 32 bytes fails, with
/// `InvalidInputLength`.
pub fn verify(signature: &[u8], message: &[u8], pubkey: &[u8]) -> (r: Result<bool, AppError>)
    ensures
        r is Ok <==> signature@.len() == 64 && pubkey@.len() == 32,
        r matches Ok(b) ==> b == signature_valid(signature@, message@, pubkey@),
        r matches Err(e) ==> e.0 == ErrorKind::InvalidInputLength,
{
    if signature.len() != 64 || pubkey.len() != 32 {
        return Err(AppError(ErrorKind::InvalidInputLength));
    }
    Ok(signature_check(signature, message, pubkey))
}

} // verus!
