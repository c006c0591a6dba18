//! Trusted boundary around the cryptographic provider (openssl).
//!
//! Every verified statement about hashing, signing and verification in this
//! crate rests on the contracts below: each wrapper makes one provider call
//! chain and states only what openssl's own source and documentation show.

use vstd::prelude::*;

use crate::error::Error;

verus! {

/// Number of bytes in a raw Ed25519 key, private seed and public point alike.
pub const KEY_LEN: usize = 32;

/// The SHA-256 digest of a byte sequence, as the provider computes it.
pub uninterp spec fn digest_of(msg: Seq<u8>) -> Seq<u8>;

/// The raw Ed25519 public key derived from a raw private key.
pub uninterp spec fn pub_of(seed: Seq<u8>) -> Seq<u8>;

/// The Ed25519 signature over `msg` by the private key `seed`; RFC 8032
/// signing is deterministic, so this is a function of the two alone.
pub uninterp spec fn sig_of(seed: Seq<u8>, msg: Seq<u8>) -> Seq<u8>;

/// Whether Ed25519 verification accepts `sig` as a signature over `msg` by
/// the holder of the raw public key `pubkey`.
pub uninterp spec fn verifies(pubkey: Seq<u8>, msg: Seq<u8>, sig: Seq<u8>) -> bool;

/// Relies on `openssl::sha::sha256`: the 32-byte SHA-256 digest of `msg`,
/// a function of `msg` alone.
#[verifier::external_body]
pub(crate) fn sha256_digest(msg: &Vec<u8>) -> (r: Vec<u8>)
    ensures
        r@ == digest_of(msg@),
        r@.len() == 32,
{
    openssl::sha::sha256(msg).to_vec()
}

/// Relies on `PKey::generate_ed25519` and `PKeyRef::raw_private_key`: a fresh
/// Ed25519 key is minted from the process-wide random source and exported in
/// its 32-byte raw private form. The key is random, so nothing relates the
/// results of two calls.
#[verifier::external_body]
pub(crate) fn generate_seed() -> (r: Result<Vec<u8>, Error>)
    ensures
        r matches Ok(seed) ==> seed@.len() == KEY_LEN,
        r matches Err(e) ==> e == Error::KeyGen,
{
    let key = openssl::pkey::PKey::generate_ed25519().map_err(|_| Error::KeyGen)?;
    key.raw_private_key().map_err(|_| Error::KeyGen)
}

/// Relies on `PKey::private_key_from_raw_bytes` and `PKeyRef::raw_public_key`:
/// the raw Ed25519 public key is the 32-byte point derived from the private
/// seed alone.
#[verifier::external_body]
pub(crate) fn public_from_seed(seed: &Vec<u8>) -> (r: Result<Vec<u8>, Error>)
    ensures
        r matches Ok(p) ==> p@ == pub_of(seed@) && p@.len() == KEY_LEN,
        r matches Err(e) ==> e == Error::KeyPublic,
{
    let key = openssl::pkey::PKey::private_key_from_raw_bytes(seed, openssl::pkey::Id::ED25519)
        .map_err(|_| Error::KeyPublic)?;
    key.raw_public_key().map_err(|_| Error::KeyPublic)
}

/// Relies on `Signer::new_without_digest` and `Signer::sign_oneshot_to_vec`
/// over a key rebuilt by `PKey::private_key_from_raw_bytes`: Ed25519 signing
/// is deterministic (RFC 8032), so the 64-byte signature is a function of the
/// seed and the message, and it verifies under the seed's own public key.
#[verifier::external_body]
pub(crate) fn sign_message(seed: &Vec<u8>, msg: &Vec<u8>) -> (r: Result<Vec<u8>, Error>)
    ensures
        r matches Ok(sig) ==> sig@ == sig_of(seed@, msg@) && sig@.len() == 64
            && verifies(pub_of(seed@), msg@, sig@),
        r matches Err(e) ==> e == Error::Signer,
{
    let key = openssl::pkey::PKey::private_key_from_raw_bytes(seed, openssl::pkey::Id::ED25519)
        .map_err(|_| Error::Signer)?;
    let mut signer = openssl::sign::Signer::new_without_digest(&key).map_err(|_| Error::Signer)?;
    signer.sign_oneshot_to_vec(msg).map_err(|_| Error::Signer)
}

/// Relies on `Verifier::new_without_digest` and `Verifier::verify_oneshot`
/// over a key rebuilt by `PKey::public_key_from_raw_bytes`: acceptance is a
/// function of public key, message and signature alone; a well-formed
/// mismatch comes back as `Ok(false)`, and only a provider failure (malformed
/// key material included) is an error.
#[verifier::external_body]
pub(crate) fn verify_message(pubkey: &Vec<u8>, msg: &Vec<u8>, sig: &Vec<u8>) -> (r: Result<
    bool,
    Error,
>)
    ensures
        r matches Ok(v) ==> v == verifies(pubkey@, msg@, sig@),
        r matches Err(e) ==> e == Error::Verifier,
{
    let key = openssl::pkey::PKey::public_key_from_raw_bytes(pubkey, openssl::pkey::Id::ED25519)
        .map_err(|_| Error::Verifier)?;
    let mut verifier = openssl::sign::Verifier::new_without_digest(&key)
        .map_err(|_| Error::Verifier)?;
    verifier.verify_oneshot(sig, msg).map_err(|_| Error::Verifier)
}

} // verus!
