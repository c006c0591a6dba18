use vstd::prelude::*;

verus! {

/// Failure taxonomy of the block primitive.
///
/// A cryptographically mismatched signature is never an error: verification
/// reports it as `Ok(false)`. These variants cover category errors (treating
/// the keyless genesis anchor as keyed material) and provider failures, so a
/// caller can tell "this could not be evaluated" from "this is untrusted".
#[derive(Debug, Clone, Copy, PartialEq, Eq, Structural)]
pub enum Error {
    /// The genesis ownership variant carries no key material at all.
    GenesisIsNotKey,
    /// The cryptographic provider could not mint a fresh keypair.
    KeyGen,
    /// Raw public-key bytes could not be derived from key material.
    KeyPublic,
    /// The signing primitive could not execute.
    Signer,
    /// The verification primitive could not execute; distinct from a
    /// well-formed signature that merely fails to match.
    Verifier,
}

} // verus!
