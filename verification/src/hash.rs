//! The hash/signature engine: binds a (predecessor hash, payload) pair to a
//! content digest and an Ed25519 signature, and checks that binding later.

use vstd::prelude::*;

use crate::crypto::{
    digest_of, generate_seed, pub_of, sha256_digest, sig_of, sign_message, verifies,
    verify_message, KEY_LEN,
};
use crate::error::Error;

verus! {

/// Number of bytes in a block hash (a SHA-256 digest).
pub const HASH_LEN: usize = 32;

/// Number of bytes in a block signature (an Ed25519 signature).
pub const SIG_LEN: usize = 64;

/// Opaque fixed-length identifier of a block's content: the SHA-256 digest of
/// the predecessor hash followed by the payload, so the identifier commits to
/// the chain link as well as to the content.
#[derive(Debug, Clone)]
pub struct Hash {
    /// The digest bytes; `HASH_LEN` of them in every hash this crate derives.
    pub bytes: Vec<u8>,
}

impl View for Hash {
    type V = Seq<u8>;

    open spec fn view(&self) -> Seq<u8> {
        self.bytes@
    }
}

/// The message a block's signature and content digest are computed over: the
/// predecessor hash followed by the payload. Binding the predecessor into the
/// signed message makes signature validity and chain linkage one check, so a
/// valid block cannot be spliced onto a different predecessor.
pub open spec fn message_of(prev: Seq<u8>, data: Seq<u8>) -> Seq<u8> {
    prev + data
}

/// The all-zero digest standing for "no predecessor": the genesis anchor.
pub open spec fn genesis_hash() -> Seq<u8> {
    Seq::new(HASH_LEN as nat, |i: int| 0u8)
}

/// A vector of `n` zero bytes.
pub fn zero_bytes(n: usize) -> (r: Vec<u8>)
    ensures
        r@ == Seq::new(n as nat, |i: int| 0u8),
{
    let mut v: Vec<u8> = Vec::new();
    while v.len() < n
        invariant
            v@.len() <= n,
            v@ == Seq::new(v@.len(), |i: int| 0u8),
        decreases n - v@.len(),
    {
        v.push(0u8);
        assert(v@ =~= Seq::new(v@.len(), |i: int| 0u8));
    }
    assert(v@ =~= Seq::new(n as nat, |i: int| 0u8));
    v
}

/// A copy of a byte vector.
pub fn clone_bytes(v: &Vec<u8>) -> (r: Vec<u8>)
    ensures
        r@ == v@,
{
    let mut out: Vec<u8> = Vec::new();
    let mut i: usize = 0;
    while i < v.len()
        invariant
            i <= v@.len(),
            out@ == v@.subrange(0, i as int),
        decreases v@.len() - i,
    {
        out.push(v[i]);
        i = i + 1;
        assert(out@ =~= v@.subrange(0, i as int));
    }
    assert(out@ =~= v@);
    out
}

/// Concatenates the predecessor hash and the payload into the byte message
/// that is hashed and signed.
fn build_message(prev: &Vec<u8>, data: &Vec<u8>) -> (r: Vec<u8>)
    ensures
        r@ == message_of(prev@, data@),
{
    let mut msg = clone_bytes(prev);
    let mut i: usize = 0;
    while i < data.len()
        invariant
            i <= data@.len(),
            msg@ == prev@ + data@.subrange(0, i as int),
        decreases data@.len() - i,
    {
        msg.push(data[i]);
        i = i + 1;
        assert(msg@ =~= prev@ + data@.subrange(0, i as int));
    }
    assert(msg@ =~= message_of(prev@, data@));
    msg
}

impl Hash {
    /// Derives a block's binding from its predecessor and payload: computes
    /// the content digest over `previous_hash || data`, mints a fresh Ed25519
    /// keypair, and signs the same message with it. Returns the hash, the
    /// signature, and the raw private key for the caller to wrap as owned key
    /// material. Fails only when the cryptographic provider fails.
    pub fn new(previous_hash: &Hash, data: &Vec<u8>) -> (r: Result<
        (Hash, Vec<u8>, Vec<u8>),
        Error,
    >)
        ensures
            r matches Ok((h, sig, seed)) ==> ({
                &&& h@ == digest_of(message_of(previous_hash@, data@))
                &&& h@.len() == HASH_LEN
                &&& seed@.len() == KEY_LEN
                &&& sig@ == sig_of(seed@, message_of(previous_hash@, data@))
                &&& sig@.len() == SIG_LEN
                &&& verifies(pub_of(seed@), message_of(previous_hash@, data@), sig@)
            }),
            r matches Err(e) ==> e == Error::KeyGen || e == Error::Signer,
    {
        let msg = build_message(&previous_hash.bytes, data);
        let digest = sha256_digest(&msg);
        let seed = match generate_seed() {
            Ok(s) => s,
            Err(e) => {
                return Err(e);
            },
        };
        let sig = match sign_message(&seed, &msg) {
            Ok(s) => s,
            Err(e) => {
                return Err(e);
            },
        };
        Ok((Hash { bytes: digest }, sig, seed))
    }

    /// Checks `signature` over `previous_hash || data` under the raw public
    /// key `public_key`. `Ok(false)` is a well-formed cryptographic mismatch;
    /// an error means the provider could not evaluate the signature at all.
    pub fn verify(
        &self,
        previous_hash: &Hash,
        signature: &Vec<u8>,
        data: &Vec<u8>,
        public_key: &Vec<u8>,
    ) -> (r: Result<bool, Error>)
        ensures
            r matches Ok(v) ==> v == verifies(
                public_key@,
                message_of(previous_hash@, data@),
                signature@,
            ),
            r matches Err(e) ==> e == Error::Verifier,
    {
        let msg = build_message(&previous_hash.bytes, data);
        verify_message(public_key, &msg, signature)
    }
}

impl Default for Hash {
    /// The genesis anchor: an all-zero digest standing for "no predecessor".
    fn default() -> (r: Self)
        ensures
            r@ == genesis_hash(),
    {
        Hash { bytes: zero_bytes(HASH_LEN) }
    }
}

} // verus!
