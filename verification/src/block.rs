//! The user-facing block entity and its ownership classification. All
//! cryptographic work is delegated to the hash/signature engine in
//! [`crate::hash`]; this module only assembles blocks and dispatches on
//! ownership.

use vstd::prelude::*;

use crate::crypto::{digest_of, pub_of, public_from_seed, sig_of, verifies, KEY_LEN};
use crate::error::Error;
use crate::hash::{genesis_hash, message_of, zero_bytes, HASH_LEN, SIG_LEN};

verus! {

/// Classification of the key material a block carries. The variant never
/// changes after construction: it is a closed classification, not a state
/// machine.
#[derive(Debug, Clone)]
pub enum Ownership {
    /// No key at all: the distinguished root-of-chain marker. Treating it as
    /// keyed material is a category error.
    Genesis,
    /// An externally authored block: only the raw Ed25519 public key is held,
    /// so the holder can verify but never sign.
    Theirs(Vec<u8>),
    /// A self-authored block: the raw Ed25519 private key is held, and its
    /// public counterpart can always be derived from it.
    Ours(Vec<u8>),
}

/// The raw public key that a block's ownership implies: stored directly for
/// an external block, derived from the private key for one of ours, and empty
/// for the keyless genesis marker.
pub open spec fn owner_public(o: Ownership) -> Seq<u8> {
    match o {
        Ownership::Genesis => Seq::empty(),
        Ownership::Theirs(p) => p@,
        Ownership::Ours(seed) => pub_of(seed@),
    }
}

/// Single block within a larger chain: a payload bound to its predecessor by
/// a content hash and an Ed25519 signature, plus the key material that can
/// check (or reproduce) that signature.
#[derive(Debug, Clone)]
pub struct Block {
    /// The hash of this block, committing to predecessor and payload.
    pub hash: crate::hash::Hash,
    /// Which key material this block carries.
    pub ownership: Ownership,
    /// Signature over the predecessor hash followed by the payload.
    pub signature: Vec<u8>,
    /// The raw payload bytes.
    pub data: Vec<u8>,
}

/// Structural well-formedness of a block as this crate constructs one:
/// digest-sized hash, signature-sized signature, raw-key-sized key material.
pub open spec fn wf(b: Block) -> bool {
    &&& b.hash@.len() == HASH_LEN
    &&& b.signature@.len() == SIG_LEN
    &&& match b.ownership {
        Ownership::Genesis => true,
        Ownership::Theirs(p) => p@.len() == KEY_LEN,
        Ownership::Ours(seed) => seed@.len() == KEY_LEN,
    }
}

/// The spec-level outcome of cryptographic verification of block `b` against
/// the predecessor hash `prev`: its signature checks over `prev || data`
/// under the public key its ownership implies.
pub open spec fn verify_outcome(b: Block, prev: Seq<u8>) -> bool {
    verifies(owner_public(b.ownership), message_of(prev, b.data@), b.signature@)
}

/// What construction over predecessor `prev` establishes: the block is
/// self-owned and its signature was produced over `prev || data` by its own
/// freshly minted key, under which it checks.
pub open spec fn derived_over(b: Block, prev: Seq<u8>) -> bool {
    &&& b.ownership is Ours
    &&& b.signature@ == sig_of(b.ownership->Ours_0@, message_of(prev, b.data@))
    &&& verifies(owner_public(b.ownership), message_of(prev, b.data@), b.signature@)
    &&& b.hash@ == digest_of(message_of(prev, b.data@))
}

/// The canonical genesis block value: all-zero hash and signature, empty
/// payload, keyless ownership.
pub open spec fn is_genesis_block(b: Block) -> bool {
    &&& b.hash@ == genesis_hash()
    &&& b.ownership is Genesis
    &&& b.signature@ == Seq::new(SIG_LEN as nat, |i: int| 0u8)
    &&& b.data@ == Seq::<u8>::empty()
}

impl Block {
    /// Builds a block over the predecessor `previous_hash` holding `data`:
    /// derives the content hash over `previous_hash || data`, mints a fresh
    /// Ed25519 keypair — one per block, never reused — and signs the same
    /// message with it, so the block comes back self-owned. Fails only when
    /// the cryptographic provider fails.
    pub fn new(previous_hash: &crate::hash::Hash, data: Vec<u8>) -> (r: Result<Block, Error>)
        ensures
            r matches Ok(b) ==> ({
                &&& b.data@ == data@
                &&& wf(b)
                &&& derived_over(b, previous_hash@)
            }),
            r matches Err(e) ==> e == Error::KeyGen || e == Error::Signer,
    {
        match crate::hash::Hash::new(previous_hash, &data) {
            Ok((hash, signature, seed)) => Ok(
                Block { hash, ownership: Ownership::Ours(seed), signature, data },
            ),
            Err(e) => Err(e),
        }
    }

    /// Verifies this block against the known hash of the preceding block.
    /// Keyed blocks get real cryptographic verification — `Ok(false)` is a
    /// well-formed mismatch, never an error — while asking this of the
    /// keyless genesis block is a category error, not a `false`.
    pub fn verify(&self, previous_hash: &crate::hash::Hash) -> (r: Result<bool, Error>)
        ensures
            self.ownership is Genesis <==> r == Err::<bool, Error>(Error::GenesisIsNotKey),
            r matches Ok(v) ==> v == verify_outcome(*self, previous_hash@),
            self.ownership is Theirs ==> (r matches Err(e) ==> e == Error::Verifier),
            self.ownership is Ours ==> (r matches Err(e) ==> e == Error::KeyPublic || e
                == Error::Verifier),
    {
        match &self.ownership {
            Ownership::Theirs(pkey) => self.hash.verify(
                previous_hash,
                &self.signature,
                &self.data,
                pkey,
            ),
            Ownership::Ours(seed) => match public_from_seed(seed) {
                Ok(p) => self.hash.verify(previous_hash, &self.signature, &self.data, &p),
                Err(e) => Err(e),
            },
            Ownership::Genesis => Err(Error::GenesisIsNotKey),
        }
    }
}

impl Default for Block {
    /// The canonical genesis block: zero-valued hash, keyless ownership,
    /// all-zero signature, empty payload. Total; cannot fail.
    fn default() -> (r: Self)
        ensures
            is_genesis_block(r),
    {
        Block {
            hash: crate::hash::Hash { bytes: zero_bytes(HASH_LEN) },
            ownership: Ownership::Genesis,
            signature: zero_bytes(SIG_LEN),
            data: Vec::new(),
        }
    }
}

impl Ownership {
    /// Exports the public key in raw byte form, as when a block is emitted
    /// for transport. Always possible for keyed ownership — an external key
    /// is already raw, and our private key derives its public counterpart,
    /// failing only if the provider fails — while the genesis marker has no
    /// key to export.
    pub fn to_raw_public(&self) -> (r: Result<Vec<u8>, Error>)
        ensures
            *self is Genesis <==> r == Err::<Vec<u8>, Error>(Error::GenesisIsNotKey),
            r matches Ok(v) ==> v@ == owner_public(*self),
            self matches Ownership::Theirs(p) ==> (r matches Ok(v) && v@ == p@),
            *self is Ours ==> (r matches Err(e) ==> e == Error::KeyPublic),
            *self is Ours ==> (r matches Ok(v) ==> v@.len() == KEY_LEN),
    {
        match self {
            Ownership::Genesis => Err(Error::GenesisIsNotKey),
            Ownership::Theirs(p) => Ok(crate::hash::clone_bytes(p)),
            Ownership::Ours(seed) => public_from_seed(seed),
        }
    }
}

/// Genesis canonicity: any two blocks meeting the canonical genesis
/// description agree on hash, signature and payload and are both keyless, so
/// default construction cannot yield two observably different blocks.
pub proof fn lemma_genesis_canonical(a: Block, b: Block)
    requires
        is_genesis_block(a),
        is_genesis_block(b),
    ensures
        a.hash@ == b.hash@,
        a.signature@ == b.signature@,
        a.data@ == b.data@,
        a.ownership is Genesis && b.ownership is Genesis,
{
}

/// Round-trip verification: a block freshly derived over a predecessor hash
/// `prev` passes cryptographic verification against that same predecessor.
pub proof fn lemma_round_trip(b: Block, prev: Seq<u8>)
    requires
        derived_over(b, prev),
    ensures
        verify_outcome(b, prev),
{
}

} // verus!
