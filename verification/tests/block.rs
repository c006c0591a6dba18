use onft::{Block, Error, Ownership};

fn genesis() -> Block {
    Block::default()
}

#[test]
fn genesis_canonical() {
    let a = Block::default();
    let b = Block::default();
    assert_eq!(a.hash.bytes, vec![0u8; 32]);
    assert_eq!(a.signature, vec![0u8; 64]);
    assert!(a.data.is_empty());
    assert!(matches!(a.ownership, Ownership::Genesis));
    assert_eq!(a.hash.bytes, b.hash.bytes);
    assert_eq!(a.signature, b.signature);
    assert_eq!(a.data, b.data);
    assert!(matches!(b.ownership, Ownership::Genesis));
}

#[test]
fn round_trip_hello_world() {
    let g = genesis();
    let block = Block::new(&g.hash, b"Hello, world!".to_vec()).unwrap();
    assert_eq!(block.verify(&g.hash), Ok(true));
}

#[test]
fn round_trip_empty_payload() {
    let g = genesis();
    let block = Block::new(&g.hash, Vec::new()).unwrap();
    assert_eq!(block.verify(&g.hash), Ok(true));
}

#[test]
fn round_trip_nonzero_predecessor() {
    let g = genesis();
    let first = Block::new(&g.hash, b"first".to_vec()).unwrap();
    let second = Block::new(&first.hash, b"second".to_vec()).unwrap();
    assert_eq!(second.verify(&first.hash), Ok(true));
}

#[test]
fn tamper_payload_detected() {
    let g = genesis();
    let mut block = Block::new(&g.hash, b"Hello, world!".to_vec()).unwrap();
    block.data[0] ^= 1;
    assert_eq!(block.verify(&g.hash), Ok(false));
}

#[test]
fn tamper_predecessor_detected() {
    let g = genesis();
    let block = Block::new(&g.hash, b"payload".to_vec()).unwrap();
    let mut other = onft::hash::Hash { bytes: vec![0u8; 32] };
    other.bytes[0] = 1;
    assert_eq!(block.verify(&other), Ok(false));
}

#[test]
fn genesis_verify_is_error() {
    let g = genesis();
    let zero = onft::hash::Hash { bytes: vec![0u8; 32] };
    assert_eq!(g.verify(&zero), Err(Error::GenesisIsNotKey));
    let nonzero = onft::hash::Hash { bytes: vec![7u8; 32] };
    assert_eq!(g.verify(&nonzero), Err(Error::GenesisIsNotKey));
}

#[test]
fn key_uniqueness() {
    let g = genesis();
    let a = Block::new(&g.hash, b"same input".to_vec()).unwrap();
    let b = Block::new(&g.hash, b"same input".to_vec()).unwrap();
    assert_ne!(a.signature, b.signature);
    let pub_a = a.ownership.to_raw_public().unwrap();
    let pub_b = b.ownership.to_raw_public().unwrap();
    assert_ne!(pub_a, pub_b);
}

#[test]
fn export_symmetry_ours() {
    let g = genesis();
    let block = Block::new(&g.hash, b"data".to_vec()).unwrap();
    let raw = block.ownership.to_raw_public().unwrap();
    assert!(!raw.is_empty());
    assert_eq!(raw.len(), 32);
}

#[test]
fn export_symmetry_theirs() {
    let g = genesis();
    let block = Block::new(&g.hash, b"data".to_vec()).unwrap();
    let raw = block.ownership.to_raw_public().unwrap();
    let theirs = Ownership::Theirs(raw.clone());
    assert_eq!(theirs.to_raw_public(), Ok(raw));
}

#[test]
fn export_genesis_fails() {
    assert_eq!(Ownership::Genesis.to_raw_public(), Err(Error::GenesisIsNotKey));
}

#[test]
fn theirs_block_still_verifies() {
    // A block whose exported public key replaces the private one — the shape a
    // third party reconstructs after transport — verifies exactly the same.
    let g = genesis();
    let block = Block::new(&g.hash, b"transported".to_vec()).unwrap();
    let raw = block.ownership.to_raw_public().unwrap();
    let theirs = Block {
        hash: block.hash.clone(),
        ownership: Ownership::Theirs(raw),
        signature: block.signature.clone(),
        data: block.data.clone(),
    };
    assert_eq!(theirs.verify(&g.hash), Ok(true));
    let mut wrong = onft::hash::Hash { bytes: vec![0u8; 32] };
    wrong.bytes[31] = 9;
    assert_eq!(theirs.verify(&wrong), Ok(false));
}

#[test]
fn malformed_theirs_key_is_verifier_error() {
    let g = genesis();
    let block = Block {
        hash: onft::hash::Hash { bytes: vec![0u8; 32] },
        ownership: Ownership::Theirs(vec![1, 2, 3]),
        signature: vec![0u8; 64],
        data: b"x".to_vec(),
    };
    assert_eq!(block.verify(&g.hash), Err(Error::Verifier));
}

#[test]
fn hash_matches_sha256_of_predecessor_and_payload() {
    let g = genesis();
    let data = b"Hello, world!".to_vec();
    let block = Block::new(&g.hash, data.clone()).unwrap();
    let mut msg = g.hash.bytes.clone();
    msg.extend_from_slice(&data);
    let expected = openssl::sha::sha256(&msg).to_vec();
    assert_eq!(block.hash.bytes, expected);
    assert_ne!(block.hash.bytes, msg);
}

#[test]
fn hash_deterministic_for_same_inputs() {
    let g = genesis();
    let a = Block::new(&g.hash, b"same".to_vec()).unwrap();
    let b = Block::new(&g.hash, b"same".to_vec()).unwrap();
    assert_eq!(a.hash.bytes, b.hash.bytes);
}

#[test]
fn signature_checks_under_exported_key() {
    // Cross-check the signing and export wrappers against openssl directly:
    // the stored signature must verify over `previous_hash || data` under the
    // exported raw public key.
    let g = genesis();
    let data = b"cross-checked".to_vec();
    let block = Block::new(&g.hash, data.clone()).unwrap();
    let raw = block.ownership.to_raw_public().unwrap();
    let key =
        openssl::pkey::PKey::public_key_from_raw_bytes(&raw, openssl::pkey::Id::ED25519).unwrap();
    let mut verifier = openssl::sign::Verifier::new_without_digest(&key).unwrap();
    let mut msg = g.hash.bytes.clone();
    msg.extend_from_slice(&data);
    assert!(verifier.verify_oneshot(&block.signature, &msg).unwrap());
}

#[test]
fn new_block_fields() {
    let g = genesis();
    let data = b"fields".to_vec();
    let block = Block::new(&g.hash, data.clone()).unwrap();
    assert_eq!(block.data, data);
    assert_eq!(block.hash.bytes.len(), 32);
    assert_eq!(block.signature.len(), 64);
    assert!(matches!(block.ownership, Ownership::Ours(_)));
}
