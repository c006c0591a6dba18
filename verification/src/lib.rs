//! A minimal hash-linked block primitive: each block cryptographically
//! commits to its payload and to the hash of the preceding block, and carries
//! an Ed25519 signature proving authorship.
//!
//! The crate produces and checks single-block integrity and authorship;
//! sequencing blocks into a chain, serialization framing and persistence are
//! the caller's concern.

pub mod block;
pub mod crypto;
pub mod error;
pub mod hash;

pub use block::Block;
pub use block::Ownership;
pub use error::Error;
