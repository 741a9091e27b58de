//! An append-only chain of hash-sealed records, where sealing a record means
//! finding a nonce whose SHA-256 digest meets a leading-zero-bit target.
//!
//! The chain links every block to its predecessor's digest, delegates sealing
//! to a pluggable consensus strategy, and ships one concrete strategy,
//! a brute-force proof-of-work nonce search over the full 32-bit range.

pub mod block;
pub mod chain;
pub mod consensus;
pub mod digest;
pub mod model;
pub mod pow;

pub use block::Block;
pub use chain::Blockchain;
pub use consensus::Consensus;
pub use model::BlockView;
pub use pow::ProofOfWork;
