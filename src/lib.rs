//! A cross-chain balance attestation oracle: it verifies a Merkle-Patricia state proof of an
//! account's balance against a committed state root, and emits an ABI-encoded claim signed
//! with a versioned secp256k1 key.

pub mod access_control;
pub mod balances;
pub mod builders;
pub mod bytes;
pub mod crypto;
pub mod error;
pub mod evm;
pub mod hashing;
pub mod prover;
pub mod rpc;
pub mod state_proofs;
