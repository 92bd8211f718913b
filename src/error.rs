use vstd::prelude::*;

verus! {

/// What can go wrong in the prover.
#[derive(Debug, PartialEq, Eq)]
pub enum Error {
    /// The caller is not the administrator.
    BadOrigin,
    /// The seed is not a valid 32-byte secp256k1 secret.
    InvalidSeedLength,
    /// The witnesses could not resolve a key.
    KeyError(String),
    /// The proof envelope could not be decoded.
    DecodingProofError(String),
    /// The RPC response body is not a read proof.
    RpcInvalidBody,
    /// A witness is not `0x`-prefixed hex.
    InvalidHexData,
    /// A witness holds nothing after its `0x` prefix.
    HexStringOutOfBounds,
    /// The RPC node did not answer with success.
    RpcRequestFailed,
    /// The balance request has already been signed.
    RequestAlreadySigned,
    /// The state root is not 32 bytes long.
    InvalidHashBytes,
    /// No balance is stored under the account's key.
    InvalidBalance,
    /// The stored balance is not a valid amount encoding.
    InvalidBalanceDecoding,
    /// The signer found no valid nonce for the claim (a case of negligible probability).
    SigningFailed,
}

} // verus!
