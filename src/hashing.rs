use vstd::prelude::*;

use crate::bytes::extend_bytes;
use ink::env::hash::{Blake2x128, Blake2x256, CryptoHash, Keccak256};

verus! {

/// The 16-byte BLAKE2b digest of a byte string.
pub uninterp spec fn blake2_128_of(data: Seq<u8>) -> Seq<u8>;

/// The 32-byte BLAKE2b digest of a byte string.
pub uninterp spec fn blake2_256_of(data: Seq<u8>) -> Seq<u8>;

/// The 32-byte Keccak-256 digest of a byte string.
pub uninterp spec fn keccak_256_of(data: Seq<u8>) -> Seq<u8>;

/// The 8-byte xxHash64 ("twox", seed 0) digest of a byte string.
pub uninterp spec fn twox_64_of(data: Seq<u8>) -> Seq<u8>;

/// Relies on ink's `Blake2x128` hash: the 16-byte BLAKE2b digest of `data`.
#[verifier::external_body]
fn blake2_128(data: &[u8]) -> (r: Vec<u8>)
    ensures
        r@ == blake2_128_of(data@),
        r@.len() == 16,
{
    let mut out = [0u8; 16];
    <Blake2x128 as CryptoHash>::hash(data, &mut out);
    out.to_vec()
}

/// Relies on ink's `Blake2x256` hash: the 32-byte BLAKE2b digest of `data`.
#[verifier::external_body]
fn blake2_256(data: &[u8]) -> (r: Vec<u8>)
    ensures
        r@ == blake2_256_of(data@),
        r@.len() == 32,
{
    let mut out = [0u8; 32];
    <Blake2x256 as CryptoHash>::hash(data, &mut out);
    out.to_vec()
}

/// Relies on ink's `Keccak256` hash: the 32-byte Keccak-256 digest of `data`.
#[verifier::external_body]
fn keccak_256(data: &[u8]) -> (r: Vec<u8>)
    ensures
        r@ == keccak_256_of(data@),
        r@.len() == 32,
{
    let mut out = [0u8; 32];
    <Keccak256 as CryptoHash>::hash(data, &mut out);
    out.to_vec()
}

/// Relies on `sp_crypto_hashing::twox_64`: the 8-byte xxHash64 digest of `data`.
#[verifier::external_body]
fn twox_64(data: &[u8]) -> (r: Vec<u8>)
    ensures
        r@ == twox_64_of(data@),
        r@.len() == 8,
{
    sp_crypto_hashing::twox_64(data).to_vec()
}

/// A hashing scheme of the source ledger's storage maps.
pub trait StorageHasher {
    /// The bytes that the scheme makes of an encoded key.
    spec fn spec_hash(x: Seq<u8>) -> Seq<u8>;

    /// The length of the digest that the scheme puts before the key.
    spec fn digest_len() -> nat;

    fn hash(x: &[u8]) -> (r: Vec<u8>)
        ensures
            r@ == Self::spec_hash(x@),
            r@.len() == x@.len() + Self::digest_len(),
    ;

    /// The largest hashed length of a key whose encoding is at most `key_max_len` bytes.
    fn max_len(key_max_len: usize) -> (r: usize)
        ensures
            r == if key_max_len + Self::digest_len() <= usize::MAX {
                (key_max_len + Self::digest_len()) as usize
            } else {
                usize::MAX
            },
    ;
}

/// The `Blake2_128Concat` scheme: the 16-byte BLAKE2b digest, then the key itself.
pub struct ContractBlake2_128Concat;

impl StorageHasher for ContractBlake2_128Concat {
    open spec fn spec_hash(x: Seq<u8>) -> Seq<u8> {
        blake2_128_of(x) + x
    }

    open spec fn digest_len() -> nat {
        16
    }

    fn hash(x: &[u8]) -> (r: Vec<u8>) {
        let mut r = blake2_128(x);
        extend_bytes(&mut r, x);
        r
    }

    fn max_len(key_max_len: usize) -> (r: usize) {
        key_max_len.saturating_add(16)
    }
}

/// The `Twox64Concat` scheme: the 8-byte xxHash64 digest, then the key itself.
pub struct ContractTwox64Concat;

impl StorageHasher for ContractTwox64Concat {
    open spec fn spec_hash(x: Seq<u8>) -> Seq<u8> {
        twox_64_of(x) + x
    }

    open spec fn digest_len() -> nat {
        8
    }

    fn hash(x: &[u8]) -> (r: Vec<u8>) {
        let mut r = twox_64(x);
        extend_bytes(&mut r, x);
        r
    }

    fn max_len(key_max_len: usize) -> (r: usize) {
        key_max_len.saturating_add(8)
    }
}

/// The Keccak-256 hash family: the trie hasher of Keccak ledgers, and the signing hash.
pub struct ContractKeccak256;

impl ContractKeccak256 {
    /// The 32-byte Keccak-256 digest of `s`.
    pub fn hash(s: &[u8]) -> (r: Vec<u8>)
        ensures
            r@ == keccak_256_of(s@),
            r@.len() == 32,
    {
        keccak_256(s)
    }
}

/// The BLAKE2b-256 hash family: the trie hasher of Blake2 ledgers, and the key derivation hash.
pub struct ContractBlakeTwo256;

impl ContractBlakeTwo256 {
    /// The 32-byte BLAKE2b digest of `s`.
    pub fn hash(s: &[u8]) -> (r: Vec<u8>)
        ensures
            r@ == blake2_256_of(s@),
            r@.len() == 32,
    {
        blake2_256(s)
    }
}

} // verus!
