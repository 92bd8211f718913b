use vstd::prelude::*;

use crate::hashing::{keccak_256_of, ContractKeccak256};

verus! {

/// An ABI-encoded message.
pub type EncodedMessage = Vec<u8>;

/// Types with an encoding in the destination chain's ABI.
pub trait ABIEncode {
    /// The ABI encoding of the value.
    spec fn spec_abi_encode(&self) -> Seq<u8>;

    fn abi_encode(&self) -> (r: EncodedMessage)
        ensures
            r@ == self.spec_abi_encode(),
    ;
}

/// The EVM address of a public point: the last 20 bytes of its Keccak-256 digest.
pub open spec fn evm_address_of(public: Seq<u8>) -> Seq<u8> {
    keccak_256_of(public).subrange(12, 32)
}

/// An EVM address.
#[derive(Debug, Clone, Copy, PartialEq, Eq)]
pub struct Address(pub [u8; 20]);

impl Address {
    /// The address of a 64-byte public point `x ‖ y` (its uncompressed encoding without the tag).
    pub fn from_public_key(public: &[u8]) -> (r: Address)
        ensures
            r.0@ == evm_address_of(public@),
    {
        let digest = ContractKeccak256::hash(public);
        let mut address = [0u8; 20];
        let mut i: usize = 0;
        while i < 20
            invariant
                digest@.len() == 32,
                i <= 20,
                forall|j: int| 0 <= j < i ==> address@[j] == digest@[12 + j],
            decreases 20 - i,
        {
            address[i] = digest[12 + i];
            i = i + 1;
        }
        proof {
            assert(address@ =~= digest@.subrange(12, 32));
        }
        Address(address)
    }
}

/// An encoded message and its signature.
pub struct SignedMessage {
    pub signature: Vec<u8>,
    pub encoded_msg: EncodedMessage,
}

} // verus!
