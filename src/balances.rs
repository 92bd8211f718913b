use vstd::prelude::*;

use crate::bytes::{be_bytes, be_value, lemma_be_value_of_bytes, pow256};
use crate::evm::{ABIEncode, Address, EncodedMessage, SignedMessage};
use ethabi::ethereum_types::H160;
use ethabi::Token;

verus! {

/// An amount of an asset.
pub type Balance = u128;

/// A 32-byte account of the source ledger.
pub type AccountId = [u8; 32];

/// The fungible asset that a claim concerns.
#[derive(Debug, Clone, Copy, PartialEq, Eq)]
pub struct Asset {
    pub id: u32,
    pub decimals: u8,
}

/// A balance claim: a source account holds `amount` of `asset`, to be credited to an EVM
/// address.
pub struct ProverRequest {
    pub substrate_account: AccountId,
    pub evm_address: Address,
    pub asset: Asset,
    pub amount: Balance,
}

/// A 32-byte ABI word holding `n`.
pub open spec fn abi_word(n: nat) -> Seq<u8> {
    be_bytes(n, 32)
}

/// The ABI encoding of the tuple `(bytes account, address evm, (uint id, uint decimals), uint
/// amount)` for a 32-byte account: five head words (the offset 160 of the account's bytes, the
/// address padded on the left with 12 zero bytes, the two asset words, the amount), then the
/// account's length 32 and its 32 bytes.
pub open spec fn claim_abi_layout(
    account: Seq<u8>,
    address: Seq<u8>,
    id: u32,
    decimals: u8,
    amount: u128,
) -> Seq<u8> {
    abi_word(160) + (Seq::new(12, |i: int| 0u8) + address) + abi_word(id as nat) + abi_word(
        decimals as nat,
    ) + abi_word(amount as nat) + abi_word(32) + account
}

/// The claim fields that a 224-byte ABI encoding of the claim tuple holds, if it has that shape:
/// account, address, asset id, asset decimals and amount.
pub open spec fn claim_abi_decode(b: Seq<u8>) -> Option<(Seq<u8>, Seq<u8>, nat, nat, nat)> {
    if b.len() == 224 && be_value(b.subrange(0, 32)) == 160 && be_value(b.subrange(160, 192))
        == 32 && b.subrange(32, 44) == Seq::new(12, |i: int| 0u8) {
        Some(
            (
                b.subrange(192, 224),
                b.subrange(44, 64),
                be_value(b.subrange(64, 96)),
                be_value(b.subrange(96, 128)),
                be_value(b.subrange(128, 160)),
            ),
        )
    } else {
        None
    }
}

/// Relies on `ethabi::encode`: a 32-byte `Bytes` token is dynamic (an offset word in the head,
/// its length word and one data word in the tail), an `Address` is padded on the left to a word,
/// a `Tuple` of static tokens is static and stands inline, and a `Uint` is a big-endian word.
#[verifier::external_body]
fn abi_encode_claim(
    account: &[u8; 32],
    address: &[u8; 20],
    id: u32,
    decimals: u8,
    amount: u128,
) -> (r: Vec<u8>)
    ensures
        r@ == claim_abi_layout(account@, address@, id, decimals, amount),
{
    let tokens = vec![
        Token::Bytes(account.to_vec()),
        Token::Address(H160(*address)),
        Token::Tuple(vec![Token::Uint(id.into()), Token::Uint(decimals.into())]),
        Token::Uint(amount.into()),
    ];
    ethabi::encode(&tokens)
}

impl ProverRequest {
    pub fn new(
        substrate_account: AccountId,
        evm_address: Address,
        asset: Asset,
        amount: Balance,
    ) -> (r: Self)
        ensures
            r.substrate_account == substrate_account,
            r.evm_address == evm_address,
            r.asset == asset,
            r.amount == amount,
    {
        ProverRequest { substrate_account, evm_address, asset, amount }
    }
}

impl ABIEncode for ProverRequest {
    open spec fn spec_abi_encode(&self) -> Seq<u8> {
        claim_abi_layout(
            self.substrate_account@,
            self.evm_address.0@,
            self.asset.id,
            self.asset.decimals,
            self.amount,
        )
    }

    fn abi_encode(&self) -> (r: EncodedMessage) {
        abi_encode_claim(
            &self.substrate_account,
            &self.evm_address.0,
            self.asset.id,
            self.asset.decimals,
            self.amount,
        )
    }
}

/// The encoding of a claim decodes back to the claim's fields: the account, the address, the
/// asset id and decimals, and the amount.
pub proof fn lemma_claim_abi_round_trip(request: &ProverRequest)
    ensures
        claim_abi_decode(request.spec_abi_encode()) == Some(
            (
                request.substrate_account@,
                request.evm_address.0@,
                request.asset.id as nat,
                request.asset.decimals as nat,
                request.amount as nat,
            ),
        ),
{
    let account = request.substrate_account@;
    let address = request.evm_address.0@;
    assert(pow256(32) > 0xffff_ffff_ffff_ffff_ffff_ffff_ffff_ffff) by {
        reveal_with_fuel(pow256, 33);
    }
    lemma_be_value_of_bytes(160, 32);
    lemma_be_value_of_bytes(32, 32);
    lemma_be_value_of_bytes(request.asset.id as nat, 32);
    lemma_be_value_of_bytes(request.asset.decimals as nat, 32);
    lemma_be_value_of_bytes(request.amount as nat, 32);
    let b = request.spec_abi_encode();
    assert(b.len() == 224);
    assert(b.subrange(0, 32) =~= abi_word(160));
    assert(b.subrange(32, 44) =~= Seq::new(12, |i: int| 0u8));
    assert(b.subrange(44, 64) =~= address);
    assert(b.subrange(64, 96) =~= abi_word(request.asset.id as nat));
    assert(b.subrange(96, 128) =~= abi_word(request.asset.decimals as nat));
    assert(b.subrange(128, 160) =~= abi_word(request.amount as nat));
    assert(b.subrange(160, 192) =~= abi_word(32));
    assert(b.subrange(192, 224) =~= account);
}

/// The message that the prover emits: the encoded claim and its signature.
pub struct BalanceProverMessage {
    pub encoded_request: EncodedMessage,
    pub signature: Vec<u8>,
}

impl BalanceProverMessage {
    /// The message of a signed claim.
    pub fn from_signed(signed_msg: SignedMessage) -> (r: Self)
        ensures
            r.encoded_request@ == signed_msg.encoded_msg@,
            r.signature@ == signed_msg.signature@,
    {
        BalanceProverMessage {
            encoded_request: signed_msg.encoded_msg,
            signature: signed_msg.signature,
        }
    }
}

} // verus!
