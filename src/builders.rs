use vstd::prelude::*;

use crate::balances::{BalanceProverMessage, ProverRequest};
use crate::bytes::{copy_bytes, extend_bytes};
use crate::crypto::{ecdsa_recoverable_signature_of, ecdsa_signs, ContractKeyPair, SIGNATURE_LENGTH};
use crate::evm::{ABIEncode, EncodedMessage, SignedMessage};
use crate::hashing::{
    blake2_128_of, keccak_256_of, twox_64_of, ContractBlake2_128Concat, ContractTwox64Concat,
    StorageHasher,
};

verus! {

/// A raw storage key of the balances map.
pub type BalancesStorageKey = Vec<u8>;

/// A storage item key, already in its wire encoding, with the scheme that hashes it.
pub enum StorageItemKey {
    Blake2_128Concat(Vec<u8>),
    Twox64Concat(Vec<u8>),
}

/// The bytes that an item contributes to a storage key: the scheme's digest of the encoded key,
/// then the encoded key itself.
pub open spec fn item_part(item: StorageItemKey) -> Seq<u8> {
    match item {
        StorageItemKey::Blake2_128Concat(k) => blake2_128_of(k@) + k@,
        StorageItemKey::Twox64Concat(k) => twox_64_of(k@) + k@,
    }
}

/// The length of an item's part: the scheme's digest length plus the encoded key's.
pub open spec fn item_part_len(item: StorageItemKey) -> nat {
    match item {
        StorageItemKey::Blake2_128Concat(k) => 16 + k@.len(),
        StorageItemKey::Twox64Concat(k) => 8 + k@.len(),
    }
}

/// The parts one after the other.
pub open spec fn concat_parts(parts: Seq<Seq<u8>>) -> Seq<u8>
    decreases parts.len(),
{
    if parts.len() == 0 {
        Seq::empty()
    } else {
        concat_parts(parts.drop_last()) + parts.last()
    }
}

/// The storage key of a prefix and a list of items: the prefix, then each item's part in order.
pub open spec fn storage_key_of(prefix: Seq<u8>, items: Seq<StorageItemKey>) -> Seq<u8> {
    prefix + concat_parts(items.map_values(|item: StorageItemKey| item_part(item)))
}

/// Builds the raw storage key of an entry of a storage map.
pub struct BalanceStorageKeyBuilder {
    pub prefix: Vec<u8>,
    pub suffix: Vec<Vec<u8>>,
}

impl BalanceStorageKeyBuilder {
    /// The parts pushed so far.
    pub open spec fn suffix_view(&self) -> Seq<Seq<u8>> {
        self.suffix@.map_values(|part: Vec<u8>| part@)
    }

    /// A builder with the map's prefix and no items.
    pub fn from_prefix(prefix: &[u8]) -> (r: Self)
        ensures
            r.prefix@ == prefix@,
            r.suffix_view() == Seq::<Seq<u8>>::empty(),
    {
        let r = BalanceStorageKeyBuilder { prefix: copy_bytes(prefix), suffix: Vec::new() };
        proof {
            assert(r.suffix_view() =~= Seq::<Seq<u8>>::empty());
        }
        r
    }

    /// Appends the part of one more item.
    pub fn push_item_key(self, key: StorageItemKey) -> (r: Self)
        ensures
            r.prefix@ == self.prefix@,
            r.suffix_view() == self.suffix_view().push(item_part(key)),
            item_part(key).len() == item_part_len(key),
    {
        let mut suffix = self.suffix;
        let ghost old_view = self.suffix_view();
        let part = match key {
            StorageItemKey::Blake2_128Concat(k) => ContractBlake2_128Concat::hash(k.as_slice()),
            StorageItemKey::Twox64Concat(k) => ContractTwox64Concat::hash(k.as_slice()),
        };
        suffix.push(part);
        let r = BalanceStorageKeyBuilder { prefix: self.prefix, suffix };
        proof {
            assert(r.suffix_view() =~= old_view.push(item_part(key)));
        }
        r
    }

    /// The key: the prefix, then the parts in the order in which they were pushed.
    pub fn build(self) -> (r: BalancesStorageKey)
        ensures
            r@ == self.prefix@ + concat_parts(self.suffix_view()),
    {
        let ghost parts = self.suffix_view();
        let mut key = copy_bytes(self.prefix.as_slice());
        let mut i: usize = 0;
        while i < self.suffix.len()
            invariant
                i <= self.suffix@.len(),
                parts == self.suffix_view(),
                key@ == self.prefix@ + concat_parts(parts.take(i as int)),
            decreases self.suffix@.len() - i,
        {
            extend_bytes(&mut key, self.suffix[i].as_slice());
            proof {
                assert(parts.take(i + 1).drop_last() =~= parts.take(i as int));
                assert(parts.take(i + 1).last() == parts[i as int]);
            }
            i = i + 1;
        }
        proof {
            assert(parts.take(i as int) =~= parts);
        }
        key
    }
}

/// The builder's key is the prefix followed by the items' parts in the order given; so two
/// items whose parts have one length give the same key in both orders only when their parts
/// are the same.
pub proof fn lemma_storage_key_order(prefix: Seq<u8>, a: StorageItemKey, b: StorageItemKey)
    requires
        item_part(a).len() == item_part(b).len(),
    ensures
        storage_key_of(prefix, seq![a, b]) == prefix + item_part(a) + item_part(b),
        storage_key_of(prefix, seq![a, b]) == storage_key_of(prefix, seq![b, a]) ==> item_part(a)
            == item_part(b),
{
    let pa = item_part(a);
    let pb = item_part(b);
    let f = |item: StorageItemKey| item_part(item);
    reveal_with_fuel(concat_parts, 3);
    assert(seq![a, b].map_values(f) =~= seq![pa, pb]);
    assert(seq![b, a].map_values(f) =~= seq![pb, pa]);
    assert(seq![pa, pb].drop_last() =~= seq![pa]);
    assert(seq![pb, pa].drop_last() =~= seq![pb]);
    assert(seq![pa].drop_last() =~= Seq::<Seq<u8>>::empty());
    assert(seq![pb].drop_last() =~= Seq::<Seq<u8>>::empty());
    assert(concat_parts(seq![pa]) =~= pa);
    assert(concat_parts(seq![pb]) =~= pb);
    let k1 = prefix + (pa + pb);
    let k2 = prefix + (pb + pa);
    assert(storage_key_of(prefix, seq![a, b]) =~= k1);
    assert(storage_key_of(prefix, seq![b, a]) =~= k2);
    assert(k1 =~= prefix + pa + pb);
    if k1 == k2 {
        let n = prefix.len() as int;
        assert(k1.subrange(n, n + pa.len()) =~= pa);
        assert(k2.subrange(n, n + pb.len()) =~= pb);
    }
}

/// An empty message builder.
pub struct EmptyMessage;

/// The stages of an attestation: empty, encoded claim, signed claim, then the message.
pub struct BalanceProverMessageBuilder<T>(T);

impl<T> BalanceProverMessageBuilder<T> {
    /// What the current stage holds.
    pub closed spec fn stage(&self) -> T {
        self.0
    }
}

impl BalanceProverMessageBuilder<EmptyMessage> {
    /// The empty stage.
    pub fn new() -> (r: Self) {
        BalanceProverMessageBuilder(EmptyMessage)
    }

    /// Attaches a claim: the next stage holds its ABI encoding.
    pub fn request(self, request: ProverRequest) -> (r: BalanceProverMessageBuilder<
        EncodedMessage,
    >)
        ensures
            r.stage()@ == request.spec_abi_encode(),
    {
        BalanceProverMessageBuilder(request.abi_encode())
    }
}

impl BalanceProverMessageBuilder<EncodedMessage> {
    /// Signs the encoded claim with the key pair; the next stage holds the very bytes that were
    /// signed and their signature. `None` when the signer finds no valid nonce.
    pub fn sign_request(self, pair: &ContractKeyPair) -> (r: Option<
        BalanceProverMessageBuilder<SignedMessage>,
    >)
        requires
            pair.wf(),
        ensures
            r is Some <==> ecdsa_signs(pair.secret_view(), keccak_256_of(self.stage()@)),
            r matches Some(b) ==> b.stage().encoded_msg@ == self.stage()@
                && b.stage().signature@ == ecdsa_recoverable_signature_of(
                pair.secret_view(),
                keccak_256_of(self.stage()@),
            ) && b.stage().signature@.len() == SIGNATURE_LENGTH,
    {
        match pair.sign(self.0.as_slice()) {
            Some(signature) => Some(
                BalanceProverMessageBuilder(SignedMessage { signature, encoded_msg: self.0 }),
            ),
            None => None,
        }
    }
}

impl BalanceProverMessageBuilder<SignedMessage> {
    /// The message: the encoded claim and its signature.
    pub fn build(self) -> (r: BalanceProverMessage)
        ensures
            r.encoded_request@ == self.stage().encoded_msg@,
            r.signature@ == self.stage().signature@,
    {
        BalanceProverMessage::from_signed(self.0)
    }
}

} // verus!
