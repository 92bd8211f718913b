use vstd::prelude::*;

use crate::access_control::AccessControl;
use crate::balances::{
    claim_abi_decode, claim_abi_layout, lemma_claim_abi_round_trip, AccountId, Asset,
    BalanceProverMessage, ProverRequest,
};
use crate::builders::{
    concat_parts, item_part, BalanceProverMessageBuilder, BalanceStorageKeyBuilder,
    StorageItemKey,
};
use crate::bytes::{copy_bytes, le_value};
use crate::crypto::{
    ecdsa_recoverable_signature_of, ecdsa_signs, is_valid_secret, next_version, secp256k1_public_of,
    ContractKeyPair, ContractSeed, SIGNATURE_LENGTH,
};
use crate::error::Error;
use crate::evm::{evm_address_of, Address};
use crate::hashing::{blake2_128_of, keccak_256_of};
use crate::rpc::{read_proof_body, Rpc};
use crate::state_proofs::{
    decode_balance, nodes_view, opt_bytes_view, trie_lookup, verify_state_proof, HashAlgorithm,
    SnapshotCommitment, SubstrateStateProof,
};

verus! {

/// Whether the prover is serving requests.
#[derive(Debug, Clone, Copy, PartialEq, Eq)]
pub enum ProverStatus {
    Paused,
    Live,
}

/// The storage key of an account's balance: the map's prefix, then the account hashed with
/// `Blake2_128Concat` (its 16-byte BLAKE2b digest, then the account itself).
pub open spec fn balance_key_of(prefix: Seq<u8>, who: Seq<u8>) -> Seq<u8> {
    prefix + (blake2_128_of(who) + who)
}

/// What the prover holds, as plain values.
pub struct ProverView {
    pub sudo: Seq<u8>,
    pub evm_address: Seq<u8>,
    pub seed: Seq<u8>,
    pub version: u32,
    pub height: u32,
    pub block_hash: Seq<u8>,
    pub state_root: Seq<u8>,
    pub hasher: HashAlgorithm,
    pub storage_key_prefix: Seq<u8>,
    pub asset: Asset,
    pub rpc_url: Seq<char>,
    pub status: ProverStatus,
}

/// The balance prover: the administrator, the signing key and its EVM address, the snapshot,
/// the balances map's key prefix, the asset, the RPC node and the status.
pub struct BalancesProver {
    sudo: AccountId,
    evm_address: Address,
    seed: ContractSeed,
    snapshot: SnapshotCommitment,
    storage_key_prefix: Vec<u8>,
    asset: Asset,
    rpc: Rpc,
    status: ProverStatus,
}

impl View for BalancesProver {
    type V = ProverView;

    closed spec fn view(&self) -> ProverView {
        ProverView {
            sudo: self.sudo@,
            evm_address: self.evm_address.0@,
            seed: self.seed.seed@,
            version: self.seed.version,
            height: self.snapshot.height,
            block_hash: self.snapshot.block_hash@,
            state_root: self.snapshot.state_root@,
            hasher: self.snapshot.hasher,
            storage_key_prefix: self.storage_key_prefix@,
            asset: self.asset,
            rpc_url: self.rpc.url_view(),
            status: self.status,
        }
    }
}

impl ProverView {
    /// The seed is a valid secret and the EVM address is that of its public point.
    pub open spec fn wf(self) -> bool {
        &&& is_valid_secret(self.seed)
        &&& self.evm_address == evm_address_of(secp256k1_public_of(self.seed))
    }

    /// What the trie of the snapshot gives for the balance key of `who`, with `witnesses`.
    pub open spec fn balance_lookup(self, who: Seq<u8>, witnesses: Seq<Seq<u8>>) -> Option<
        Option<Seq<u8>>,
    > {
        trie_lookup(
            self.hasher,
            self.state_root,
            witnesses,
            balance_key_of(self.storage_key_prefix, who),
        )
    }
}

/// The parts of a snapshot, as plain values.
pub open spec fn snapshot_fields(s: SnapshotCommitment) -> (u32, Seq<u8>, Seq<u8>, HashAlgorithm) {
    (s.height, s.block_hash@, s.state_root@, s.hasher)
}

impl BalancesProver {
    /// A prover with `caller` as administrator and the given key pair.
    pub fn from_key_pair(
        caller: AccountId,
        pair: ContractKeyPair,
        snapshot: SnapshotCommitment,
        storage_key_prefix: Vec<u8>,
        asset: Asset,
        http_endpoint: String,
        status: ProverStatus,
    ) -> (r: Self)
        requires
            pair.wf(),
        ensures
            r@.wf(),
            r@.sudo == caller@,
            r@.seed == pair.secret_view(),
            r@.version == pair.version_view(),
            (r@.height, r@.block_hash, r@.state_root, r@.hasher) == snapshot_fields(snapshot),
            r@.storage_key_prefix == storage_key_prefix@,
            r@.asset == asset,
            r@.rpc_url == http_endpoint@,
            r@.status == status,
    {
        let public = pair.public();
        let evm_address = Address::from_public_key(public.as_slice());
        BalancesProver {
            sudo: caller,
            evm_address,
            seed: pair.to_seed(),
            snapshot,
            storage_key_prefix,
            asset,
            rpc: Rpc::new(http_endpoint),
            status,
        }
    }

    /// A prover with `caller` as administrator, whose key is derived from the snapshot's block
    /// hash by the contract's confidential derivation (version 0).
    pub fn new(
        caller: AccountId,
        snapshot: SnapshotCommitment,
        storage_key_prefix: Vec<u8>,
        asset: Asset,
        http_endpoint: String,
        status: ProverStatus,
    ) -> (r: Result<Self, Error>)
        ensures
            r matches Ok(p) ==> {
                &&& p@.wf()
                &&& p@.sudo == caller@
                &&& p@.version == 0
                &&& (p@.height, p@.block_hash, p@.state_root, p@.hasher) == snapshot_fields(
                    snapshot,
                )
                &&& p@.storage_key_prefix == storage_key_prefix@
                &&& p@.asset == asset
                &&& p@.rpc_url == http_endpoint@
                &&& p@.status == status
            },
            r matches Err(e) ==> e == Error::InvalidSeedLength,
    {
        let pair = ContractKeyPair::generate(snapshot.block_hash.as_slice())?;
        Ok(
            Self::from_key_pair(
                caller,
                pair,
                snapshot,
                storage_key_prefix,
                asset,
                http_endpoint,
                status,
            ),
        )
    }

    /// Succeeds with the caller exactly when the caller is the administrator.
    fn ensure_root(&self, caller: AccountId) -> (r: Result<AccountId, Error>)
        ensures
            r is Ok <==> caller@ == self@.sudo,
            r matches Ok(who) ==> who == caller,
            r is Err ==> r == Err::<AccountId, Error>(Error::BadOrigin),
    {
        AccessControl::from_account(self.sudo).ensure_root(caller)?;
        Ok(caller)
    }

    /// The contract's key pair, rebuilt from the stored seed.
    fn pair(&self) -> (r: Result<ContractKeyPair, Error>)
        ensures
            is_valid_secret(self@.seed) ==> r is Ok,
            r matches Ok(kp) ==> kp.wf() && kp.secret_view() == self@.seed && kp.version_view()
                == self@.version,
            r is Err ==> r == Err::<ContractKeyPair, Error>(Error::InvalidSeedLength),
    {
        ContractKeyPair::from_seed(&self.seed)
    }

    /// The EVM address of the signing key.
    pub fn address(&self) -> (r: Address)
        ensures
            r.0@ == self@.evm_address,
    {
        self.evm_address
    }

    /// The administrator's account.
    pub fn sudo(&self) -> (r: AccountId)
        ensures
            r@ == self@.sudo,
    {
        self.sudo
    }

    /// The RPC node's URL.
    pub fn rpc_url(&self) -> (r: String)
        ensures
            r@ == self@.rpc_url,
    {
        self.rpc.url()
    }

    /// The key version in use.
    pub fn key_version(&self) -> (r: u32)
        ensures
            r == self@.version,
    {
        self.seed.version
    }

    /// Replaces the signing key with the next version and its address; only the administrator
    /// may. Nothing changes when it fails.
    pub fn force_derive_new_key(&mut self, caller: AccountId) -> (r: Result<(), Error>)
        ensures
            caller@ != old(self)@.sudo <==> r == Err::<(), Error>(Error::BadOrigin),
            caller@ == old(self)@.sudo && !is_valid_secret(old(self)@.seed) ==> r == Err::<
                (),
                Error,
            >(Error::InvalidSeedLength),
            r is Err ==> final(self)@ == old(self)@,
            r is Ok ==> {
                &&& caller@ == old(self)@.sudo
                &&& final(self)@.wf()
                &&& final(self)@.version == next_version(old(self)@.version)
                &&& final(self)@ == (ProverView {
                    evm_address: final(self)@.evm_address,
                    seed: final(self)@.seed,
                    version: final(self)@.version,
                    ..old(self)@
                })
            },
            r is Err ==> (r->Err_0 == Error::BadOrigin || r->Err_0 == Error::InvalidSeedLength),
    {
        self.ensure_root(caller)?;
        let pair = self.pair()?;
        let pair = pair.derive_new_version()?;
        let public = pair.public();
        self.seed = pair.to_seed();
        self.evm_address = Address::from_public_key(public.as_slice());
        Ok(())
    }

    /// Replaces the snapshot; only the administrator may.
    pub fn force_update_snapshot(&mut self, caller: AccountId, snapshot: SnapshotCommitment) -> (r:
        Result<(), Error>)
        ensures
            r is Ok <==> caller@ == old(self)@.sudo,
            r is Err ==> r == Err::<(), Error>(Error::BadOrigin) && final(self)@ == old(self)@,
            r is Ok ==> final(self)@ == (ProverView {
                height: snapshot.height,
                block_hash: snapshot.block_hash@,
                state_root: snapshot.state_root@,
                hasher: snapshot.hasher,
                ..old(self)@
            }),
    {
        self.ensure_root(caller)?;
        self.snapshot = snapshot;
        Ok(())
    }

    /// Replaces the balances map's key prefix; only the administrator may.
    pub fn force_update_storage_key_prefix(&mut self, caller: AccountId, key_prefix: Vec<u8>) -> (r:
        Result<(), Error>)
        ensures
            r is Ok <==> caller@ == old(self)@.sudo,
            r is Err ==> r == Err::<(), Error>(Error::BadOrigin) && final(self)@ == old(self)@,
            r is Ok ==> final(self)@ == (ProverView {
                storage_key_prefix: key_prefix@,
                ..old(self)@
            }),
    {
        self.ensure_root(caller)?;
        self.storage_key_prefix = key_prefix;
        Ok(())
    }

    /// Replaces the asset; only the administrator may.
    pub fn force_update_asset_info(&mut self, caller: AccountId, asset_info: Asset) -> (r: Result<
        (),
        Error,
    >)
        ensures
            r is Ok <==> caller@ == old(self)@.sudo,
            r is Err ==> r == Err::<(), Error>(Error::BadOrigin) && final(self)@ == old(self)@,
            r is Ok ==> final(self)@ == (ProverView { asset: asset_info, ..old(self)@ }),
    {
        self.ensure_root(caller)?;
        self.asset = asset_info;
        Ok(())
    }

    /// Replaces the RPC node's URL; only the administrator may.
    pub fn force_update_rpc_url(&mut self, caller: AccountId, url: String) -> (r: Result<
        (),
        Error,
    >)
        ensures
            r is Ok <==> caller@ == old(self)@.sudo,
            r is Err ==> r == Err::<(), Error>(Error::BadOrigin) && final(self)@ == old(self)@,
            r is Ok ==> final(self)@ == (ProverView { rpc_url: url@, ..old(self)@ }),
    {
        self.ensure_root(caller)?;
        self.rpc = Rpc::new(url);
        Ok(())
    }

    /// Replaces the status; only the administrator may.
    pub fn force_update_prover_status(&mut self, caller: AccountId, status: ProverStatus) -> (r:
        Result<(), Error>)
        ensures
            r is Ok <==> caller@ == old(self)@.sudo,
            r is Err ==> r == Err::<(), Error>(Error::BadOrigin) && final(self)@ == old(self)@,
            r is Ok ==> final(self)@ == (ProverView { status, ..old(self)@ }),
    {
        self.ensure_root(caller)?;
        self.status = status;
        Ok(())
    }

    /// The storage key of the balance of `who`.
    pub fn balance_storage_key(&self, who: &AccountId) -> (r: Vec<u8>)
        ensures
            r@ == balance_key_of(self@.storage_key_prefix, who@),
            r@.len() == self@.storage_key_prefix.len() + 48,
    {
        let who_bytes = copy_bytes(who.as_slice());
        let item = StorageItemKey::Blake2_128Concat(who_bytes);
        let ghost part = item_part(item);
        let builder = BalanceStorageKeyBuilder::from_prefix(self.storage_key_prefix.as_slice());
        let builder = builder.push_item_key(item);
        proof {
            reveal_with_fuel(concat_parts, 2);
            assert(builder.suffix_view() =~= seq![part]);
            assert(seq![part].drop_last() =~= Seq::<Seq<u8>>::empty());
            assert(concat_parts(builder.suffix_view()) =~= part);
        }
        builder.build()
    }

    /// The request body that asks the RPC node for the read proof of the balance key of `who`
    /// at the snapshot's block.
    pub fn read_proof_request(&self, who: &AccountId) -> (r: String)
        ensures
            r@ == read_proof_body(balance_key_of(self@.storage_key_prefix, who@), self@.block_hash),
    {
        let key = self.balance_storage_key(who);
        self.rpc.read_proof_request(key.as_slice(), self.snapshot.block_hash.as_slice())
    }

    /// Proves the balance of `who` at the snapshot with the witnesses of its storage key, and
    /// emits the signed claim that `who` holds that amount of the asset for `claim_address`.
    pub fn prove_balance(
        &self,
        who: AccountId,
        claim_address: Address,
        witnesses: Vec<Vec<u8>>,
    ) -> (r: Result<BalanceProverMessage, Error>)
        ensures
            self@.state_root.len() != 32 ==> r == Err::<BalanceProverMessage, Error>(
                Error::InvalidHashBytes,
            ),
            self@.state_root.len() == 32 ==> match self@.balance_lookup(
                who@,
                nodes_view(witnesses@),
            ) {
                None => r is Err && r->Err_0 is KeyError,
                Some(None) => r == Err::<BalanceProverMessage, Error>(Error::InvalidBalance),
                Some(Some(v)) => if v.len() < 16 {
                    r == Err::<BalanceProverMessage, Error>(Error::InvalidBalanceDecoding)
                } else {
                    r is Ok || r == Err::<BalanceProverMessage, Error>(Error::SigningFailed) || (
                    !self@.wf() && r == Err::<BalanceProverMessage, Error>(
                        Error::InvalidSeedLength,
                    ))
                },
            },
            self@.state_root.len() == 32 && self@.wf() ==> (self@.balance_lookup(
                who@,
                nodes_view(witnesses@),
            ) matches Some(Some(v)) ==> (v.len() >= 16 ==> (r is Ok <==> ecdsa_signs(
                self@.seed,
                keccak_256_of(
                    claim_abi_layout(
                        who@,
                        claim_address.0@,
                        self@.asset.id,
                        self@.asset.decimals,
                        le_value(v.take(16)) as u128,
                    ),
                ),
            )))),
            r matches Ok(m) ==> (self@.balance_lookup(who@, nodes_view(witnesses@)) matches Some(
                Some(v),
            ) && v.len() >= 16 && {
                let amount = le_value(v.take(16)) as u128;
                &&& m.encoded_request@ == claim_abi_layout(
                    who@,
                    claim_address.0@,
                    self@.asset.id,
                    self@.asset.decimals,
                    amount,
                )
                &&& claim_abi_decode(m.encoded_request@) == Some(
                    (
                        who@,
                        claim_address.0@,
                        self@.asset.id as nat,
                        self@.asset.decimals as nat,
                        amount as nat,
                    ),
                )
                &&& m.signature@ == ecdsa_recoverable_signature_of(
                    self@.seed,
                    keccak_256_of(m.encoded_request@),
                )
                &&& m.signature@.len() == SIGNATURE_LENGTH
            }),
    {
        let key = self.balance_storage_key(&who);
        let mut keys: Vec<Vec<u8>> = Vec::new();
        keys.push(key);
        proof {
            assert(nodes_view(keys@) =~= seq![balance_key_of(self@.storage_key_prefix, who@)]);
        }
        let proof = SubstrateStateProof { hasher: self.snapshot.hasher, storage_proof: witnesses };
        let entries = verify_state_proof(self.snapshot.state_root.as_slice(), &keys, &proof)?;
        proof {
            assert(nodes_view(keys@)[0] == balance_key_of(self@.storage_key_prefix, who@));
        }
        proof {
            assert(entries@[0].0@ == nodes_view(keys@)[0]);
            assert(self@.balance_lookup(who@, nodes_view(witnesses@)) == Some(
                opt_bytes_view(entries@[0].1),
            ));
        }
        let value = match &entries[0].1 {
            Some(v) => v,
            None => {
                return Err(Error::InvalidBalance);
            },
        };
        let amount = decode_balance(value.as_slice())?;
        let pair = self.pair()?;
        let request = ProverRequest::new(who, claim_address, self.asset, amount);
        proof {
            lemma_claim_abi_round_trip(&request);
        }
        let encoded = BalanceProverMessageBuilder::new().request(request);
        match encoded.sign_request(&pair) {
            Some(signed) => Ok(signed.build()),
            None => Err(Error::SigningFailed),
        }
    }
}

} // verus!
