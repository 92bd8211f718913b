use balances_prover::access_control::AccessControl;
use balances_prover::balances::{Asset, ProverRequest};
use balances_prover::crypto::ContractKeyPair;
use balances_prover::error::Error;
use balances_prover::evm::{ABIEncode, Address};
use balances_prover::hashing::ContractKeccak256;
use balances_prover::prover::{BalancesProver, ProverStatus};
use balances_prover::state_proofs::{HashAlgorithm, SnapshotCommitment};
use k256::ecdsa::{RecoveryId, Signature, VerifyingKey};
use parity_scale_codec::Encode;
use sp_core::{Blake2Hasher, H256};
use sp_trie::{LayoutV0, MemoryDB, TrieDBMutBuilder, TrieMut};

const ADMIN: [u8; 32] = [1u8; 32];
const ALICE: [u8; 32] = [0xa1u8; 32];
const PREFIX: [u8; 4] = [0x26, 0xaa, 0x39, 0x4e];

fn balance_key(who: &[u8; 32]) -> Vec<u8> {
    let mut key = PREFIX.to_vec();
    key.extend_from_slice(&sp_crypto_hashing::blake2_128(who));
    key.extend_from_slice(who);
    key
}

fn ledger(entries: &[(Vec<u8>, Vec<u8>)]) -> (Vec<u8>, Vec<Vec<u8>>) {
    let mut db = MemoryDB::<Blake2Hasher>::default();
    let mut root = H256::default();
    {
        let mut trie = TrieDBMutBuilder::<LayoutV0<Blake2Hasher>>::new(&mut db, &mut root).build();
        for (k, v) in entries {
            trie.insert(k, v).unwrap();
        }
    }
    let nodes = db.drain().into_values().filter(|(_, rc)| *rc > 0).map(|(n, _)| n).collect();
    (root.as_bytes().to_vec(), nodes)
}

fn key_pair() -> ContractKeyPair {
    let mut seed = vec![0u8; 32];
    seed[31] = 77;
    ContractKeyPair::from_versioned_seed(&seed, 0).unwrap()
}

fn prover_with_root(state_root: Vec<u8>) -> BalancesProver {
    BalancesProver::from_key_pair(
        ADMIN,
        key_pair(),
        SnapshotCommitment {
            height: 100,
            block_hash: vec![0xbb; 32],
            state_root,
            hasher: HashAlgorithm::Blake2,
        },
        PREFIX.to_vec(),
        Asset { id: 1, decimals: 6 },
        "http://node".to_string(),
        ProverStatus::Live,
    )
}

fn recover_address(encoded: &[u8], sig: &[u8]) -> Address {
    let digest = ContractKeccak256::hash(encoded);
    let signature = Signature::from_slice(&sig[..64]).unwrap();
    let recid = RecoveryId::from_byte(sig[64]).unwrap();
    let key = VerifyingKey::recover_from_prehash(&digest, &signature, recid).unwrap();
    Address::from_public_key(&key.to_encoded_point(false).as_bytes()[1..])
}

#[test]
fn end_to_end_balance_attestation() {
    let (root, witnesses) = ledger(&[
        (balance_key(&ALICE), 1000u128.encode()),
        (balance_key(&[0xb0u8; 32]), 5u128.encode()),
    ]);
    let prover = prover_with_root(root);
    assert_eq!(prover.balance_storage_key(&ALICE), balance_key(&ALICE));
    assert_eq!(prover.balance_storage_key(&ALICE).len(), PREFIX.len() + 48);
    let claim_address = Address([0x5au8; 20]);
    let message = prover.prove_balance(ALICE, claim_address, witnesses).unwrap();
    let expected =
        ProverRequest::new(ALICE, claim_address, Asset { id: 1, decimals: 6 }, 1000).abi_encode();
    assert_eq!(message.encoded_request, expected);
    assert_eq!(message.signature.len(), 65);
    assert_eq!(recover_address(&message.encoded_request, &message.signature), prover.address());
}

#[test]
fn account_without_balance_is_refused() {
    let (root, witnesses) = ledger(&[(balance_key(&[0xb0u8; 32]), 5u128.encode())]);
    let prover = prover_with_root(root);
    let r = prover.prove_balance(ALICE, Address([0u8; 20]), witnesses);
    assert!(matches!(r, Err(Error::InvalidBalance)));
}

#[test]
fn undecodable_balance_is_refused() {
    let (root, witnesses) = ledger(&[(balance_key(&ALICE), vec![1, 2, 3])]);
    let prover = prover_with_root(root);
    let r = prover.prove_balance(ALICE, Address([0u8; 20]), witnesses);
    assert!(matches!(r, Err(Error::InvalidBalanceDecoding)));
}

#[test]
fn proof_without_witnesses_is_refused() {
    let (root, _) = ledger(&[(balance_key(&ALICE), 1000u128.encode())]);
    let prover = prover_with_root(root);
    let r = prover.prove_balance(ALICE, Address([0u8; 20]), vec![]);
    assert!(matches!(r, Err(Error::KeyError(_))));
}

#[test]
fn bad_state_root_is_refused() {
    let (_, witnesses) = ledger(&[(balance_key(&ALICE), 1000u128.encode())]);
    let prover = prover_with_root(vec![0u8; 20]);
    let r = prover.prove_balance(ALICE, Address([0u8; 20]), witnesses);
    assert!(matches!(r, Err(Error::InvalidHashBytes)));
}

#[test]
fn prover_reports_its_configuration() {
    let prover = prover_with_root(vec![0u8; 32]);
    assert_eq!(prover.sudo(), ADMIN);
    assert_eq!(prover.rpc_url(), "http://node");
    assert_eq!(prover.key_version(), 0);
    assert_eq!(prover.address(), Address::from_public_key(&key_pair().public()));
    let body = prover.read_proof_request(&ALICE);
    assert!(body.contains(&format!("0x{}", hex::encode(balance_key(&ALICE)))));
    assert!(body.contains(&format!("0x{}", hex::encode([0xbbu8; 32]))));
}

#[test]
fn only_the_administrator_updates() {
    let mut prover = prover_with_root(vec![0u8; 32]);
    assert_eq!(prover.force_update_rpc_url(ALICE, "http://evil".to_string()), Err(Error::BadOrigin));
    assert_eq!(prover.rpc_url(), "http://node");
    assert_eq!(prover.force_update_rpc_url(ADMIN, "http://other".to_string()), Ok(()));
    assert_eq!(prover.rpc_url(), "http://other");
    assert_eq!(prover.force_update_prover_status(ALICE, ProverStatus::Paused), Err(Error::BadOrigin));
    assert_eq!(prover.force_update_prover_status(ADMIN, ProverStatus::Paused), Ok(()));
    assert_eq!(
        prover.force_update_asset_info(ALICE, Asset { id: 2, decimals: 12 }),
        Err(Error::BadOrigin)
    );
    assert_eq!(prover.force_update_asset_info(ADMIN, Asset { id: 2, decimals: 12 }), Ok(()));
    assert_eq!(prover.force_update_storage_key_prefix(ALICE, vec![1]), Err(Error::BadOrigin));
    assert_eq!(prover.force_update_storage_key_prefix(ADMIN, vec![1]), Ok(()));
    assert_eq!(prover.balance_storage_key(&ALICE)[0], 1);
    assert_eq!(prover.force_derive_new_key(ALICE), Err(Error::BadOrigin));
    assert_eq!(prover.key_version(), 0);
}

#[test]
fn snapshot_update_changes_the_root_used() {
    let (root, witnesses) = ledger(&[(balance_key(&ALICE), 1000u128.encode())]);
    let mut prover = prover_with_root(vec![0u8; 32]);
    let snapshot = SnapshotCommitment {
        height: 101,
        block_hash: vec![0xcc; 32],
        state_root: root,
        hasher: HashAlgorithm::Blake2,
    };
    let other = SnapshotCommitment {
        height: 1,
        block_hash: vec![],
        state_root: vec![],
        hasher: HashAlgorithm::Keccak,
    };
    assert_eq!(prover.force_update_snapshot(ALICE, other), Err(Error::BadOrigin));
    assert_eq!(prover.force_update_snapshot(ADMIN, snapshot), Ok(()));
    assert!(prover.prove_balance(ALICE, Address([0u8; 20]), witnesses).is_ok());
}

#[test]
fn access_control_admits_only_the_administrator() {
    let control = AccessControl::from_account(ADMIN);
    assert_eq!(control.ensure_root(ADMIN), Ok(()));
    assert_eq!(control.ensure_root(ALICE), Err(Error::BadOrigin));
    let mut almost = ADMIN;
    almost[31] = 2;
    assert_eq!(control.ensure_root(almost), Err(Error::BadOrigin));
}
