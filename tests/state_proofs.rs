use balances_prover::error::Error;
use balances_prover::state_proofs::{
    decode_balance, verify_state_proof, HashAlgorithm, Proof, StateVerifier, SubstrateStateProof,
};
use parity_scale_codec::Encode;
use sp_core::{Blake2Hasher, Hasher, KeccakHasher, H256};
use sp_trie::{LayoutV0, MemoryDB, TrieDBMutBuilder, TrieMut};

fn build_trie<H: Hasher<Out = H256>>(entries: &[(Vec<u8>, Vec<u8>)]) -> (Vec<u8>, Vec<Vec<u8>>) {
    let mut db = MemoryDB::<H>::default();
    let mut root = H256::default();
    {
        let mut trie = TrieDBMutBuilder::<LayoutV0<H>>::new(&mut db, &mut root).build();
        for (k, v) in entries {
            trie.insert(k, v).unwrap();
        }
    }
    let mut nodes: Vec<Vec<u8>> = db
        .drain()
        .into_values()
        .filter(|(_, rc)| *rc > 0)
        .map(|(node, _)| node)
        .collect();
    nodes.sort();
    (root.as_bytes().to_vec(), nodes)
}

fn sample_entries() -> Vec<(Vec<u8>, Vec<u8>)> {
    vec![
        (b"alice".to_vec(), 1000u128.encode()),
        (b"bob".to_vec(), vec![1, 2, 3]),
        (b"carol".to_vec(), vec![42u8; 40]),
    ]
}

fn check_present_values(hasher: HashAlgorithm, root: &[u8], nodes: Vec<Vec<u8>>) {
    let keys = vec![b"alice".to_vec(), b"bob".to_vec(), b"carol".to_vec()];
    let proof = SubstrateStateProof { hasher, storage_proof: nodes };
    let entries = verify_state_proof(root, &keys, &proof).unwrap();
    assert_eq!(entries.len(), 3);
    for ((k, v), (ek, ev)) in sample_entries().into_iter().zip(entries.into_iter()) {
        assert_eq!(k, ek);
        assert_eq!(Some(v), ev);
    }
}

#[test]
fn stored_values_are_returned_with_blake2() {
    let (root, nodes) = build_trie::<Blake2Hasher>(&sample_entries());
    check_present_values(HashAlgorithm::Blake2, &root, nodes);
}

#[test]
fn stored_values_are_returned_with_keccak() {
    let (root, nodes) = build_trie::<KeccakHasher>(&sample_entries());
    check_present_values(HashAlgorithm::Keccak, &root, nodes);
}

#[test]
fn absent_key_gives_no_value() {
    let (root, nodes) = build_trie::<Blake2Hasher>(&sample_entries());
    let proof = SubstrateStateProof { hasher: HashAlgorithm::Blake2, storage_proof: nodes };
    let entries = verify_state_proof(&root, &vec![b"dave".to_vec()], &proof).unwrap();
    assert_eq!(entries, vec![(b"dave".to_vec(), None)]);
}

#[test]
fn no_keys_give_no_entries() {
    let (root, nodes) = build_trie::<Blake2Hasher>(&sample_entries());
    let proof = SubstrateStateProof { hasher: HashAlgorithm::Blake2, storage_proof: nodes };
    assert_eq!(verify_state_proof(&root, &vec![], &proof).unwrap(), vec![]);
}

#[test]
fn wrong_hash_family_cannot_resolve() {
    let (root, nodes) = build_trie::<Blake2Hasher>(&sample_entries());
    let proof = SubstrateStateProof { hasher: HashAlgorithm::Keccak, storage_proof: nodes };
    let r = verify_state_proof(&root, &vec![b"alice".to_vec()], &proof);
    assert!(matches!(r, Err(Error::KeyError(_))));
}

#[test]
fn missing_witnesses_give_key_error() {
    let (root, _) = build_trie::<Blake2Hasher>(&sample_entries());
    let proof = SubstrateStateProof { hasher: HashAlgorithm::Blake2, storage_proof: vec![] };
    let r = verify_state_proof(&root, &vec![b"alice".to_vec()], &proof);
    assert!(matches!(r, Err(Error::KeyError(_))));
}

#[test]
fn corrupted_witnesses_never_give_the_original_value_silently() {
    let (root, nodes) = build_trie::<Blake2Hasher>(&sample_entries());
    for i in 0..nodes.len() {
        for pos in [0usize, 1, nodes[i].len() / 2, nodes[i].len() - 1] {
            let mut corrupted = nodes.clone();
            corrupted[i][pos] ^= 0x01;
            let proof =
                SubstrateStateProof { hasher: HashAlgorithm::Blake2, storage_proof: corrupted };
            let keys = vec![b"alice".to_vec(), b"bob".to_vec(), b"carol".to_vec()];
            match verify_state_proof(&root, &keys, &proof) {
                Err(Error::KeyError(_)) => {}
                Ok(entries) => {
                    let originals: Vec<Option<Vec<u8>>> =
                        sample_entries().into_iter().map(|(_, v)| Some(v)).collect();
                    let got: Vec<Option<Vec<u8>>> = entries.into_iter().map(|(_, v)| v).collect();
                    assert_ne!(got, originals);
                }
                Err(e) => panic!("unexpected error {:?}", e),
            }
        }
    }
}

#[test]
fn short_root_is_refused() {
    let (_, nodes) = build_trie::<Blake2Hasher>(&sample_entries());
    let proof = SubstrateStateProof { hasher: HashAlgorithm::Blake2, storage_proof: nodes };
    assert_eq!(
        verify_state_proof(&[0u8; 31], &vec![b"alice".to_vec()], &proof),
        Err(Error::InvalidHashBytes)
    );
}

#[test]
fn encoded_envelope_is_verified() {
    let (root, nodes) = build_trie::<KeccakHasher>(&sample_entries());
    let envelope = (0u8, nodes).encode();
    let proof = Proof { height: 10, proof: envelope };
    let verifier = StateVerifier::new(&vec![b"bob".to_vec()], &root, &proof);
    assert_eq!(verifier.keys(), &vec![b"bob".to_vec()]);
    assert_eq!(verifier.state_root(), &root);
    let entries = verifier.verify_state_proof().unwrap();
    assert_eq!(entries, vec![(b"bob".to_vec(), Some(vec![1, 2, 3]))]);
}

#[test]
fn envelope_with_unknown_hasher_is_refused() {
    let (root, nodes) = build_trie::<KeccakHasher>(&sample_entries());
    let proof = Proof { height: 10, proof: (2u8, nodes).encode() };
    let verifier = StateVerifier::new(&vec![b"bob".to_vec()], &root, &proof);
    assert!(matches!(verifier.verify_state_proof(), Err(Error::DecodingProofError(_))));
    let truncated = Proof { height: 10, proof: vec![1u8] };
    let verifier = StateVerifier::new(&vec![b"bob".to_vec()], &root, &truncated);
    assert!(matches!(verifier.verify_state_proof(), Err(Error::DecodingProofError(_))));
}

#[test]
fn balance_decoding() {
    assert_eq!(decode_balance(&1000u128.encode()), Ok(1000));
    let mut longer = 7u128.encode();
    longer.push(9);
    assert_eq!(decode_balance(&longer), Ok(7));
    assert_eq!(decode_balance(&[1, 2, 3]), Err(Error::InvalidBalanceDecoding));
    assert_eq!(decode_balance(&u128::MAX.encode()), Ok(u128::MAX));
}

#[test]
fn repeated_key_gives_one_entry_per_request() {
    let (root, nodes) = build_trie::<Blake2Hasher>(&sample_entries());
    let proof = SubstrateStateProof { hasher: HashAlgorithm::Blake2, storage_proof: nodes };
    let keys = vec![b"bob".to_vec(), b"bob".to_vec()];
    let entries = verify_state_proof(&root, &keys, &proof).unwrap();
    assert_eq!(
        entries,
        vec![(b"bob".to_vec(), Some(vec![1, 2, 3])), (b"bob".to_vec(), Some(vec![1, 2, 3]))]
    );
}
