use vstd::prelude::*;
use vstd::string::StringExecFns;

use crate::bytes::{copy_bytes, le_value};
use crate::error::Error;
use parity_scale_codec::Decode;
use sp_core::{Blake2Hasher, KeccakHasher, H256};
use sp_trie::{LayoutV0, StorageProof, Trie, TrieDBBuilder};

verus! {

/// The hash function of a source ledger's trie.
#[derive(Debug, Clone, Copy, PartialEq, Eq)]
pub enum HashAlgorithm {
    /// For ledgers that hash their trie with Keccak-256.
    Keccak,
    /// For ledgers that hash their trie with BLAKE2b-256.
    Blake2,
}

/// The snapshot at which balances are proven.
pub struct SnapshotCommitment {
    pub height: u32,
    pub block_hash: Vec<u8>,
    pub state_root: Vec<u8>,
    pub hasher: HashAlgorithm,
}

/// A SCALE-encoded `SubstrateStateProof` at a height.
#[derive(Debug, PartialEq, Eq)]
pub struct Proof {
    pub height: u64,
    pub proof: Vec<u8>,
}

/// The witnesses of a state proof and the hash function that their trie uses.
pub struct SubstrateStateProof {
    pub hasher: HashAlgorithm,
    pub storage_proof: Vec<Vec<u8>>,
}

/// What a Keccak-hashed Merkle-Patricia trie with root `root`, rebuilt from the witness nodes,
/// gives for `key`: `Some(Some(v))` where it stores `v`, `Some(None)` where the key is absent,
/// `None` where the witnesses cannot resolve the key.
pub uninterp spec fn keccak_trie_lookup(
    root: Seq<u8>,
    nodes: Seq<Seq<u8>>,
    key: Seq<u8>,
) -> Option<Option<Seq<u8>>>;

/// The same lookup in a BLAKE2b-hashed trie.
pub uninterp spec fn blake2_trie_lookup(
    root: Seq<u8>,
    nodes: Seq<Seq<u8>>,
    key: Seq<u8>,
) -> Option<Option<Seq<u8>>>;

/// The SCALE decoding of a state proof envelope: its variant byte and its witness nodes.
pub uninterp spec fn scale_state_proof_of(bytes: Seq<u8>) -> Option<(u8, Seq<Seq<u8>>)>;

/// The views of a list of byte strings.
pub open spec fn nodes_view(nodes: Seq<Vec<u8>>) -> Seq<Seq<u8>> {
    nodes.map_values(|n: Vec<u8>| n@)
}

/// The view of an optional byte string.
pub open spec fn opt_bytes_view(v: Option<Vec<u8>>) -> Option<Seq<u8>> {
    match v {
        Some(b) => Some(b@),
        None => None,
    }
}

/// The lookup of `key` under the chosen hash function.
pub open spec fn trie_lookup(
    hasher: HashAlgorithm,
    root: Seq<u8>,
    nodes: Seq<Seq<u8>>,
    key: Seq<u8>,
) -> Option<Option<Seq<u8>>> {
    match hasher {
        HashAlgorithm::Keccak => keccak_trie_lookup(root, nodes, key),
        HashAlgorithm::Blake2 => blake2_trie_lookup(root, nodes, key),
    }
}

/// Relies on sp_trie: the nodes go into a `MemoryDB` keyed by their Keccak-256 hashes, a
/// `LayoutV0` trie is opened at `root`, and `Trie::get` reads the key; its result depends on the
/// root, the nodes and the key alone. `H256::from_slice` needs 32 bytes.
#[verifier::external_body]
fn read_keccak_trie(root: &[u8], nodes: &Vec<Vec<u8>>, key: &[u8]) -> (r: Result<
    Option<Vec<u8>>,
    String,
>)
    requires
        root@.len() == 32,
    ensures
        r matches Ok(v) ==> keccak_trie_lookup(root@, nodes_view(nodes@), key@) == Some(
            opt_bytes_view(v),
        ),
        r is Err ==> keccak_trie_lookup(root@, nodes_view(nodes@), key@) is None,
{
    let db = StorageProof::new(nodes.clone()).into_memory_db::<KeccakHasher>();
    let root = H256::from_slice(root);
    let trie = TrieDBBuilder::<LayoutV0<KeccakHasher>>::new(&db, &root).build();
    trie.get(key).map_err(|e| format!("Error reading state proof: {e:?}"))
}

/// Relies on sp_trie as `read_keccak_trie` does, with the nodes keyed by their BLAKE2b-256
/// hashes.
#[verifier::external_body]
fn read_blake2_trie(root: &[u8], nodes: &Vec<Vec<u8>>, key: &[u8]) -> (r: Result<
    Option<Vec<u8>>,
    String,
>)
    requires
        root@.len() == 32,
    ensures
        r matches Ok(v) ==> blake2_trie_lookup(root@, nodes_view(nodes@), key@) == Some(
            opt_bytes_view(v),
        ),
        r is Err ==> blake2_trie_lookup(root@, nodes_view(nodes@), key@) is None,
{
    let db = StorageProof::new(nodes.clone()).into_memory_db::<Blake2Hasher>();
    let root = H256::from_slice(root);
    let trie = TrieDBBuilder::<LayoutV0<Blake2Hasher>>::new(&db, &root).build();
    trie.get(key).map_err(|e| format!("Error reading state proof: {e:?}"))
}

/// Relies on parity-scale-codec's `Decode` for `(u8, Vec<Vec<u8>>)`, which reads the layout of
/// an encoded `SubstrateStateProof`: the variant byte, then the compact-length-prefixed nodes.
#[verifier::external_body]
fn decode_proof_envelope(bytes: &[u8]) -> (r: Option<(u8, Vec<Vec<u8>>)>)
    ensures
        r is None <==> scale_state_proof_of(bytes@) is None,
        r matches Some(p) ==> scale_state_proof_of(bytes@) == Some((p.0, nodes_view(p.1@))),
{
    <(u8, Vec<Vec<u8>>) as Decode>::decode(&mut &bytes[..]).ok()
}

/// Relies on parity-scale-codec's `Decode` for `u128`: the first 16 bytes, little-endian; it
/// fails on fewer.
#[verifier::external_body]
fn decode_u128(bytes: &[u8]) -> (r: Option<u128>)
    ensures
        r == (if bytes@.len() >= 16 {
            Some(le_value(bytes@.take(16)) as u128)
        } else {
            None
        }),
{
    <u128 as Decode>::decode(&mut &bytes[..]).ok()
}

/// A balance amount from its stored SCALE encoding: the first 16 bytes, little-endian.
pub fn decode_balance(value: &[u8]) -> (r: Result<u128, Error>)
    ensures
        value@.len() >= 16 ==> r == Ok::<u128, Error>(le_value(value@.take(16)) as u128),
        value@.len() < 16 ==> r == Err::<u128, Error>(Error::InvalidBalanceDecoding),
{
    match decode_u128(value) {
        Some(amount) => Ok(amount),
        None => Err(Error::InvalidBalanceDecoding),
    }
}

/// The key-value entries that a verification of `keys` reports, one per key in order.
pub open spec fn entries_match(
    entries: Seq<(Vec<u8>, Option<Vec<u8>>)>,
    hasher: HashAlgorithm,
    root: Seq<u8>,
    nodes: Seq<Seq<u8>>,
    keys: Seq<Seq<u8>>,
) -> bool {
    &&& entries.len() == keys.len()
    &&& forall|i: int|
        0 <= i < keys.len() ==> {
            &&& (#[trigger] entries[i]).0@ == keys[i]
            &&& trie_lookup(hasher, root, nodes, keys[i]) == Some(opt_bytes_view(entries[i].1))
        }
}

/// Every key resolves from the witnesses.
pub open spec fn all_keys_resolve(
    hasher: HashAlgorithm,
    root: Seq<u8>,
    nodes: Seq<Seq<u8>>,
    keys: Seq<Seq<u8>>,
) -> bool {
    forall|i: int| 0 <= i < keys.len() ==> (trie_lookup(hasher, root, nodes, #[trigger] keys[i]) is Some)
}

/// What verifying `keys` against `root` with the witness nodes returns: `InvalidHashBytes` for a
/// root that is not 32 bytes; otherwise the entries of all keys, in order, when every key
/// resolves, and `KeyError` when one does not.
pub open spec fn verification_result(
    r: Result<Vec<(Vec<u8>, Option<Vec<u8>>)>, Error>,
    hasher: HashAlgorithm,
    root: Seq<u8>,
    nodes: Seq<Seq<u8>>,
    keys: Seq<Seq<u8>>,
) -> bool {
    &&& root.len() != 32 ==> r == Err::<Vec<(Vec<u8>, Option<Vec<u8>>)>, Error>(
        Error::InvalidHashBytes,
    )
    &&& root.len() == 32 ==> (r is Ok <==> all_keys_resolve(hasher, root, nodes, keys))
    &&& r matches Ok(entries) ==> entries_match(entries@, hasher, root, nodes, keys)
    &&& root.len() == 32 && r is Err ==> r->Err_0 is KeyError
}

/// Verifies `keys` against the state root with the witness nodes: for each requested key, in
/// request order, the key and the value that the trie stores there, or `None` where the key is
/// absent. There is one entry per requested key, so a key asked for twice has two (equal)
/// entries. A root that is not 32
/// bytes gives `InvalidHashBytes`; a key that the witnesses cannot resolve gives `KeyError`.
pub fn verify_state_proof(
    root: &[u8],
    keys: &Vec<Vec<u8>>,
    proof: &SubstrateStateProof,
) -> (r: Result<Vec<(Vec<u8>, Option<Vec<u8>>)>, Error>)
    ensures
        verification_result(
            r,
            proof.hasher,
            root@,
            nodes_view(proof.storage_proof@),
            nodes_view(keys@),
        ),
{
    if root.len() != 32 {
        return Err(Error::InvalidHashBytes);
    }
    let ghost nodes = nodes_view(proof.storage_proof@);
    let ghost kv = nodes_view(keys@);
    let mut entries: Vec<(Vec<u8>, Option<Vec<u8>>)> = Vec::new();
    let mut i: usize = 0;
    while i < keys.len()
        invariant
            root@.len() == 32,
            nodes == nodes_view(proof.storage_proof@),
            kv == nodes_view(keys@),
            i <= keys@.len(),
            entries_match(entries@, proof.hasher, root@, nodes, kv.take(i as int)),
            all_keys_resolve(proof.hasher, root@, nodes, kv.take(i as int)),
        decreases keys@.len() - i,
    {
        let key = &keys[i];
        let read = match proof.hasher {
            HashAlgorithm::Keccak => read_keccak_trie(root, &proof.storage_proof, key.as_slice()),
            HashAlgorithm::Blake2 => read_blake2_trie(root, &proof.storage_proof, key.as_slice()),
        };
        match read {
            Ok(value) => {
                entries.push((copy_bytes(key.as_slice()), value));
            },
            Err(message) => {
                proof {
                    assert(kv[i as int] == key@);
                    assert(!all_keys_resolve(proof.hasher, root@, nodes, kv));
                }
                return Err(Error::KeyError(message));
            },
        }
        proof {
            let t = kv.take(i + 1);
            assert(t[i as int] == key@);
            assert forall|j: int| 0 <= j < t.len() implies (trie_lookup(
                proof.hasher,
                root@,
                nodes,
                #[trigger] t[j],
            ) is Some) by {
                if j < i {
                    assert(t[j] == kv.take(i as int)[j]);
                }
            }
            assert forall|j: int| 0 <= j < t.len() implies {
                &&& (#[trigger] entries@[j]).0@ == t[j]
                &&& trie_lookup(proof.hasher, root@, nodes, t[j]) == Some(
                    opt_bytes_view(entries@[j].1),
                )
            } by {
                if j < i {
                    assert(t[j] == kv.take(i as int)[j]);
                }
            }
        }
        i = i + 1;
    }
    proof {
        assert(kv.take(i as int) =~= kv);
    }
    Ok(entries)
}

/// The hash function and witness nodes of a SCALE-encoded state proof envelope, if it decodes
/// and names a known hash function (0 for Keccak, 1 for Blake2).
pub open spec fn envelope_of(bytes: Seq<u8>) -> Option<(HashAlgorithm, Seq<Seq<u8>>)> {
    match scale_state_proof_of(bytes) {
        Some((tag, nodes)) => if tag == 0 {
            Some((HashAlgorithm::Keccak, nodes))
        } else if tag == 1 {
            Some((HashAlgorithm::Blake2, nodes))
        } else {
            None
        },
        None => None,
    }
}

/// Verifies keys against a state root with a SCALE-encoded state proof.
pub struct StateVerifier {
    keys: Vec<Vec<u8>>,
    root: Vec<u8>,
    proof: Proof,
}

impl StateVerifier {
    /// The keys to verify.
    pub closed spec fn keys_view(&self) -> Seq<Seq<u8>> {
        nodes_view(self.keys@)
    }

    /// The state root.
    pub closed spec fn root_view(&self) -> Seq<u8> {
        self.root@
    }

    /// The encoded proof.
    pub closed spec fn proof_view(&self) -> Seq<u8> {
        self.proof.proof@
    }

    pub fn new(keys: &Vec<Vec<u8>>, root: &[u8], proof: &Proof) -> (r: Self)
        ensures
            r.keys_view() == nodes_view(keys@),
            r.root_view() == root@,
            r.proof_view() == proof.proof@,
    {
        let ghost kv = nodes_view(keys@);
        let mut ks: Vec<Vec<u8>> = Vec::new();
        let mut i: usize = 0;
        while i < keys.len()
            invariant
                kv == nodes_view(keys@),
                i <= keys@.len(),
                nodes_view(ks@) == kv.take(i as int),
            decreases keys@.len() - i,
        {
            let k = copy_bytes(keys[i].as_slice());
            let ghost before = ks@;
            ks.push(k);
            proof {
                assert(nodes_view(ks@) =~= nodes_view(before).push(kv[i as int]));
                assert(nodes_view(ks@) =~= kv.take(i + 1));
            }
            i = i + 1;
        }
        proof {
            assert(kv.take(i as int) =~= kv);
        }
        StateVerifier {
            keys: ks,
            root: copy_bytes(root),
            proof: Proof { height: proof.height, proof: copy_bytes(proof.proof.as_slice()) },
        }
    }

    pub fn keys(&self) -> (r: &Vec<Vec<u8>>)
        ensures
            nodes_view(r@) == self.keys_view(),
    {
        &self.keys
    }

    pub fn state_root(&self) -> (r: &Vec<u8>)
        ensures
            r@ == self.root_view(),
    {
        &self.root
    }

    /// Decodes the proof envelope, then verifies the keys with its witnesses and hash function.
    /// An envelope that does not decode, or names no known hash function, gives
    /// `DecodingProofError`.
    pub fn verify_state_proof(&self) -> (r: Result<Vec<(Vec<u8>, Option<Vec<u8>>)>, Error>)
        ensures
            envelope_of(self.proof_view()) matches Some((hasher, nodes)) ==> verification_result(
                r,
                hasher,
                self.root_view(),
                nodes,
                self.keys_view(),
            ),
            envelope_of(self.proof_view()) is None ==> r is Err && r->Err_0 is DecodingProofError,
    {
        match decode_proof_envelope(self.proof.proof.as_slice()) {
            Some((tag, nodes)) => {
                let hasher = if tag == 0 {
                    HashAlgorithm::Keccak
                } else if tag == 1 {
                    HashAlgorithm::Blake2
                } else {
                    return Err(
                        Error::DecodingProofError(
                            String::from_str("failed to decode proof: unknown hash algorithm"),
                        ),
                    );
                };
                let proof = SubstrateStateProof { hasher, storage_proof: nodes };
                let r = verify_state_proof(self.root.as_slice(), &self.keys, &proof);
                r
            },
            None => Err(
                Error::DecodingProofError(String::from_str("failed to decode proof: bad envelope")),
            ),
        }
    }
}

} // verus!
