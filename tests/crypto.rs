use balances_prover::crypto::{ContractKeyPair, KeyPairVersion, SIGNATURE_LENGTH};
use balances_prover::error::Error;
use balances_prover::evm::Address;
use balances_prover::hashing::{
    ContractBlake2_128Concat, ContractBlakeTwo256, ContractKeccak256, ContractTwox64Concat,
    StorageHasher,
};
use k256::ecdsa::{RecoveryId, Signature, VerifyingKey};

fn seed_of(last: u8) -> Vec<u8> {
    let mut seed = vec![0u8; 32];
    seed[31] = last;
    seed
}

#[test]
fn keccak_of_empty_input() {
    let digest = ContractKeccak256::hash(&[]);
    assert_eq!(
        hex::encode(digest),
        "c5d2460186f7233c927e7db2dcc703c0e500b653ca82273b7bfad8045d85a470"
    );
}

#[test]
fn blake2_256_matches_reference() {
    let digest = ContractBlakeTwo256::hash(b"abc");
    assert_eq!(digest, sp_crypto_hashing::blake2_256(b"abc").to_vec());
    assert_eq!(
        hex::encode(ContractBlakeTwo256::hash(&[])),
        "0e5751c026e543b2e8ab2eb06099daa1d1e5df47778f7787faab45cdf12fe3a8"
    );
}

#[test]
fn blake2_128_concat_puts_digest_before_key() {
    let key = [7u8; 32];
    let hashed = ContractBlake2_128Concat::hash(&key);
    assert_eq!(hashed.len(), 48);
    assert_eq!(&hashed[..16], &sp_crypto_hashing::blake2_128(&key)[..]);
    assert_eq!(&hashed[16..], &key[..]);
    assert_ne!(&hashed[..16], &key[..16]);
}

#[test]
fn twox_64_concat_puts_digest_before_key() {
    let key = b"balances";
    let hashed = ContractTwox64Concat::hash(key);
    assert_eq!(hashed.len(), 16);
    assert_eq!(&hashed[..8], &sp_crypto_hashing::twox_64(key)[..]);
    assert_eq!(&hashed[8..], &key[..]);
}

#[test]
fn max_len_adds_digest_and_saturates() {
    assert_eq!(ContractBlake2_128Concat::max_len(32), 48);
    assert_eq!(ContractTwox64Concat::max_len(4), 12);
    assert_eq!(ContractBlake2_128Concat::max_len(usize::MAX - 3), usize::MAX);
}

#[test]
fn version_starts_at_zero_and_saturates() {
    let mut v = KeyPairVersion::new();
    assert_eq!(v.value(), 0);
    v.saturating_inc();
    assert_eq!(v.value(), 1);
    let mut top = KeyPairVersion::from_u32(u32::MAX);
    top.saturating_inc();
    assert_eq!(top.value(), u32::MAX);
}

#[test]
fn version_bytes_are_big_endian() {
    assert_eq!(KeyPairVersion::from_u32(0x0102_0304).to_vec(), vec![1, 2, 3, 4]);
    assert_eq!(KeyPairVersion::new().to_vec(), vec![0, 0, 0, 0]);
    assert_eq!(KeyPairVersion::from_u32(u32::MAX).to_vec(), vec![255, 255, 255, 255]);
}

#[test]
fn seed_of_wrong_length_is_refused() {
    assert!(matches!(
        ContractKeyPair::from_versioned_seed(&[1u8; 31], 0),
        Err(Error::InvalidSeedLength)
    ));
    assert!(matches!(
        ContractKeyPair::from_versioned_seed(&[1u8; 33], 0),
        Err(Error::InvalidSeedLength)
    ));
}

#[test]
fn seed_outside_the_group_is_refused() {
    assert!(matches!(
        ContractKeyPair::from_versioned_seed(&[0u8; 32], 0),
        Err(Error::InvalidSeedLength)
    ));
    let order =
        hex::decode("fffffffffffffffffffffffffffffffebaaedce6af48a03bbfd25e8cd0364141").unwrap();
    assert!(matches!(
        ContractKeyPair::from_versioned_seed(&order, 0),
        Err(Error::InvalidSeedLength)
    ));
    let below =
        hex::decode("fffffffffffffffffffffffffffffffebaaedce6af48a03bbfd25e8cd0364140").unwrap();
    assert!(ContractKeyPair::from_versioned_seed(&below, 0).is_ok());
}

#[test]
fn address_of_secret_one() {
    let pair = ContractKeyPair::from_versioned_seed(&seed_of(1), 5).unwrap();
    assert_eq!(pair.version(), 5);
    assert_eq!(pair.seed(), seed_of(1));
    let address = Address::from_public_key(&pair.public());
    assert_eq!(hex::encode(address.0), "7e5f4552091a69125d5dfcb7b8c2659029395bdf");
}

#[test]
fn seed_round_trips_through_storage() {
    let pair = ContractKeyPair::from_versioned_seed(&seed_of(9), 3).unwrap();
    let stored = pair.to_seed();
    assert_eq!(stored.seed, seed_of(9));
    assert_eq!(stored.version, 3);
    let again = ContractKeyPair::from_seed(&stored).unwrap();
    assert_eq!(again.public(), pair.public());
    assert_eq!(again.version(), 3);
}

#[test]
fn signature_recovers_to_the_key_address() {
    let pair = ContractKeyPair::from_versioned_seed(&seed_of(42), 0).unwrap();
    let message = b"balance claim";
    let sig = pair.sign(message).unwrap();
    assert_eq!(sig.len(), SIGNATURE_LENGTH);
    let digest = ContractKeccak256::hash(message);
    let signature = Signature::from_slice(&sig[..64]).unwrap();
    let recid = RecoveryId::from_byte(sig[64]).unwrap();
    let recovered = VerifyingKey::recover_from_prehash(&digest, &signature, recid).unwrap();
    let point = recovered.to_encoded_point(false);
    let recovered_address = Address::from_public_key(&point.as_bytes()[1..]);
    assert_eq!(recovered_address, Address::from_public_key(&pair.public()));
    assert_eq!(pair.sign(message).unwrap(), sig);
}

#[test]
fn derivation_salt_hashes_seed_and_next_version() {
    let pair = ContractKeyPair::from_versioned_seed(&seed_of(3), 7).unwrap();
    let mut material = seed_of(3);
    material.extend_from_slice(&[0, 0, 0, 8]);
    assert_eq!(pair.derivation_salt(), sp_crypto_hashing::blake2_256(&material).to_vec());
    let same = ContractKeyPair::from_versioned_seed(&seed_of(3), 7).unwrap();
    assert_eq!(pair.derivation_salt(), same.derivation_salt());
    let next = ContractKeyPair::from_versioned_seed(&seed_of(3), 8).unwrap();
    assert_ne!(pair.derivation_salt(), next.derivation_salt());
}

#[test]
fn derivation_salt_at_the_largest_version_keeps_it() {
    let pair = ContractKeyPair::from_versioned_seed(&seed_of(3), u32::MAX).unwrap();
    let mut material = seed_of(3);
    material.extend_from_slice(&[255, 255, 255, 255]);
    assert_eq!(pair.derivation_salt(), sp_crypto_hashing::blake2_256(&material).to_vec());
}

#[test]
fn next_version_takes_the_derived_material() {
    let pair = ContractKeyPair::from_versioned_seed(&seed_of(3), 7).unwrap();
    let next = pair.next_version_from_material(&seed_of(4)).unwrap();
    assert_eq!(next.version(), 8);
    assert_eq!(next.seed(), seed_of(4));
    assert_ne!(next.public(), pair.public());
    assert!(matches!(pair.next_version_from_material(&[0u8; 32]), Err(Error::InvalidSeedLength)));
    let top = ContractKeyPair::from_versioned_seed(&seed_of(3), u32::MAX).unwrap();
    assert_eq!(top.next_version_from_material(&seed_of(5)).unwrap().version(), u32::MAX);
}
