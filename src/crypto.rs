use vstd::prelude::*;

use crate::bytes::{be_bytes, be_value, copy_bytes, extend_bytes};
use crate::error::Error;
use crate::hashing::{blake2_256_of, keccak_256_of, ContractBlakeTwo256, ContractKeccak256};

verus! {

/// The length of a secret seed.
pub const SEED_LENGTH: usize = 32;

/// The length of a recoverable signature: `r`, `s` and the recovery byte.
pub const SIGNATURE_LENGTH: usize = 65;

/// The order of the secp256k1 group.
pub open spec fn secp256k1_order() -> nat {
    0xFFFF_FFFF_FFFF_FFFF_FFFF_FFFF_FFFF_FFFEnat * 0x1_0000_0000_0000_0000nat * 0x1_0000_0000_0000_0000nat
        + 0xBAAE_DCE6_AF48_A03B_BFD2_5E8C_D036_4141nat
}

/// A secret key: 32 bytes whose big-endian value lies strictly between zero and the group order.
pub open spec fn is_valid_secret(seed: Seq<u8>) -> bool {
    &&& seed.len() == SEED_LENGTH
    &&& 0 < be_value(seed) < secp256k1_order()
}

/// The public point of a secret key: the 64 bytes `x ‖ y` of its uncompressed encoding.
pub uninterp spec fn secp256k1_public_of(seed: Seq<u8>) -> Seq<u8>;

/// The recoverable ECDSA signature `r ‖ s ‖ recovery id` that RFC 6979 gives for a secret key
/// and a 32-byte digest.
pub uninterp spec fn ecdsa_recoverable_signature_of(seed: Seq<u8>, digest: Seq<u8>) -> Seq<u8>;

/// Whether recoverable ECDSA signing (RFC 6979) of a 32-byte digest with a secret key yields a
/// signature: it fails only when the deterministic nonce gives a zero `r` or `s`.
pub uninterp spec fn ecdsa_signs(seed: Seq<u8>, digest: Seq<u8>) -> bool;

/// Relies on k256: `SigningKey::from_slice` accepts a 32-byte scalar exactly when it is nonzero
/// and below the group order; the verifying key's uncompressed SEC1 encoding is the tag byte
/// 0x04 followed by the 64 bytes of the point.
#[verifier::external_body]
fn public_key_of(seed: &[u8]) -> (r: Option<Vec<u8>>)
    requires
        seed@.len() == SEED_LENGTH,
    ensures
        r is Some <==> is_valid_secret(seed@),
        r matches Some(p) ==> p@ == secp256k1_public_of(seed@) && p@.len() == 64,
{
    let secret = k256::ecdsa::SigningKey::from_slice(seed).ok()?;
    let point = secret.verifying_key().to_encoded_point(false);
    Some(point.as_bytes()[1..].to_vec())
}

/// Relies on k256's `SigningKey::sign_prehash_recoverable`: a deterministic (RFC 6979) signature
/// of a 32-byte digest, packed as the 64 bytes of `r ‖ s` and the recovery byte. Being
/// deterministic, whether it succeeds depends on the key and the digest alone.
#[verifier::external_body]
fn sign_prehashed(seed: &[u8], digest: &[u8]) -> (r: Option<Vec<u8>>)
    requires
        is_valid_secret(seed@),
        digest@.len() == 32,
    ensures
        r is Some <==> ecdsa_signs(seed@, digest@),
        r matches Some(sig) ==> sig@ == ecdsa_recoverable_signature_of(seed@, digest@)
            && sig@.len() == SIGNATURE_LENGTH,
{
    let secret = k256::ecdsa::SigningKey::from_slice(seed).ok()?;
    let (sig, recid) = secret.sign_prehash_recoverable(digest).ok()?;
    let mut out = sig.to_bytes().to_vec();
    out.push(recid.to_byte());
    Some(out)
}

/// Relies on pink_extension's `derive_sr25519_key`: key material derived from the executing
/// contract's own secret and `salt`. It depends on the contract, so nothing is stated of it.
#[verifier::external_body]
fn derive_secret_material(salt: &[u8]) -> (r: Vec<u8>) {
    pink_extension::ext().derive_sr25519_key(salt.into())
}

/// The stored form of the contract's key: the secret seed and its version.
pub struct ContractSeed {
    pub seed: Vec<u8>,
    pub version: u32,
}

/// The version of the contract's key pair.
pub struct KeyPairVersion(u32);

/// The version that follows `v`: one more, saturating at the largest `u32`.
pub open spec fn next_version(v: u32) -> u32 {
    if v < u32::MAX {
        (v + 1) as u32
    } else {
        v
    }
}

impl View for KeyPairVersion {
    type V = u32;

    closed spec fn view(&self) -> u32 {
        self.0
    }
}

impl KeyPairVersion {
    /// The first version.
    pub fn new() -> (r: Self)
        ensures
            r@ == 0,
    {
        KeyPairVersion(0)
    }

    /// A version with the given number.
    pub fn from_u32(value: u32) -> (r: Self)
        ensures
            r@ == value,
    {
        KeyPairVersion(value)
    }

    /// The version number.
    pub fn value(&self) -> (r: u32)
        ensures
            r == self@,
    {
        self.0
    }

    /// Moves to the next version; the largest version stays as it is.
    pub fn saturating_inc(&mut self)
        ensures
            final(self)@ == next_version(old(self)@),
    {
        if self.0 < u32::MAX {
            self.0 = self.0 + 1;
        }
    }

    /// The version number as four big-endian bytes.
    pub fn to_vec(&self) -> (r: Vec<u8>)
        ensures
            r@ == be_bytes(self@ as nat, 4),
    {
        let v = self.0;
        let b3 = (v % 256) as u8;
        let v1 = v / 256;
        let b2 = (v1 % 256) as u8;
        let v2 = v1 / 256;
        let b1 = (v2 % 256) as u8;
        let v3 = v2 / 256;
        let b0 = (v3 % 256) as u8;
        let r = vec![b0, b1, b2, b3];
        proof {
            reveal_with_fuel(be_bytes, 5);
            assert(r@ =~= be_bytes(v as nat, 4));
        }
        r
    }
}

/// The salt from which the key of the version after `version` is derived: the BLAKE2b-256
/// digest of the current seed followed by the new version's four big-endian bytes.
pub open spec fn derivation_salt_of(seed: Seq<u8>, version: u32) -> Seq<u8> {
    blake2_256_of(seed + be_bytes(next_version(version) as nat, 4))
}

/// The contract's secp256k1 key pair and its version.
pub struct ContractKeyPair {
    public: Vec<u8>,
    secret: Vec<u8>,
    version: KeyPairVersion,
}

impl ContractKeyPair {
    /// The secret seed.
    pub closed spec fn secret_view(&self) -> Seq<u8> {
        self.secret@
    }

    /// The 64-byte public point.
    pub closed spec fn public_view(&self) -> Seq<u8> {
        self.public@
    }

    /// The version number.
    pub closed spec fn version_view(&self) -> u32 {
        self.version@
    }

    /// The secret is a valid secp256k1 secret and the public point is its own.
    pub open spec fn wf(&self) -> bool {
        &&& is_valid_secret(self.secret_view())
        &&& self.public_view() == secp256k1_public_of(self.secret_view())
    }

    /// The key pair of a seed and its version; the seed must be a valid 32-byte secret.
    pub fn from_versioned_seed(seed: &[u8], version: u32) -> (r: Result<Self, Error>)
        ensures
            r is Ok <==> is_valid_secret(seed@),
            r matches Ok(kp) ==> kp.wf() && kp.secret_view() == seed@ && kp.version_view()
                == version,
            r matches Err(e) ==> e == Error::InvalidSeedLength,
    {
        if seed.len() != SEED_LENGTH {
            return Err(Error::InvalidSeedLength);
        }
        match public_key_of(seed) {
            Some(public) => Ok(ContractKeyPair {
                public,
                secret: copy_bytes(seed),
                version: KeyPairVersion::from_u32(version),
            }),
            None => Err(Error::InvalidSeedLength),
        }
    }

    /// The key pair of the first version, from the seed that the contract's confidential
    /// derivation gives for `salt`.
    pub fn generate(salt: &[u8]) -> (r: Result<Self, Error>)
        ensures
            r matches Ok(kp) ==> kp.wf() && kp.version_view() == 0,
            r matches Err(e) ==> e == Error::InvalidSeedLength,
    {
        let material = derive_secret_material(salt);
        Self::from_versioned_seed(material.as_slice(), 0)
    }

    /// The secret seed.
    pub fn seed(&self) -> (r: Vec<u8>)
        ensures
            r@ == self.secret_view(),
    {
        self.secret.clone()
    }

    /// The 64-byte public point `x ‖ y`.
    pub fn public(&self) -> (r: Vec<u8>)
        ensures
            r@ == self.public_view(),
    {
        self.public.clone()
    }

    /// The version number.
    pub fn version(&self) -> (r: u32)
        ensures
            r == self.version_view(),
    {
        self.version.value()
    }

    /// The salt from which the next version's key is derived.
    pub fn derivation_salt(&self) -> (r: Vec<u8>)
        ensures
            r@ == derivation_salt_of(self.secret_view(), self.version_view()),
            r@.len() == 32,
    {
        let mut material = self.seed();
        let mut version = KeyPairVersion::from_u32(self.version.value());
        version.saturating_inc();
        let v = version.to_vec();
        extend_bytes(&mut material, v.as_slice());
        ContractBlakeTwo256::hash(material.as_slice())
    }

    /// The key pair of the next version with the seed `material`, which the contract's
    /// confidential derivation gave for `derivation_salt`: the version is one more, saturating
    /// at the largest version.
    pub fn next_version_from_material(&self, material: &[u8]) -> (r: Result<ContractKeyPair, Error>)
        ensures
            r is Ok <==> is_valid_secret(material@),
            r matches Ok(kp) ==> kp.wf() && kp.secret_view() == material@ && kp.version_view()
                == next_version(self.version_view()),
            r matches Err(e) ==> e == Error::InvalidSeedLength,
    {
        let mut version = KeyPairVersion::from_u32(self.version.value());
        version.saturating_inc();
        Self::from_versioned_seed(material, version.value())
    }

    /// Derives the key pair of the next version: its seed is what the contract's confidential
    /// derivation gives for the salt of `derivation_salt`, and its version is one more,
    /// saturating at the largest version.
    pub fn derive_new_version(self) -> (r: Result<ContractKeyPair, Error>)
        ensures
            r matches Ok(kp) ==> kp.wf() && kp.version_view() == next_version(
                self.version_view(),
            ),
            r matches Err(e) ==> e == Error::InvalidSeedLength,
    {
        let salt = self.derivation_salt();
        let material = derive_secret_material(salt.as_slice());
        self.next_version_from_material(material.as_slice())
    }

    /// Signs `message`: the Keccak-256 digest of the message, signed with recoverable ECDSA.
    /// `None` stands for the negligible case where the signer finds no valid nonce.
    pub fn sign(&self, message: &[u8]) -> (r: Option<Vec<u8>>)
        requires
            self.wf(),
        ensures
            r is Some <==> ecdsa_signs(self.secret_view(), keccak_256_of(message@)),
            r matches Some(sig) ==> sig@ == ecdsa_recoverable_signature_of(
                self.secret_view(),
                keccak_256_of(message@),
            ) && sig@.len() == SIGNATURE_LENGTH,
    {
        let digest = ContractKeccak256::hash(message);
        sign_prehashed(self.secret.as_slice(), digest.as_slice())
    }

    /// The stored form of this key pair.
    pub fn to_seed(&self) -> (r: ContractSeed)
        ensures
            r.seed@ == self.secret_view(),
            r.version == self.version_view(),
    {
        ContractSeed { seed: self.seed(), version: self.version.value() }
    }

    /// The key pair of a stored seed.
    pub fn from_seed(seed: &ContractSeed) -> (r: Result<Self, Error>)
        ensures
            r is Ok <==> is_valid_secret(seed.seed@),
            r matches Ok(kp) ==> kp.wf() && kp.secret_view() == seed.seed@ && kp.version_view()
                == seed.version,
            r matches Err(e) ==> e == Error::InvalidSeedLength,
    {
        Self::from_versioned_seed(seed.seed.as_slice(), seed.version)
    }
}

/// Deriving the next key is a function of the current seed and version alone (given the
/// contract's confidential derivation): equal seeds and versions give equal salts, and the
/// version moves up by one, saturating at the largest version.
pub proof fn lemma_derivation_deterministic(a: &ContractKeyPair, b: &ContractKeyPair)
    requires
        a.secret_view() == b.secret_view(),
        a.version_view() == b.version_view(),
    ensures
        derivation_salt_of(a.secret_view(), a.version_view()) == derivation_salt_of(
            b.secret_view(),
            b.version_view(),
        ),
        a.version_view() < u32::MAX ==> next_version(a.version_view()) == a.version_view() + 1,
        a.version_view() == u32::MAX ==> next_version(a.version_view()) == u32::MAX,
{
}

} // verus!
