//! Deterministic derivation of keypairs from a seed.
//!
//! A keypair is made in two steps. HKDF-SHA256 expands the seed into key
//! material, with a label as its `info` that names the algorithm and its
//! purpose, so that no two algorithms are fed the same material. The
//! algorithm's own key generation then turns the material into a keypair.
//! Both steps are done by outside crates; nothing is kept between calls.

use crate::algorithm::{AlgorithmId, DHAlgorithm, ECAlgorithm, KEMAlgorithm, PQAlgorithm};
use crate::secret::{seal_bytes, SecretBytes};
use crate::seed::Seed;
use vstd::prelude::*;

verus! {

/// Whether every byte is zero.
pub open spec fn all_zero(bytes: Seq<u8>) -> bool {
    forall|i: int| 0 <= i < bytes.len() ==> bytes[i] == 0
}

/// What HKDF-SHA256 without a salt expands the key material and the `info`
/// into, at the length asked for.
pub uninterp spec fn hkdf_sha256(key_material: Seq<u8>, info: Seq<u8>, length: nat) -> Seq<u8>;

/// The Ed25519 keypair made from 32 bytes, secret half first; `None` where
/// the generation refuses them.
pub uninterp spec fn ed25519_generated(material: Seq<u8>) -> Option<(Seq<u8>, Seq<u8>)>;

/// The X25519 keypair made from 32 bytes, secret half first; `None` where
/// the generation refuses them.
pub uninterp spec fn x25519_generated(material: Seq<u8>) -> Option<(Seq<u8>, Seq<u8>)>;

/// The ML-DSA-65 keypair made from a 32-byte seed, secret half first.
pub uninterp spec fn ml_dsa_65_generated(material: Seq<u8>) -> Option<(Seq<u8>, Seq<u8>)>;

/// The ML-DSA-87 keypair made from a 32-byte seed, secret half first.
pub uninterp spec fn ml_dsa_87_generated(material: Seq<u8>) -> Option<(Seq<u8>, Seq<u8>)>;

/// The ML-KEM-768 keypair made from the seeds `d` and `z`, 32 bytes each
/// and in this order, secret half first.
pub uninterp spec fn ml_kem_768_generated(material: Seq<u8>) -> Option<(Seq<u8>, Seq<u8>)>;

/// The ML-KEM-1024 keypair made from the seeds `d` and `z`, 32 bytes each
/// and in this order, secret half first.
pub uninterp spec fn ml_kem_1024_generated(material: Seq<u8>) -> Option<(Seq<u8>, Seq<u8>)>;

/// `hkdf::Hkdf::<sha2::Sha256>::new` without a salt, then `expand`: output of
/// the length asked for, which depends on the key material, the `info` and
/// the length alone. The crate refuses only a length above 255 hash
/// lengths, that is 8160 bytes.
#[verifier::external_body]
pub(crate) fn hkdf_expand(key_material: &[u8], info: &[u8], length: usize) -> (r: Option<
    SecretBytes,
>)
    requires
        length <= 8160,
    ensures
        r is Some,
        r.unwrap()@ == hkdf_sha256(key_material@, info@, length as nat),
        r.unwrap()@.len() == length,
{
    let mut output = vec![0u8; length];
    match hkdf::Hkdf::<sha2::Sha256>::new(None, key_material).expand(info, &mut output) {
        Ok(()) => Some(seal_bytes(output)),
        Err(_) => None,
    }
}

/// `ed25519_compact::KeyPair::try_from_seed`: the keypair of a 32-byte seed,
/// a secret key of 64 bytes and a public key of 32. The crate refuses the
/// seed that is all zeros, and no other.
#[verifier::external_body]
pub(crate) fn ed25519_keypair(material: &[u8]) -> (r: Option<(SecretBytes, Vec<u8>)>)
    requires
        material@.len() == 32,
    ensures
        r is None <==> all_zero(material@),
        match r {
            Some((secret, public)) => {
                &&& ed25519_generated(material@) == Some((secret@, public@))
                &&& secret@.len() == 64
                &&& public@.len() == 32
            },
            None => ed25519_generated(material@) is None,
        },
{
    let seed = ed25519_compact::Seed::from_slice(material).ok()?;
    let pair = ed25519_compact::KeyPair::try_from_seed(seed).ok()?;
    Some((seal_bytes(pair.sk.to_vec()), pair.pk.to_vec()))
}

/// `ed25519_compact::x25519::SecretKey::recover_public_key`: the 32 bytes as
/// the secret key and the 32-byte public key that belongs to it, or nothing
/// where the crate finds the public key weak.
#[verifier::external_body]
pub(crate) fn x25519_keypair(material: &[u8]) -> (r: Option<(SecretBytes, Vec<u8>)>)
    requires
        material@.len() == 32,
    ensures
        match r {
            Some((secret, public)) => {
                &&& x25519_generated(material@) == Some((secret@, public@))
                &&& secret@.len() == 32
                &&& public@.len() == 32
            },
            None => x25519_generated(material@) is None,
        },
{
    let secret = ed25519_compact::x25519::SecretKey::from_slice(material).ok()?;
    let public = secret.recover_public_key().ok()?;
    Some((seal_bytes(secret.to_vec()), public.to_vec()))
}

/// `fips204::ml_dsa_65::KG::keygen_from_seed`: the keypair of a 32-byte
/// seed, a private key of 4032 bytes and a public key of 1952. It refuses
/// no seed.
#[verifier::external_body]
pub(crate) fn ml_dsa_65_keypair(material: &[u8]) -> (r: Option<(SecretBytes, Vec<u8>)>)
    requires
        material@.len() == 32,
    ensures
        r is Some,
        match r {
            Some((secret, public)) => {
                &&& ml_dsa_65_generated(material@) == Some((secret@, public@))
                &&& secret@.len() == 4032
                &&& public@.len() == 1952
            },
            None => ml_dsa_65_generated(material@) is None,
        },
{
    let xi = zeroize::Zeroizing::new(<[u8; 32]>::try_from(material).ok()?);
    let (public, secret) = <fips204::ml_dsa_65::KG as fips204::traits::KeyGen>::keygen_from_seed(&xi);
    let secret = fips204::traits::SerDes::into_bytes(secret);
    Some((seal_bytes(secret.to_vec()), fips204::traits::SerDes::into_bytes(public).to_vec()))
}

/// `fips204::ml_dsa_87::KG::keygen_from_seed`: the keypair of a 32-byte
/// seed, a private key of 4896 bytes and a public key of 2592. It refuses
/// no seed.
#[verifier::external_body]
pub(crate) fn ml_dsa_87_keypair(material: &[u8]) -> (r: Option<(SecretBytes, Vec<u8>)>)
    requires
        material@.len() == 32,
    ensures
        r is Some,
        match r {
            Some((secret, public)) => {
                &&& ml_dsa_87_generated(material@) == Some((secret@, public@))
                &&& secret@.len() == 4896
                &&& public@.len() == 2592
            },
            None => ml_dsa_87_generated(material@) is None,
        },
{
    let xi = zeroize::Zeroizing::new(<[u8; 32]>::try_from(material).ok()?);
    let (public, secret) = <fips204::ml_dsa_87::KG as fips204::traits::KeyGen>::keygen_from_seed(&xi);
    let secret = fips204::traits::SerDes::into_bytes(secret);
    Some((seal_bytes(secret.to_vec()), fips204::traits::SerDes::into_bytes(public).to_vec()))
}

/// `fips203::ml_kem_768::KG::keygen_from_seed` with the first 32 bytes as
/// `d` and the last 32 as `z`: a decapsulation key of 2400 bytes and an
/// encapsulation key of 1184. It refuses no seeds.
#[verifier::external_body]
pub(crate) fn ml_kem_768_keypair(material: &[u8]) -> (r: Option<(SecretBytes, Vec<u8>)>)
    requires
        material@.len() == 64,
    ensures
        r is Some,
        match r {
            Some((secret, public)) => {
                &&& ml_kem_768_generated(material@) == Some((secret@, public@))
                &&& secret@.len() == 2400
                &&& public@.len() == 1184
            },
            None => ml_kem_768_generated(material@) is None,
        },
{
    let (d, z) = material.split_at_checked(32)?;
    let (d, z) = (<[u8; 32]>::try_from(d).ok()?, <[u8; 32]>::try_from(z).ok()?);
    let (public, secret) = <fips203::ml_kem_768::KG as fips203::traits::KeyGen>::keygen_from_seed(d, z);
    let secret = fips203::traits::SerDes::into_bytes(secret);
    Some((seal_bytes(secret.to_vec()), fips203::traits::SerDes::into_bytes(public).to_vec()))
}

/// `fips203::ml_kem_1024::KG::keygen_from_seed` with the first 32 bytes as
/// `d` and the last 32 as `z`: a decapsulation key of 3168 bytes and an
/// encapsulation key of 1568. It refuses no seeds.
#[verifier::external_body]
pub(crate) fn ml_kem_1024_keypair(material: &[u8]) -> (r: Option<(SecretBytes, Vec<u8>)>)
    requires
        material@.len() == 64,
    ensures
        r is Some,
        match r {
            Some((secret, public)) => {
                &&& ml_kem_1024_generated(material@) == Some((secret@, public@))
                &&& secret@.len() == 3168
                &&& public@.len() == 1568
            },
            None => ml_kem_1024_generated(material@) is None,
        },
{
    let (d, z) = material.split_at_checked(32)?;
    let (d, z) = (<[u8; 32]>::try_from(d).ok()?, <[u8; 32]>::try_from(z).ok()?);
    let (public, secret) = <fips203::ml_kem_1024::KG as fips203::traits::KeyGen>::keygen_from_seed(d, z);
    let secret = fips203::traits::SerDes::into_bytes(secret);
    Some((seal_bytes(secret.to_vec()), fips203::traits::SerDes::into_bytes(public).to_vec()))
}

/// The first bytes of every derivation label: the ASCII text `cryptopia/v1`.
pub open spec fn label_prefix() -> Seq<u8> {
    seq![99u8, 114u8, 121u8, 112u8, 116u8, 111u8, 112u8, 105u8, 97u8, 47u8, 118u8, 49u8]
}

/// The label that separates the derivation for one algorithm from every
/// other: the prefix, then the purpose byte and the index byte.
pub open spec fn derivation_label(id: AlgorithmId) -> Seq<u8> {
    label_prefix().push(id.spec_kind()).push(id.spec_index())
}

/// The key material for an algorithm: HKDF-SHA256 of the seed under the
/// algorithm's label, as long as its key generation takes.
pub open spec fn child_material(seed: Seq<u8>, id: AlgorithmId) -> Seq<u8> {
    hkdf_sha256(seed, derivation_label(id), id.spec_material_length())
}

/// The keypair that an algorithm's key generation makes from key material,
/// secret half first.
pub open spec fn generated(id: AlgorithmId, material: Seq<u8>) -> Option<(Seq<u8>, Seq<u8>)> {
    match id {
        AlgorithmId::EC(ECAlgorithm::Ed25519) => ed25519_generated(material),
        AlgorithmId::PQ(PQAlgorithm::MlDsa65) => ml_dsa_65_generated(material),
        AlgorithmId::PQ(PQAlgorithm::MlDsa87) => ml_dsa_87_generated(material),
        AlgorithmId::DH(DHAlgorithm::X25519) => x25519_generated(material),
        AlgorithmId::KEM(KEMAlgorithm::MlKem768) => ml_kem_768_generated(material),
        AlgorithmId::KEM(KEMAlgorithm::MlKem1024) => ml_kem_1024_generated(material),
    }
}

/// A keypair as contracts see it.
pub struct KeyPairView {
    pub algorithm: AlgorithmId,
    pub secret_key: Seq<u8>,
    pub public_key: Seq<u8>,
}

/// The keypair of a seed for an algorithm: the one that the algorithm's key
/// generation makes from the seed's key material for it.
pub open spec fn derived(seed: Seq<u8>, id: AlgorithmId) -> Option<KeyPairView> {
    match generated(id, child_material(seed, id)) {
        Some((secret_key, public_key)) => Some(KeyPairView { algorithm: id, secret_key, public_key }),
        None => None,
    }
}

/// The length in bytes of a public key of an algorithm.
pub open spec fn public_key_length(id: AlgorithmId) -> nat {
    match id {
        AlgorithmId::EC(a) => a.spec_public_key_length(),
        AlgorithmId::PQ(a) => a.spec_public_key_length(),
        AlgorithmId::DH(a) => a.spec_public_key_length(),
        AlgorithmId::KEM(a) => a.spec_public_key_length(),
    }
}

/// A keypair: an algorithm, its secret half in a buffer that is wiped on
/// release, and its public half.
pub struct KeyPair {
    algorithm: AlgorithmId,
    secret_key: SecretBytes,
    public_key: Vec<u8>,
}

impl View for KeyPair {
    type V = KeyPairView;

    closed spec fn view(&self) -> KeyPairView {
        KeyPairView {
            algorithm: self.algorithm,
            secret_key: self.secret_key@,
            public_key: self.public_key@,
        }
    }
}

impl KeyPair {
    #[verifier::type_invariant]
    spec fn public_key_fits(self) -> bool {
        self.public_key@.len() == public_key_length(self.algorithm)
    }

    /// The algorithm that the pair was made for.
    pub fn algorithm(&self) -> (id: AlgorithmId)
        ensures
            id == self@.algorithm,
    {
        self.algorithm
    }

    /// The secret half, for as long as the reference lives.
    pub fn secret_key(&self) -> (key: &SecretBytes)
        ensures
            key@ == self@.secret_key,
    {
        &self.secret_key
    }

    /// The public half, which has the length that the algorithm fixes.
    pub fn public_key(&self) -> (key: &Vec<u8>)
        ensures
            key@ == self@.public_key,
            key@.len() == public_key_length(self@.algorithm),
    {
        proof {
            use_type_invariant(self);
        }
        &self.public_key
    }

    /// Puts the two halves that a key generation gave under their algorithm,
    /// if it gave any and the public half has the algorithm's length.
    pub fn from_parts(id: AlgorithmId, parts: Option<(SecretBytes, Vec<u8>)>) -> (r: Option<Self>)
        ensures
            match parts {
                Some((secret, public)) => if public@.len() == public_key_length(id) {
                    r is Some && r.unwrap()@ == (KeyPairView {
                        algorithm: id,
                        secret_key: secret@,
                        public_key: public@,
                    })
                } else {
                    r is None
                },
                None => r is None,
            },
    {
        match parts {
            Some((secret_key, public_key)) => {
                let expected = match id {
                    AlgorithmId::EC(a) => a.public_key_length(),
                    AlgorithmId::PQ(a) => a.public_key_length(),
                    AlgorithmId::DH(a) => a.public_key_length(),
                    AlgorithmId::KEM(a) => a.public_key_length(),
                };
                if public_key.len() == expected {
                    Some(KeyPair { algorithm: id, secret_key, public_key })
                } else {
                    None
                }
            },
            None => None,
        }
    }
}

/// The label of an algorithm, as bytes.
pub fn label_for(id: AlgorithmId) -> (label: Vec<u8>)
    ensures
        label@ == derivation_label(id),
{
    let mut label: Vec<u8> = Vec::new();
    label.push(99u8);
    label.push(114u8);
    label.push(121u8);
    label.push(112u8);
    label.push(116u8);
    label.push(111u8);
    label.push(112u8);
    label.push(105u8);
    label.push(97u8);
    label.push(47u8);
    label.push(118u8);
    label.push(49u8);
    assert(label@ == label_prefix());
    label.push(id.kind());
    label.push(id.index());
    label
}

/// Derives the keypair of a seed for an algorithm. The same seed and
/// algorithm give the same keypair each time; nothing is kept. The
/// post-quantum algorithms have a keypair for every seed; Ed25519 has none
/// where the seed's key material for it is all zeros, and X25519 none where
/// its key generation refuses the material.
pub fn derive_keypair(seed: &Seed, id: AlgorithmId) -> (r: Option<KeyPair>)
    ensures
        match r {
            Some(pair) => derived(seed@, id) == Some(pair@),
            None => derived(seed@, id) is None,
        },
        id is PQ || id is KEM ==> r is Some,
        id is EC ==> (r is None <==> all_zero(child_material(seed@, id))),
{
    let label = label_for(id);
    let material = match hkdf_expand(
        seed.expose().as_slice(),
        label.as_slice(),
        id.material_length(),
    ) {
        Some(material) => material,
        None => return None,
    };
    let bytes = material.expose().as_slice();
    let parts = match id {
        AlgorithmId::EC(ECAlgorithm::Ed25519) => ed25519_keypair(bytes),
        AlgorithmId::PQ(PQAlgorithm::MlDsa65) => ml_dsa_65_keypair(bytes),
        AlgorithmId::PQ(PQAlgorithm::MlDsa87) => ml_dsa_87_keypair(bytes),
        AlgorithmId::DH(DHAlgorithm::X25519) => x25519_keypair(bytes),
        AlgorithmId::KEM(KEMAlgorithm::MlKem768) => ml_kem_768_keypair(bytes),
        AlgorithmId::KEM(KEMAlgorithm::MlKem1024) => ml_kem_1024_keypair(bytes),
    };
    KeyPair::from_parts(id, parts)
}

/// A keypair of a classical signature scheme.
pub struct ECKeyPair {
    pair: KeyPair,
    algorithm: ECAlgorithm,
}

impl View for ECKeyPair {
    type V = KeyPairView;

    closed spec fn view(&self) -> KeyPairView {
        self.pair@
    }
}

impl ECKeyPair {
    #[verifier::type_invariant]
    spec fn algorithm_agrees(self) -> bool {
        self.pair@.algorithm == AlgorithmId::EC(self.algorithm)
    }

    /// The algorithm under which the view holds the pair.
    pub closed spec fn spec_algorithm(&self) -> ECAlgorithm {
        self.algorithm
    }

    /// Derives the keypair of a seed for an algorithm of this kind.
    pub fn from_seed(seed: &Seed, algorithm: ECAlgorithm) -> (r: Option<Self>)
        ensures
            r is None <==> all_zero(child_material(seed@, AlgorithmId::EC(algorithm))),
            match r {
                Some(pair) => derived(seed@, AlgorithmId::EC(algorithm)) == Some(pair@)
                    && pair.spec_algorithm() == algorithm,
                None => derived(seed@, AlgorithmId::EC(algorithm)) is None,
            },
    {
        match derive_keypair(seed, AlgorithmId::EC(algorithm)) {
            Some(pair) => Some(ECKeyPair { pair, algorithm }),
            None => None,
        }
    }

    /// The algorithm that the pair was made for.
    pub fn algorithm(&self) -> (a: ECAlgorithm)
        ensures
            a == self.spec_algorithm(),
            self@.algorithm == AlgorithmId::EC(a),
    {
        proof {
            use_type_invariant(self);
        }
        self.algorithm
    }

    /// The secret half, for as long as the reference lives.
    pub fn secret_key(&self) -> (key: &SecretBytes)
        ensures
            key@ == self@.secret_key,
    {
        self.pair.secret_key()
    }

    /// The public half, which has the length that the algorithm fixes.
    pub fn public_key(&self) -> (key: &Vec<u8>)
        ensures
            key@ == self@.public_key,
            key@.len() == self.spec_algorithm().spec_public_key_length(),
    {
        proof {
            use_type_invariant(self);
        }
        self.pair.public_key()
    }
}

/// A keypair of a post-quantum signature scheme.
pub struct PQKeyPair {
    pair: KeyPair,
    algorithm: PQAlgorithm,
}

impl View for PQKeyPair {
    type V = KeyPairView;

    closed spec fn view(&self) -> KeyPairView {
        self.pair@
    }
}

impl PQKeyPair {
    #[verifier::type_invariant]
    spec fn algorithm_agrees(self) -> bool {
        self.pair@.algorithm == AlgorithmId::PQ(self.algorithm)
    }

    /// The algorithm under which the view holds the pair.
    pub closed spec fn spec_algorithm(&self) -> PQAlgorithm {
        self.algorithm
    }

    /// Derives the keypair of a seed for an algorithm of this kind.
    pub fn from_seed(seed: &Seed, algorithm: PQAlgorithm) -> (r: Option<Self>)
        ensures
            r is Some,
            match r {
                Some(pair) => derived(seed@, AlgorithmId::PQ(algorithm)) == Some(pair@)
                    && pair.spec_algorithm() == algorithm,
                None => derived(seed@, AlgorithmId::PQ(algorithm)) is None,
            },
    {
        match derive_keypair(seed, AlgorithmId::PQ(algorithm)) {
            Some(pair) => Some(PQKeyPair { pair, algorithm }),
            None => None,
        }
    }

    /// The algorithm that the pair was made for.
    pub fn algorithm(&self) -> (a: PQAlgorithm)
        ensures
            a == self.spec_algorithm(),
            self@.algorithm == AlgorithmId::PQ(a),
    {
        proof {
            use_type_invariant(self);
        }
        self.algorithm
    }

    /// The secret half, for as long as the reference lives.
    pub fn secret_key(&self) -> (key: &SecretBytes)
        ensures
            key@ == self@.secret_key,
    {
        self.pair.secret_key()
    }

    /// The public half, which has the length that the algorithm fixes.
    pub fn public_key(&self) -> (key: &Vec<u8>)
        ensures
            key@ == self@.public_key,
            key@.len() == self.spec_algorithm().spec_public_key_length(),
    {
        proof {
            use_type_invariant(self);
        }
        self.pair.public_key()
    }
}

/// A keypair of a classical key-exchange scheme.
pub struct DHKeyPair {
    pair: KeyPair,
    algorithm: DHAlgorithm,
}

impl View for DHKeyPair {
    type V = KeyPairView;

    closed spec fn view(&self) -> KeyPairView {
        self.pair@
    }
}

impl DHKeyPair {
    #[verifier::type_invariant]
    spec fn algorithm_agrees(self) -> bool {
        self.pair@.algorithm == AlgorithmId::DH(self.algorithm)
    }

    /// The algorithm under which the view holds the pair.
    pub closed spec fn spec_algorithm(&self) -> DHAlgorithm {
        self.algorithm
    }

    /// Derives the keypair of a seed for an algorithm of this kind.
    pub fn from_seed(seed: &Seed, algorithm: DHAlgorithm) -> (r: Option<Self>)
        ensures
            match r {
                Some(pair) => derived(seed@, AlgorithmId::DH(algorithm)) == Some(pair@)
                    && pair.spec_algorithm() == algorithm,
                None => derived(seed@, AlgorithmId::DH(algorithm)) is None,
            },
    {
        match derive_keypair(seed, AlgorithmId::DH(algorithm)) {
            Some(pair) => Some(DHKeyPair { pair, algorithm }),
            None => None,
        }
    }

    /// The algorithm that the pair was made for.
    pub fn algorithm(&self) -> (a: DHAlgorithm)
        ensures
            a == self.spec_algorithm(),
            self@.algorithm == AlgorithmId::DH(a),
    {
        proof {
            use_type_invariant(self);
        }
        self.algorithm
    }

    /// The secret half, for as long as the reference lives.
    pub fn secret_key(&self) -> (key: &SecretBytes)
        ensures
            key@ == self@.secret_key,
    {
        self.pair.secret_key()
    }

    /// The public half, which has the length that the algorithm fixes.
    pub fn public_key(&self) -> (key: &Vec<u8>)
        ensures
            key@ == self@.public_key,
            key@.len() == self.spec_algorithm().spec_public_key_length(),
    {
        proof {
            use_type_invariant(self);
        }
        self.pair.public_key()
    }
}

/// A keypair of a post-quantum key-encapsulation mechanism.
pub struct KEMKeyPair {
    pair: KeyPair,
    algorithm: KEMAlgorithm,
}

impl View for KEMKeyPair {
    type V = KeyPairView;

    closed spec fn view(&self) -> KeyPairView {
        self.pair@
    }
}

impl KEMKeyPair {
    #[verifier::type_invariant]
    spec fn algorithm_agrees(self) -> bool {
        self.pair@.algorithm == AlgorithmId::KEM(self.algorithm)
    }

    /// The algorithm under which the view holds the pair.
    pub closed spec fn spec_algorithm(&self) -> KEMAlgorithm {
        self.algorithm
    }

    /// Derives the keypair of a seed for an algorithm of this kind.
    pub fn from_seed(seed: &Seed, algorithm: KEMAlgorithm) -> (r: Option<Self>)
        ensures
            r is Some,
            match r {
                Some(pair) => derived(seed@, AlgorithmId::KEM(algorithm)) == Some(pair@)
                    && pair.spec_algorithm() == algorithm,
                None => derived(seed@, AlgorithmId::KEM(algorithm)) is None,
            },
    {
        match derive_keypair(seed, AlgorithmId::KEM(algorithm)) {
            Some(pair) => Some(KEMKeyPair { pair, algorithm }),
            None => None,
        }
    }

    /// The algorithm that the pair was made for.
    pub fn algorithm(&self) -> (a: KEMAlgorithm)
        ensures
            a == self.spec_algorithm(),
            self@.algorithm == AlgorithmId::KEM(a),
    {
        proof {
            use_type_invariant(self);
        }
        self.algorithm
    }

    /// The secret half, for as long as the reference lives.
    pub fn secret_key(&self) -> (key: &SecretBytes)
        ensures
            key@ == self@.secret_key,
    {
        self.pair.secret_key()
    }

    /// The public half, which has the length that the algorithm fixes.
    pub fn public_key(&self) -> (key: &Vec<u8>)
        ensures
            key@ == self@.public_key,
            key@.len() == self.spec_algorithm().spec_public_key_length(),
    {
        proof {
            use_type_invariant(self);
        }
        self.pair.public_key()
    }
}

/// Determinism: the keypair of a seed for an algorithm is a function of the
/// seed's bytes and the algorithm. Equal seeds and equal algorithms have
/// equal keypairs, byte for byte.
pub proof fn lemma_derivation_is_deterministic(
    seed_a: Seq<u8>,
    id_a: AlgorithmId,
    seed_b: Seq<u8>,
    id_b: AlgorithmId,
)
    requires
        seed_a == seed_b,
        id_a == id_b,
    ensures
        derived(seed_a, id_a) == derived(seed_b, id_b),
{
}

/// Domain separation: two distinct algorithms have distinct labels, so the
/// key derivation is never asked the same question for both; and unless the
/// key generation refuses a seed's material for both, the seed's keypairs
/// for the two differ.
pub proof fn lemma_domain_separation(seed: Seq<u8>, a: AlgorithmId, b: AlgorithmId)
    requires
        a != b,
        derived(seed, a) is Some || derived(seed, b) is Some,
    ensures
        derivation_label(a) != derivation_label(b),
        derived(seed, a) != derived(seed, b),
{
    let la = derivation_label(a);
    let lb = derivation_label(b);
    if la == lb {
        assert(la[12] == a.spec_kind());
        assert(lb[12] == b.spec_kind());
        assert(la[13] == a.spec_index());
        assert(lb[13] == b.spec_index());
        crate::algorithm::lemma_kind_and_index_identify(a, b);
    }
}

} // verus!
