//! The master key: a seed and the two hybrid algorithm pairs of an identity.
//!
//! Every keypair of an identity is derived from the seed when it is asked
//! for, and nothing derived is kept. A master key leaves the process as a
//! secret record, with the seed in the clear or encrypted under a
//! passphrase, and comes back from one.

use crate::algorithm::{AlgorithmId, DHAlgorithm, ECAlgorithm, KEMAlgorithm, PQAlgorithm};
use crate::derivation::{derived, DHKeyPair, ECKeyPair, KEMKeyPair, KeyPairView, PQKeyPair};
use crate::document::binary_form;
use crate::encryption::{
    export_metadata, fresh_metadata, header_bytes, header_for, open_seed, opened_seed, seal_seed,
    sealed_seed,
};
use crate::format::keys::{
    EncryptionPublicKeyFormat, EncryptionPublicKeyView, FullChainPublicKeyFormat,
    FullChainPublicKeyView, SecretKeyFormat, SecretKeyView, SignaturePublicKeyFormat,
    SignaturePublicKeyView, NONCE_LENGTH, SALT_LENGTH,
};
use crate::format::{EncodablePublic, EncodableSecret, ErrSection, Fault, FormatError};
use crate::secret::SecretBytes;
use crate::seed::{lemma_seed_length, system_random, Seed, SEED_LENGTH};
use vstd::prelude::*;

verus! {

/// The hybrid pair of signature algorithms of an identity.
#[derive(Clone, Copy, Debug, PartialEq, Eq, Structural)]
pub struct HybridSignAlgorithm {
    pub ec_algorithm: ECAlgorithm,
    pub pq_algorithm: PQAlgorithm,
}

/// The hybrid pair of key-exchange algorithms of an identity.
#[derive(Clone, Copy, Debug, PartialEq, Eq, Structural)]
pub struct HybridKEMAlgorithm {
    pub dh_algorithm: DHAlgorithm,
    pub kem_algorithm: KEMAlgorithm,
}

/// A seed with the algorithms that its keypairs are derived for.
pub struct MasterKey {
    hybrid_kem_algorithm: HybridKEMAlgorithm,
    hybrid_sign_algorithm: HybridSignAlgorithm,
    master_seed: Seed,
}

/// A master key as contracts see it.
pub struct MasterKeyView {
    pub hybrid_kem_algorithm: HybridKEMAlgorithm,
    pub hybrid_sign_algorithm: HybridSignAlgorithm,
    pub master_seed: Seq<u8>,
}

impl View for MasterKey {
    type V = MasterKeyView;

    closed spec fn view(&self) -> MasterKeyView {
        MasterKeyView {
            hybrid_kem_algorithm: self.hybrid_kem_algorithm,
            hybrid_sign_algorithm: self.hybrid_sign_algorithm,
            master_seed: self.master_seed@,
        }
    }
}

/// What a passphrase that may be absent holds.
pub open spec fn passphrase_of(passphrase: Option<SecretBytes>) -> Option<Seq<u8>> {
    match passphrase {
        Some(p) => Some(p@),
        None => None,
    }
}

impl MasterKeyView {
    /// The seed has the length of a seed. Every master key is well formed.
    pub open spec fn well_formed(self) -> bool {
        self.master_seed.len() == SEED_LENGTH
    }

    /// The header that is authenticated with an encrypted seed.
    pub open spec fn header(self) -> Seq<u8> {
        header_bytes(
            self.hybrid_sign_algorithm.ec_algorithm,
            self.hybrid_sign_algorithm.pq_algorithm,
            self.hybrid_kem_algorithm.dh_algorithm,
            self.hybrid_kem_algorithm.kem_algorithm,
        )
    }

    /// The record of the master key with these seed bytes and this
    /// metadata.
    pub open spec fn record(
        self,
        master_seed: Seq<u8>,
        encryption_metadata: Option<crate::format::keys::EncryptionMetadataView>,
    ) -> SecretKeyView {
        SecretKeyView {
            ec_algorithm: self.hybrid_sign_algorithm.ec_algorithm,
            pq_algorithm: self.hybrid_sign_algorithm.pq_algorithm,
            dh_algorithm: self.hybrid_kem_algorithm.dh_algorithm,
            kem_algorithm: self.hybrid_kem_algorithm.kem_algorithm,
            master_seed,
            encryption_metadata,
        }
    }

    /// The record with the seed in the clear.
    pub open spec fn plain_record(self) -> SecretKeyView {
        self.record(self.master_seed, None)
    }

    /// The record with the seed encrypted under a passphrase, with a salt
    /// and a nonce that were drawn for it; `None` where the two do not have
    /// their lengths or the key derivation or the cipher refuses.
    pub open spec fn sealed_record(
        self,
        passphrase: Seq<u8>,
        salt: Seq<u8>,
        nonce: Seq<u8>,
    ) -> Option<SecretKeyView> {
        if salt.len() != SALT_LENGTH || nonce.len() != NONCE_LENGTH {
            None
        } else {
            match sealed_seed(
                self.master_seed,
                passphrase,
                self.header(),
                export_metadata(salt, nonce),
            ) {
                Some(sealed) => Some(self.record(sealed, Some(export_metadata(salt, nonce)))),
                None => None,
            }
        }
    }

    /// The master key of a record and a passphrase. A record that is
    /// encrypted without a passphrase, or in the clear with one, is a
    /// mismatch, whatever else it holds. A record that is not well formed
    /// is refused. An encrypted seed that does not open under the
    /// passphrase is a failed decryption.
    pub open spec fn imported(record: SecretKeyView, passphrase: Option<Seq<u8>>) -> Result<
        MasterKeyView,
        Fault,
    > {
        let key = MasterKeyView {
            hybrid_kem_algorithm: HybridKEMAlgorithm {
                dh_algorithm: record.dh_algorithm,
                kem_algorithm: record.kem_algorithm,
            },
            hybrid_sign_algorithm: HybridSignAlgorithm {
                ec_algorithm: record.ec_algorithm,
                pq_algorithm: record.pq_algorithm,
            },
            master_seed: record.master_seed,
        };
        if record.encryption_metadata.is_some() != passphrase.is_some() {
            Err(Fault::PassphraseMismatch)
        } else if !record.well_formed() {
            Err(Fault::Structure)
        } else {
            match (record.encryption_metadata, passphrase) {
                (Some(m), Some(p)) => match opened_seed(record.master_seed, p, key.header(), m) {
                    Some(seed) => Ok(MasterKeyView { master_seed: seed, ..key }),
                    None => Err(Fault::DecryptionFailed),
                },
                _ => Ok(key),
            }
        }
    }

    /// The signing keypairs: the classical one and the post-quantum one.
    pub open spec fn signing_keypairs(self) -> (Option<KeyPairView>, Option<KeyPairView>) {
        (
            derived(self.master_seed, AlgorithmId::EC(self.hybrid_sign_algorithm.ec_algorithm)),
            derived(self.master_seed, AlgorithmId::PQ(self.hybrid_sign_algorithm.pq_algorithm)),
        )
    }

    /// The key-exchange keypairs: the classical one and the post-quantum
    /// one.
    pub open spec fn encryption_keypairs(self) -> (Option<KeyPairView>, Option<KeyPairView>) {
        (
            derived(self.master_seed, AlgorithmId::DH(self.hybrid_kem_algorithm.dh_algorithm)),
            derived(self.master_seed, AlgorithmId::KEM(self.hybrid_kem_algorithm.kem_algorithm)),
        )
    }

    /// The public signature bundle, where both signing keypairs exist.
    pub open spec fn signing_public_key(self) -> Option<SignaturePublicKeyView> {
        match self.signing_keypairs() {
            (Some(ec), Some(pq)) => Some(
                SignaturePublicKeyView {
                    ec_algorithm: self.hybrid_sign_algorithm.ec_algorithm,
                    ec_public_key: ec.public_key,
                    pq_algorithm: self.hybrid_sign_algorithm.pq_algorithm,
                    pq_public_key: pq.public_key,
                },
            ),
            _ => None,
        }
    }

    /// The public key-exchange bundle, where both key-exchange keypairs
    /// exist.
    pub open spec fn encryption_public_key(self) -> Option<EncryptionPublicKeyView> {
        match self.encryption_keypairs() {
            (Some(dh), Some(kem)) => Some(
                EncryptionPublicKeyView {
                    dh_algorithm: self.hybrid_kem_algorithm.dh_algorithm,
                    dh_public_key: dh.public_key,
                    kem_algorithm: self.hybrid_kem_algorithm.kem_algorithm,
                    kem_public_key: kem.public_key,
                },
            ),
            _ => None,
        }
    }

    /// Both public bundles, where all four keypairs exist.
    pub open spec fn fullchain_public_key(self) -> Option<FullChainPublicKeyView> {
        match (self.signing_public_key(), self.encryption_public_key()) {
            (Some(signature_public_key), Some(encryption_public_key)) => Some(
                FullChainPublicKeyView { signature_public_key, encryption_public_key },
            ),
            _ => None,
        }
    }
}

impl MasterKey {
    /// A master key over a seed that is at hand.
    pub fn from_seed(
        hybrid_kem_algorithm: HybridKEMAlgorithm,
        hybrid_sign_algorithm: HybridSignAlgorithm,
        master_seed: Seed,
    ) -> (key: Self)
        ensures
            key@ == (MasterKeyView {
                hybrid_kem_algorithm,
                hybrid_sign_algorithm,
                master_seed: master_seed@,
            }),
            key@.well_formed(),
    {
        proof {
            lemma_seed_length(master_seed);
        }
        MasterKey { hybrid_kem_algorithm, hybrid_sign_algorithm, master_seed }
    }

    /// A master key over a fresh random seed. Where the source of
    /// randomness fails there is no master key.
    pub fn generate(
        hybrid_kem_algorithm: HybridKEMAlgorithm,
        hybrid_sign_algorithm: HybridSignAlgorithm,
    ) -> (r: Result<Self, FormatError>)
        ensures
            match r {
                Ok(key) => key@.hybrid_kem_algorithm == hybrid_kem_algorithm
                    && key@.hybrid_sign_algorithm == hybrid_sign_algorithm && key@.well_formed(),
                Err(e) => e is RandomnessFailed,
            },
    {
        match Seed::generate() {
            Ok(master_seed) => Ok(
                MasterKey { hybrid_kem_algorithm, hybrid_sign_algorithm, master_seed },
            ),
            Err(e) => Err(e),
        }
    }

    /// The record with the seed in the clear, built whole.
    pub fn to_format(&self) -> (record: SecretKeyFormat)
        ensures
            record@ == self@.plain_record(),
            record@.well_formed(),
            self@.well_formed(),
    {
        SecretKeyFormat {
            ec_algorithm: self.hybrid_sign_algorithm.ec_algorithm,
            pq_algorithm: self.hybrid_sign_algorithm.pq_algorithm,
            dh_algorithm: self.hybrid_kem_algorithm.dh_algorithm,
            kem_algorithm: self.hybrid_kem_algorithm.kem_algorithm,
            master_seed: self.master_seed.clone_raw_seed(),
            encryption_metadata: None,
        }
    }

    /// The record with the seed encrypted under a passphrase, with a salt
    /// and a nonce that were drawn for it. Importing the record with the
    /// same passphrase gives this master key back.
    pub fn to_sealed_format(&self, passphrase: &SecretBytes, salt: Vec<u8>, nonce: Vec<u8>) -> (r:
        Option<SecretKeyFormat>)
        ensures
            match r {
                Some(record) => {
                    &&& self@.sealed_record(passphrase@, salt@, nonce@) == Some(record@)
                    &&& record@.well_formed()
                    &&& MasterKeyView::imported(record@, Some(passphrase@)) == Ok::<
                        MasterKeyView,
                        Fault,
                    >(self@)
                },
                None => self@.sealed_record(passphrase@, salt@, nonce@) is None,
            },
    {
        if salt.len() != SALT_LENGTH || nonce.len() != NONCE_LENGTH {
            return None;
        }
        let metadata = fresh_metadata(salt, nonce);
        let header = header_for(
            self.hybrid_sign_algorithm.ec_algorithm,
            self.hybrid_sign_algorithm.pq_algorithm,
            self.hybrid_kem_algorithm.dh_algorithm,
            self.hybrid_kem_algorithm.kem_algorithm,
        );
        let seed = self.master_seed.clone_raw_seed();
        match seal_seed(&seed, passphrase, header.as_slice(), &metadata) {
            Some(sealed) => Some(
                SecretKeyFormat {
                    ec_algorithm: self.hybrid_sign_algorithm.ec_algorithm,
                    pq_algorithm: self.hybrid_sign_algorithm.pq_algorithm,
                    dh_algorithm: self.hybrid_kem_algorithm.dh_algorithm,
                    kem_algorithm: self.hybrid_kem_algorithm.kem_algorithm,
                    master_seed: sealed,
                    encryption_metadata: Some(metadata),
                },
            ),
            None => None,
        }
    }

    /// The binary form of the record with the seed encrypted under a
    /// passphrase, with a salt and a nonce that were drawn for it.
    pub fn export_with(&self, passphrase: &SecretBytes, salt: Vec<u8>, nonce: Vec<u8>) -> (r:
        Result<SecretBytes, FormatError>)
        ensures
            match r {
                Ok(bytes) => {
                    &&& self@.sealed_record(passphrase@, salt@, nonce@) is Some
                    &&& bytes@ == binary_form(
                        self@.sealed_record(passphrase@, salt@, nonce@).unwrap().fields(),
                    )
                    &&& SecretKeyFormat::binary_decoded(bytes@) == Ok::<SecretKeyView, Fault>(
                        self@.sealed_record(passphrase@, salt@, nonce@).unwrap(),
                    )
                },
                Err(e) => e is EncryptionFailed && self@.sealed_record(passphrase@, salt@, nonce@)
                    is None,
            },
    {
        match self.to_sealed_format(passphrase, salt, nonce) {
            Some(record) => Ok(record.encode_bson()),
            None => Err(FormatError::EncryptionFailed),
        }
    }

    /// The binary form of the master key's record, built whole before any
    /// byte of it is handed out. Without a passphrase the seed is in the
    /// clear. With one it is encrypted under a fresh salt and nonce: the
    /// bytes then decode to an encrypted record, from which the same
    /// passphrase gives this master key back.
    pub fn export(&self, passphrase_bytes: Option<SecretBytes>) -> (r: Result<
        SecretBytes,
        FormatError,
    >)
        ensures
            match passphrase_bytes {
                None => {
                    &&& r is Ok
                    &&& r.unwrap()@ == binary_form(self@.plain_record().fields())
                    &&& SecretKeyFormat::binary_decoded(r.unwrap()@) == Ok::<SecretKeyView, Fault>(
                        self@.plain_record(),
                    )
                    &&& MasterKeyView::imported(self@.plain_record(), None) == Ok::<
                        MasterKeyView,
                        Fault,
                    >(self@)
                },
                Some(passphrase) => match r {
                    Ok(bytes) => exists|salt: Seq<u8>, nonce: Seq<u8>|
                        {
                            &&& #[trigger] self@.sealed_record(passphrase@, salt, nonce) is Some
                            &&& SecretKeyFormat::binary_decoded(bytes@) == Ok::<
                                SecretKeyView,
                                Fault,
                            >(self@.sealed_record(passphrase@, salt, nonce).unwrap())
                            &&& MasterKeyView::imported(
                                self@.sealed_record(passphrase@, salt, nonce).unwrap(),
                                Some(passphrase@),
                            ) == Ok::<MasterKeyView, Fault>(self@)
                        },
                    Err(e) => e is RandomnessFailed || e is EncryptionFailed,
                },
            },
    {
        match passphrase_bytes {
            None => Ok(self.to_format().encode_bson()),
            Some(passphrase) => {
                let salt = match system_random(SALT_LENGTH) {
                    Some(salt) => salt,
                    None => return Err(FormatError::RandomnessFailed),
                };
                let nonce = match system_random(NONCE_LENGTH) {
                    Some(nonce) => nonce,
                    None => return Err(FormatError::RandomnessFailed),
                };
                let ghost salt_bytes = salt@;
                let ghost nonce_bytes = nonce@;
                match self.to_sealed_format(&passphrase, salt, nonce) {
                    Some(record) => {
                        let bytes = record.encode_bson();
                        assert(self@.sealed_record(passphrase@, salt_bytes, nonce_bytes) is Some);
                        Ok(bytes)
                    },
                    None => Err(FormatError::EncryptionFailed),
                }
            },
        }
    }

    /// Whether a record's seed is encrypted.
    pub fn is_encrypted(secret_key_format: &SecretKeyFormat) -> (b: bool)
        ensures
            b == secret_key_format@.encryption_metadata.is_some(),
    {
        secret_key_format.encryption_metadata.is_some()
    }

    /// The record that the bytes of a serialized master key encode, or why
    /// they encode none.
    pub fn decode_bson(serialized_master_key: &SecretBytes) -> (r: Result<
        SecretKeyFormat,
        FormatError,
    >)
        ensures
            match r {
                Ok(record) => record@.well_formed() && SecretKeyFormat::binary_decoded(
                    serialized_master_key@,
                ) == Ok::<SecretKeyView, Fault>(record@),
                Err(e) => SecretKeyFormat::binary_decoded(serialized_master_key@) == Err::<
                    SecretKeyView,
                    Fault,
                >(e.fault()),
            },
    {
        SecretKeyFormat::decode_bson(serialized_master_key)
    }

    /// The master key of a decoded record. An encrypted record needs its
    /// passphrase and a record in the clear takes none: either mismatch is
    /// reported as such, before anything else is looked at.
    pub fn import(
        decoded_master_key_format: SecretKeyFormat,
        passphrase_bytes: Option<SecretBytes>,
    ) -> (r: Result<Self, FormatError>)
        ensures
            match r {
                Ok(key) => key@.well_formed() && MasterKeyView::imported(
                    decoded_master_key_format@,
                    passphrase_of(passphrase_bytes),
                ) == Ok::<MasterKeyView, Fault>(key@),
                Err(e) => MasterKeyView::imported(
                    decoded_master_key_format@,
                    passphrase_of(passphrase_bytes),
                ) == Err::<MasterKeyView, Fault>(e.fault()),
            },
    {
        if decoded_master_key_format.encryption_metadata.is_some() != passphrase_bytes.is_some() {
            return Err(FormatError::PassphraseMismatch);
        }
        if !decoded_master_key_format.is_well_formed() {
            return Err(FormatError::FailedToDecode(ErrSection::HEADER));
        }
        let hybrid_sign_algorithm = HybridSignAlgorithm {
            ec_algorithm: decoded_master_key_format.ec_algorithm,
            pq_algorithm: decoded_master_key_format.pq_algorithm,
        };
        let hybrid_kem_algorithm = HybridKEMAlgorithm {
            dh_algorithm: decoded_master_key_format.dh_algorithm,
            kem_algorithm: decoded_master_key_format.kem_algorithm,
        };
        let raw = match (decoded_master_key_format.encryption_metadata, passphrase_bytes) {
            (Some(metadata), Some(passphrase)) => {
                let header = header_for(
                    hybrid_sign_algorithm.ec_algorithm,
                    hybrid_sign_algorithm.pq_algorithm,
                    hybrid_kem_algorithm.dh_algorithm,
                    hybrid_kem_algorithm.kem_algorithm,
                );
                match open_seed(
                    &decoded_master_key_format.master_seed,
                    &passphrase,
                    header.as_slice(),
                    &metadata,
                ) {
                    Some(seed) => seed,
                    None => return Err(FormatError::DecryptionFailed),
                }
            },
            _ => decoded_master_key_format.master_seed,
        };
        match Seed::new(raw) {
            Some(master_seed) => Ok(
                MasterKey { hybrid_sign_algorithm, hybrid_kem_algorithm, master_seed },
            ),
            None => Err(FormatError::DecryptionFailed),
        }
    }

    /// Derives the two signing keypairs. There are none where the classical
    /// key generation refuses the material derived for it; the post-quantum
    /// one refuses none.
    pub fn get_signing_keypair(&self) -> (r: Option<(ECKeyPair, PQKeyPair)>)
        ensures
            match r {
                Some((ec, pq)) => {
                    &&& self@.signing_keypairs() == (Some(ec@), Some(pq@))
                    &&& ec.spec_algorithm() == self@.hybrid_sign_algorithm.ec_algorithm
                    &&& pq.spec_algorithm() == self@.hybrid_sign_algorithm.pq_algorithm
                },
                None => self@.signing_keypairs().0 is None,
            },
    {
        let ec_algorithm = self.hybrid_sign_algorithm.ec_algorithm;
        let pq_algorithm = self.hybrid_sign_algorithm.pq_algorithm;
        let ec_keypair = match ECKeyPair::from_seed(&self.master_seed, ec_algorithm) {
            Some(pair) => pair,
            None => return None,
        };
        let pq_keypair = match PQKeyPair::from_seed(&self.master_seed, pq_algorithm) {
            Some(pair) => pair,
            None => return None,
        };
        Some((ec_keypair, pq_keypair))
    }

    /// Derives the two key-exchange keypairs. There are none where the
    /// classical key generation refuses the material derived for it; the
    /// post-quantum one refuses none.
    pub fn get_encryption_keypair(&self) -> (r: Option<(DHKeyPair, KEMKeyPair)>)
        ensures
            match r {
                Some((dh, kem)) => {
                    &&& self@.encryption_keypairs() == (Some(dh@), Some(kem@))
                    &&& dh.spec_algorithm() == self@.hybrid_kem_algorithm.dh_algorithm
                    &&& kem.spec_algorithm() == self@.hybrid_kem_algorithm.kem_algorithm
                },
                None => self@.encryption_keypairs().0 is None,
            },
    {
        let dh_algorithm = self.hybrid_kem_algorithm.dh_algorithm;
        let kem_algorithm = self.hybrid_kem_algorithm.kem_algorithm;
        let dh_keypair = match DHKeyPair::from_seed(&self.master_seed, dh_algorithm) {
            Some(pair) => pair,
            None => return None,
        };
        let kem_keypair = match KEMKeyPair::from_seed(&self.master_seed, kem_algorithm) {
            Some(pair) => pair,
            None => return None,
        };
        Some((dh_keypair, kem_keypair))
    }

    /// The public halves of the signing keypairs; the secret halves are
    /// released before this returns.
    pub fn get_signing_public_key(&self) -> (r: Option<SignaturePublicKeyFormat>)
        ensures
            match r {
                Some(bundle) => self@.signing_public_key() == Some(bundle@)
                    && bundle@.well_formed(),
                None => self@.signing_public_key() is None,
            },
    {
        match self.get_signing_keypair() {
            Some((ec_keypair, pq_keypair)) => Some(
                SignaturePublicKeyFormat::from_keypairs(ec_keypair, pq_keypair),
            ),
            None => None,
        }
    }

    /// The public halves of the key-exchange keypairs; the secret halves
    /// are released before this returns.
    pub fn get_encryption_public_key(&self) -> (r: Option<EncryptionPublicKeyFormat>)
        ensures
            match r {
                Some(bundle) => self@.encryption_public_key() == Some(bundle@)
                    && bundle@.well_formed(),
                None => self@.encryption_public_key() is None,
            },
    {
        match self.get_encryption_keypair() {
            Some((dh_keypair, kem_keypair)) => Some(
                EncryptionPublicKeyFormat::from_keypairs(dh_keypair, kem_keypair),
            ),
            None => None,
        }
    }

    /// The binary form of both public bundles. It is made of the public
    /// halves and the algorithm codes alone.
    pub fn export_public(&self) -> (r: Option<Vec<u8>>)
        ensures
            match r {
                Some(bytes) => {
                    &&& self@.fullchain_public_key() is Some
                    &&& bytes@ == binary_form(self@.fullchain_public_key().unwrap().fields())
                    &&& FullChainPublicKeyFormat::binary_decoded(bytes@) == Ok::<
                        FullChainPublicKeyView,
                        Fault,
                    >(self@.fullchain_public_key().unwrap())
                },
                None => self@.fullchain_public_key() is None,
            },
    {
        let signature_public_key = match self.get_signing_public_key() {
            Some(bundle) => bundle,
            None => return None,
        };
        let encryption_public_key = match self.get_encryption_public_key() {
            Some(bundle) => bundle,
            None => return None,
        };
        let fullchain_public_key = FullChainPublicKeyFormat {
            signature_public_key,
            encryption_public_key,
        };
        Some(fullchain_public_key.encode_bson())
    }
}

/// Every master key is well formed.
pub proof fn lemma_master_key_is_well_formed(key: MasterKey)
    ensures
        key@.well_formed(),
{
    lemma_seed_length(key.master_seed);
}

/// A master key whose seed has the length of a seed comes back from its
/// record in the clear when no passphrase is given, and with it the same
/// signing and key-exchange keypairs.
pub proof fn lemma_plain_record_round_trip(key: MasterKeyView)
    requires
        key.well_formed(),
    ensures
        MasterKeyView::imported(key.plain_record(), None) == Ok::<MasterKeyView, Fault>(key),
        MasterKeyView::imported(key.plain_record(), None).unwrap().signing_keypairs()
            == key.signing_keypairs(),
        MasterKeyView::imported(key.plain_record(), None).unwrap().encryption_keypairs()
            == key.encryption_keypairs(),
{
}

/// A record and a passphrase of which one says encrypted and the other does
/// not are a mismatch, whatever the record holds.
pub proof fn lemma_mismatch_is_reported(record: SecretKeyView, passphrase: Option<Seq<u8>>)
    requires
        record.encryption_metadata.is_some() != passphrase.is_some(),
    ensures
        MasterKeyView::imported(record, passphrase) == Err::<MasterKeyView, Fault>(
            Fault::PassphraseMismatch,
        ),
{
}

} // verus!
