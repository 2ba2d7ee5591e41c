use chacha20poly1305::aead::{Aead, KeyInit, Payload};
use chacha20poly1305::{ChaCha20Poly1305, Nonce};
use cryptopia_lib::algorithm::{
    CipherAlgorithm, DHAlgorithm, ECAlgorithm, KEMAlgorithm, KdfAlgorithm, PQAlgorithm,
};
use cryptopia_lib::encryption::{
    fresh_metadata, header_for, open_seed, seal_seed, EXPORT_MEMORY_COST, EXPORT_PARALLELISM,
    EXPORT_TIME_COST,
};
use cryptopia_lib::format::keys::{
    EncryptionMetadata, FullChainPublicKeyFormat, SecretKeyFormat,
};
use cryptopia_lib::format::{EncodablePublic, EncodableSecret, Fault, FormatError};
use cryptopia_lib::keys::{HybridKEMAlgorithm, HybridSignAlgorithm, MasterKey};
use cryptopia_lib::secret::SecretBytes;
use cryptopia_lib::seed::Seed;

fn sign() -> HybridSignAlgorithm {
    HybridSignAlgorithm { ec_algorithm: ECAlgorithm::Ed25519, pq_algorithm: PQAlgorithm::MlDsa65 }
}

fn kem() -> HybridKEMAlgorithm {
    HybridKEMAlgorithm { dh_algorithm: DHAlgorithm::X25519, kem_algorithm: KEMAlgorithm::MlKem768 }
}

fn key_of(byte: u8) -> MasterKey {
    MasterKey::from_seed(kem(), sign(), Seed::new(SecretBytes::new(vec![byte; 32])).unwrap())
}

fn passphrase(text: &str) -> SecretBytes {
    SecretBytes::new(text.as_bytes().to_vec())
}

fn cheap_metadata() -> EncryptionMetadata {
    EncryptionMetadata {
        kdf_algorithm: KdfAlgorithm::Argon2id,
        kdf_salt: vec![5; 16],
        kdf_memory_cost: 8,
        kdf_time_cost: 1,
        kdf_parallelism: 1,
        cipher_algorithm: CipherAlgorithm::ChaCha20Poly1305,
        nonce: vec![6; 12],
    }
}

fn cheap_sealed_record(seed: &[u8], pass: &str) -> SecretKeyFormat {
    let header = header_for(ECAlgorithm::Ed25519, PQAlgorithm::MlDsa65, DHAlgorithm::X25519, KEMAlgorithm::MlKem768);
    let sealed = seal_seed(&SecretBytes::new(seed.to_vec()), &passphrase(pass), &header, &cheap_metadata()).unwrap();
    SecretKeyFormat {
        ec_algorithm: ECAlgorithm::Ed25519,
        pq_algorithm: PQAlgorithm::MlDsa65,
        dh_algorithm: DHAlgorithm::X25519,
        kem_algorithm: KEMAlgorithm::MlKem768,
        master_seed: sealed,
        encryption_metadata: Some(cheap_metadata()),
    }
}

fn fault_of<T>(r: Result<T, FormatError>) -> Fault {
    match r {
        Ok(_) => panic!("this should have failed"),
        Err(e) => e.kind(),
    }
}

fn contains(haystack: &[u8], needle: &[u8]) -> bool {
    haystack.windows(needle.len()).any(|w| w == needle)
}

fn assert_same_keypairs(a: &MasterKey, b: &MasterKey) {
    let (ec_a, pq_a) = a.get_signing_keypair().unwrap();
    let (ec_b, pq_b) = b.get_signing_keypair().unwrap();
    assert_eq!(ec_a.algorithm(), ec_b.algorithm());
    assert_eq!(ec_a.public_key(), ec_b.public_key());
    assert_eq!(ec_a.secret_key().expose(), ec_b.secret_key().expose());
    assert_eq!(pq_a.algorithm(), pq_b.algorithm());
    assert_eq!(pq_a.public_key(), pq_b.public_key());
    assert_eq!(pq_a.secret_key().expose(), pq_b.secret_key().expose());
    let (dh_a, kem_a) = a.get_encryption_keypair().unwrap();
    let (dh_b, kem_b) = b.get_encryption_keypair().unwrap();
    assert_eq!(dh_a.algorithm(), dh_b.algorithm());
    assert_eq!(dh_a.public_key(), dh_b.public_key());
    assert_eq!(dh_a.secret_key().expose(), dh_b.secret_key().expose());
    assert_eq!(kem_a.algorithm(), kem_b.algorithm());
    assert_eq!(kem_a.public_key(), kem_b.public_key());
    assert_eq!(kem_a.secret_key().expose(), kem_b.secret_key().expose());
}

#[test]
fn generate_keeps_the_algorithms_and_draws_a_seed() {
    let a = MasterKey::generate(kem(), sign()).unwrap();
    let b = MasterKey::generate(kem(), sign()).unwrap();
    let record = a.to_format();
    assert_eq!(record.ec_algorithm, ECAlgorithm::Ed25519);
    assert_eq!(record.pq_algorithm, PQAlgorithm::MlDsa65);
    assert_eq!(record.dh_algorithm, DHAlgorithm::X25519);
    assert_eq!(record.kem_algorithm, KEMAlgorithm::MlKem768);
    assert_eq!(record.master_seed.len(), 32);
    assert!(record.encryption_metadata.is_none());
    assert_ne!(record.master_seed.expose(), &vec![0u8; 32]);
    assert_ne!(record.master_seed.expose(), b.to_format().master_seed.expose());
}

#[test]
fn plaintext_export_and_import_preserve_the_identity() {
    let first = MasterKey::generate(kem(), sign()).unwrap();
    let bytes = first.export(None).unwrap();
    let record = MasterKey::decode_bson(&bytes).unwrap();
    assert!(!MasterKey::is_encrypted(&record));
    let back = MasterKey::import(record, None).unwrap();
    assert_eq!(back.to_format().master_seed.expose(), first.to_format().master_seed.expose());
    assert_same_keypairs(&first, &back);
}

#[test]
fn plaintext_export_is_the_binary_form_of_the_plain_record() {
    let key = key_of(7);
    let bytes = key.export(None).unwrap();
    assert_eq!(bytes.expose(), key.to_format().encode_bson().expose());
    assert!(contains(bytes.expose(), &[7u8; 32]));
    assert_eq!(key.export(None).unwrap().expose(), bytes.expose());
}

#[test]
fn every_choice_of_algorithms_survives_the_round_trip() {
    for pq in [PQAlgorithm::MlDsa65, PQAlgorithm::MlDsa87] {
        for kem_algorithm in [KEMAlgorithm::MlKem768, KEMAlgorithm::MlKem1024] {
            let sign = HybridSignAlgorithm { ec_algorithm: ECAlgorithm::Ed25519, pq_algorithm: pq };
            let kem = HybridKEMAlgorithm { dh_algorithm: DHAlgorithm::X25519, kem_algorithm };
            let seed = Seed::new(SecretBytes::new(vec![3; 32])).unwrap();
            let first = MasterKey::from_seed(kem, sign, seed);
            let record = MasterKey::decode_bson(&first.export(None).unwrap()).unwrap();
            assert_eq!(record.pq_algorithm, pq);
            assert_eq!(record.kem_algorithm, kem_algorithm);
            let back = MasterKey::import(record, None).unwrap();
            assert_same_keypairs(&first, &back);
        }
    }
}

#[test]
fn encrypted_export_and_import_with_the_same_passphrase() {
    let first = MasterKey::generate(kem(), sign()).unwrap();
    let bytes = first.export(Some(passphrase("correct-horse"))).unwrap();
    let record = MasterKey::decode_bson(&bytes).unwrap();
    assert!(MasterKey::is_encrypted(&record));
    assert_eq!(record.master_seed.len(), 48);
    assert!(!contains(bytes.expose(), first.to_format().master_seed.expose()));
    let back = MasterKey::import(record, Some(passphrase("correct-horse"))).unwrap();
    assert_eq!(back.to_format().master_seed.expose(), first.to_format().master_seed.expose());
    assert_same_keypairs(&first, &back);
}

#[test]
fn a_different_passphrase_fails_the_authentication() {
    let first = key_of(7);
    let bytes = first.export(Some(passphrase("correct-horse"))).unwrap();
    let record = MasterKey::decode_bson(&bytes).unwrap();
    let r = MasterKey::import(record, Some(passphrase("battery-staple")));
    assert!(matches!(r, Err(FormatError::DecryptionFailed)));
}

#[test]
fn fresh_exports_draw_fresh_salt_and_nonce() {
    let key = key_of(7);
    let a = MasterKey::decode_bson(&key.export(Some(passphrase("p"))).unwrap()).unwrap();
    let b = MasterKey::decode_bson(&key.export(Some(passphrase("p"))).unwrap()).unwrap();
    let (ma, mb) = (a.encryption_metadata.unwrap(), b.encryption_metadata.unwrap());
    assert_ne!(ma.kdf_salt, mb.kdf_salt);
    assert_ne!(ma.nonce, mb.nonce);
    assert_ne!(a.master_seed.expose(), b.master_seed.expose());
    assert_eq!((ma.kdf_salt.len(), ma.nonce.len()), (16, 12));
    assert_eq!(ma.kdf_algorithm, KdfAlgorithm::Argon2id);
    assert_eq!(ma.cipher_algorithm, CipherAlgorithm::ChaCha20Poly1305);
    assert_eq!((ma.kdf_memory_cost, ma.kdf_time_cost, ma.kdf_parallelism), (19456, 2, 1));
}

#[test]
fn sealed_seed_is_chacha20poly1305_under_the_argon2id_key() {
    let key = key_of(7);
    let record = key.to_sealed_format(&passphrase("correct-horse"), vec![1; 16], vec![2; 12]).unwrap();
    let params = argon2::Params::new(EXPORT_MEMORY_COST, EXPORT_TIME_COST, EXPORT_PARALLELISM, Some(32)).unwrap();
    let hasher = argon2::Argon2::new(argon2::Algorithm::Argon2id, argon2::Version::V0x13, params);
    let mut derived = [0u8; 32];
    hasher.hash_password_into(b"correct-horse", &[1; 16], &mut derived).unwrap();
    let cipher = ChaCha20Poly1305::new_from_slice(&derived).unwrap();
    let expected = cipher
        .encrypt(Nonce::from_slice(&[2; 12]), Payload { msg: &[7u8; 32], aad: &[1, 1, 1, 1] })
        .unwrap();
    assert_eq!(record.master_seed.expose(), &expected);
    assert_ne!(&expected[..32], &[7u8; 32][..]);
    let m = record.encryption_metadata.as_ref().unwrap();
    assert_eq!(m.kdf_salt, vec![1; 16]);
    assert_eq!(m.nonce, vec![2; 12]);
    assert!(record.is_well_formed());
}

#[test]
fn export_with_is_deterministic_and_imports_again() {
    let key = key_of(7);
    let a = key.export_with(&passphrase("correct-horse"), vec![1; 16], vec![2; 12]).unwrap();
    let record = key.to_sealed_format(&passphrase("correct-horse"), vec![1; 16], vec![2; 12]).unwrap();
    assert_eq!(a.expose(), record.encode_bson().expose());
    let back = MasterKey::import(MasterKey::decode_bson(&a).unwrap(), Some(passphrase("correct-horse"))).unwrap();
    assert_same_keypairs(&key, &back);
}

#[test]
fn salt_and_nonce_must_have_their_lengths() {
    let key = key_of(7);
    assert!(key.to_sealed_format(&passphrase("p"), vec![1; 15], vec![2; 12]).is_none());
    assert!(key.to_sealed_format(&passphrase("p"), vec![1; 16], vec![2; 13]).is_none());
    let r = key.export_with(&passphrase("p"), vec![], vec![2; 12]);
    assert!(matches!(r, Err(FormatError::EncryptionFailed)));
    assert!(!fresh_metadata(vec![1; 15], vec![2; 12]).is_well_formed());
    assert!(fresh_metadata(vec![1; 16], vec![2; 12]).is_well_formed());
}

#[test]
fn header_is_the_four_codes() {
    assert_eq!(
        header_for(ECAlgorithm::Ed25519, PQAlgorithm::MlDsa87, DHAlgorithm::X25519, KEMAlgorithm::MlKem1024),
        vec![1u8, 2, 1, 2]
    );
}

#[test]
fn seal_and_open_are_inverse_and_bound_to_everything() {
    let seed = SecretBytes::new((0..32).collect());
    let header = [1u8, 1, 1, 1];
    let m = cheap_metadata();
    let sealed = seal_seed(&seed, &passphrase("p"), &header, &m).unwrap();
    assert_eq!(sealed.len(), 48);
    assert_ne!(&sealed.expose()[..32], seed.expose().as_slice());
    assert_eq!(open_seed(&sealed, &passphrase("p"), &header, &m).unwrap().expose(), seed.expose());
    assert!(open_seed(&sealed, &passphrase("q"), &header, &m).is_none());
    assert!(open_seed(&sealed, &passphrase("p"), &[1, 2, 1, 1], &m).is_none());
    let mut other = cheap_metadata();
    other.nonce = vec![7; 12];
    assert!(open_seed(&sealed, &passphrase("p"), &header, &other).is_none());
    let mut other = cheap_metadata();
    other.kdf_salt = vec![7; 16];
    assert!(open_seed(&sealed, &passphrase("p"), &header, &other).is_none());
    let mut other = cheap_metadata();
    other.kdf_memory_cost = 16;
    assert!(open_seed(&sealed, &passphrase("p"), &header, &other).is_none());
    let mut other = cheap_metadata();
    other.kdf_time_cost = 2;
    assert!(open_seed(&sealed, &passphrase("p"), &header, &other).is_none());
    for i in [0usize, 31, 32, 47] {
        let mut bytes = sealed.expose().clone();
        bytes[i] ^= 1;
        assert!(open_seed(&SecretBytes::new(bytes), &passphrase("p"), &header, &m).is_none());
    }
    assert!(open_seed(&SecretBytes::new(vec![0; 15]), &passphrase("p"), &header, &m).is_none());
}

#[test]
fn a_tampered_record_never_becomes_a_master_key() {
    let good = MasterKey::import(cheap_sealed_record(&[7; 32], "p"), Some(passphrase("p"))).unwrap();
    assert_same_keypairs(&good, &key_of(7));

    let mut flipped = cheap_sealed_record(&[7; 32], "p");
    let mut bytes = flipped.master_seed.expose().clone();
    bytes[3] ^= 0x80;
    flipped.master_seed = SecretBytes::new(bytes);
    assert!(matches!(MasterKey::import(flipped, Some(passphrase("p"))), Err(FormatError::DecryptionFailed)));

    let mut other_algorithm = cheap_sealed_record(&[7; 32], "p");
    other_algorithm.pq_algorithm = PQAlgorithm::MlDsa87;
    assert!(matches!(MasterKey::import(other_algorithm, Some(passphrase("p"))), Err(FormatError::DecryptionFailed)));

    let mut other_nonce = cheap_sealed_record(&[7; 32], "p");
    other_nonce.encryption_metadata.as_mut().unwrap().nonce[0] ^= 1;
    assert!(matches!(MasterKey::import(other_nonce, Some(passphrase("p"))), Err(FormatError::DecryptionFailed)));
}

#[test]
fn is_encrypted_says_whether_metadata_is_present() {
    let plain = key_of(7).to_format();
    assert!(!MasterKey::is_encrypted(&plain));
    let mut with = key_of(7).to_format();
    with.encryption_metadata = Some(cheap_metadata());
    assert!(MasterKey::is_encrypted(&with));
    assert!(MasterKey::is_encrypted(&cheap_sealed_record(&[7; 32], "p")));
}

#[test]
fn an_encrypted_record_without_a_passphrase_is_a_mismatch() {
    let r = MasterKey::import(cheap_sealed_record(&[7; 32], "p"), None);
    assert!(matches!(r, Err(FormatError::PassphraseMismatch)));
}

#[test]
fn a_plaintext_record_with_a_passphrase_is_a_mismatch() {
    let r = MasterKey::import(key_of(7).to_format(), Some(passphrase("p")));
    assert!(matches!(r, Err(FormatError::PassphraseMismatch)));
}

#[test]
fn a_mismatch_is_reported_before_anything_else_is_looked_at() {
    let mut broken = key_of(7).to_format();
    broken.master_seed = SecretBytes::new(vec![]);
    assert_eq!(fault_of(MasterKey::import(broken, Some(passphrase("p")))), Fault::PassphraseMismatch);
    let mut broken = cheap_sealed_record(&[7; 32], "p");
    broken.encryption_metadata.as_mut().unwrap().kdf_time_cost = 0;
    assert_eq!(fault_of(MasterKey::import(broken, None)), Fault::PassphraseMismatch);
}

#[test]
fn a_record_that_is_not_well_formed_is_refused() {
    let mut short = key_of(7).to_format();
    short.master_seed = SecretBytes::new(vec![7; 31]);
    assert_eq!(fault_of(MasterKey::import(short, None)), Fault::Structure);
    let mut costly = cheap_sealed_record(&[7; 32], "p");
    costly.encryption_metadata.as_mut().unwrap().kdf_parallelism = 0;
    assert_eq!(fault_of(MasterKey::import(costly, Some(passphrase("p")))), Fault::Structure);
    let mut long = cheap_sealed_record(&[7; 32], "p");
    long.master_seed = SecretBytes::new(vec![7; 49]);
    assert_eq!(fault_of(MasterKey::import(long, Some(passphrase("p")))), Fault::Structure);
}

#[test]
fn malformed_exports_are_decode_errors() {
    let bytes = key_of(7).export(None).unwrap();
    let cut = SecretBytes::new(bytes.expose()[..bytes.len() - 1].to_vec());
    assert_eq!(fault_of(MasterKey::decode_bson(&cut)), Fault::Binary);
    assert_eq!(fault_of(MasterKey::decode_bson(&SecretBytes::new(vec![]))), Fault::Binary);
    let public = key_of(7).export_public().unwrap();
    assert_eq!(fault_of(MasterKey::decode_bson(&SecretBytes::new(public))), Fault::Structure);
}

#[test]
fn public_keys_are_the_public_halves_of_the_keypairs() {
    let key = key_of(7);
    let (ec, pq) = key.get_signing_keypair().unwrap();
    let (dh, kem) = key.get_encryption_keypair().unwrap();
    let signature = key.get_signing_public_key().unwrap();
    let exchange = key.get_encryption_public_key().unwrap();
    assert_eq!(signature.ec_algorithm, ECAlgorithm::Ed25519);
    assert_eq!(signature.pq_algorithm, PQAlgorithm::MlDsa65);
    assert_eq!(&signature.ec_public_key, ec.public_key());
    assert_eq!(&signature.pq_public_key, pq.public_key());
    assert_eq!(exchange.dh_algorithm, DHAlgorithm::X25519);
    assert_eq!(exchange.kem_algorithm, KEMAlgorithm::MlKem768);
    assert_eq!(&exchange.dh_public_key, dh.public_key());
    assert_eq!(&exchange.kem_public_key, kem.public_key());
    assert!(signature.is_well_formed() && exchange.is_well_formed());
}

#[test]
fn public_export_decodes_to_both_bundles() {
    let key = key_of(7);
    let bytes = key.export_public().unwrap();
    let full = FullChainPublicKeyFormat::decode_bson(&bytes).unwrap();
    let signature = key.get_signing_public_key().unwrap();
    let exchange = key.get_encryption_public_key().unwrap();
    assert_eq!(full.signature_public_key.ec_public_key, signature.ec_public_key);
    assert_eq!(full.signature_public_key.pq_public_key, signature.pq_public_key);
    assert_eq!(full.encryption_public_key.dh_public_key, exchange.dh_public_key);
    assert_eq!(full.encryption_public_key.kem_public_key, exchange.kem_public_key);
    assert_eq!(key.export_public().unwrap(), bytes);
}

#[test]
fn public_export_holds_nothing_secret() {
    let key = MasterKey::generate(kem(), sign()).unwrap();
    let bytes = key.export_public().unwrap();
    let seed = key.to_format().master_seed;
    assert!(!contains(&bytes, seed.expose()));
    for width in [8usize, 16] {
        for window in seed.expose().windows(width) {
            assert!(!contains(&bytes, window));
        }
    }
    let (ec, pq) = key.get_signing_keypair().unwrap();
    let (dh, kem) = key.get_encryption_keypair().unwrap();
    assert!(!contains(&bytes, &ec.secret_key().expose()[..32]));
    assert!(!contains(&bytes, dh.secret_key().expose()));
    assert!(!contains(&bytes, &pq.secret_key().expose()[32..96]));
    assert!(!contains(&bytes, &kem.secret_key().expose()[..64]));
    assert!(contains(&bytes, ec.public_key()));
    assert!(contains(&bytes, dh.public_key()));
}

#[test]
fn a_master_key_travels_in_armor_too() {
    let key = key_of(9);
    let text = key.to_format().encode_pem();
    assert!(text.expose().starts_with("-----BEGIN CRYPTOPIA MASTER KEY-----"));
    let back = MasterKey::import(SecretKeyFormat::decode_pem(text).unwrap(), None).unwrap();
    assert_same_keypairs(&key, &back);
    let text = cheap_sealed_record(&[9; 32], "p").encode_pem();
    assert!(text.expose().starts_with("-----BEGIN CRYPTOPIA ENCRYPTED MASTER KEY-----"));
    let back = MasterKey::import(SecretKeyFormat::decode_pem(text).unwrap(), Some(passphrase("p"))).unwrap();
    assert_same_keypairs(&key, &back);
}
