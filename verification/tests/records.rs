use bson::spec::BinarySubtype;
use bson::{Binary, Bson, Document};
use cryptopia_lib::algorithm::{
    CipherAlgorithm, DHAlgorithm, ECAlgorithm, KEMAlgorithm, KdfAlgorithm, PQAlgorithm,
};
use cryptopia_lib::format::keys::{
    unarmor, EncryptionMetadata, EncryptionPublicKeyFormat, FullChainPublicKeyFormat,
    SecretKeyFormat, SignaturePublicKeyFormat,
};
use cryptopia_lib::format::{EncodablePublic, EncodableSecret, Fault, FormatError};
use cryptopia_lib::secret::{SecretBytes, SecretText};

fn bytes(value: Vec<u8>) -> Bson {
    Bson::Binary(Binary { subtype: BinarySubtype::Generic, bytes: value })
}

fn signature() -> SignaturePublicKeyFormat {
    SignaturePublicKeyFormat {
        ec_algorithm: ECAlgorithm::Ed25519,
        ec_public_key: (0..32).collect(),
        pq_algorithm: PQAlgorithm::MlDsa65,
        pq_public_key: (0..1952).map(|i| (i % 251) as u8).collect(),
    }
}

fn exchange() -> EncryptionPublicKeyFormat {
    EncryptionPublicKeyFormat {
        dh_algorithm: DHAlgorithm::X25519,
        dh_public_key: (100..132).collect(),
        kem_algorithm: KEMAlgorithm::MlKem1024,
        kem_public_key: (0..1568).map(|i| (i % 241) as u8).collect(),
    }
}

fn metadata() -> EncryptionMetadata {
    EncryptionMetadata {
        kdf_algorithm: KdfAlgorithm::Argon2id,
        kdf_salt: vec![9; 16],
        kdf_memory_cost: 64,
        kdf_time_cost: 3,
        kdf_parallelism: 2,
        cipher_algorithm: CipherAlgorithm::ChaCha20Poly1305,
        nonce: vec![4; 12],
    }
}

fn plain_record() -> SecretKeyFormat {
    SecretKeyFormat {
        ec_algorithm: ECAlgorithm::Ed25519,
        pq_algorithm: PQAlgorithm::MlDsa87,
        dh_algorithm: DHAlgorithm::X25519,
        kem_algorithm: KEMAlgorithm::MlKem768,
        master_seed: SecretBytes::new((1..33).collect()),
        encryption_metadata: None,
    }
}

fn sealed_record() -> SecretKeyFormat {
    SecretKeyFormat {
        master_seed: SecretBytes::new((1..49).collect()),
        encryption_metadata: Some(metadata()),
        ..plain_record()
    }
}

fn plain_document() -> Document {
    let mut d = Document::new();
    d.insert("ec_algorithm", Bson::Int64(1));
    d.insert("pq_algorithm", Bson::Int64(2));
    d.insert("dh_algorithm", Bson::Int64(1));
    d.insert("kem_algorithm", Bson::Int64(1));
    d.insert("master_seed", bytes((1..33).collect()));
    d
}

fn metadata_document() -> Document {
    let mut m = Document::new();
    m.insert("kdf_algorithm", Bson::Int64(1));
    m.insert("kdf_salt", bytes(vec![9; 16]));
    m.insert("kdf_memory_cost", Bson::Int64(64));
    m.insert("kdf_time_cost", Bson::Int64(3));
    m.insert("kdf_parallelism", Bson::Int64(2));
    m.insert("cipher_algorithm", Bson::Int64(1));
    m.insert("nonce", bytes(vec![4; 12]));
    m
}

fn same_signature(a: &SignaturePublicKeyFormat, b: &SignaturePublicKeyFormat) -> bool {
    a.ec_algorithm == b.ec_algorithm && a.ec_public_key == b.ec_public_key
        && a.pq_algorithm == b.pq_algorithm && a.pq_public_key == b.pq_public_key
}

fn same_exchange(a: &EncryptionPublicKeyFormat, b: &EncryptionPublicKeyFormat) -> bool {
    a.dh_algorithm == b.dh_algorithm && a.dh_public_key == b.dh_public_key
        && a.kem_algorithm == b.kem_algorithm && a.kem_public_key == b.kem_public_key
}

fn same_metadata(a: &Option<EncryptionMetadata>, b: &Option<EncryptionMetadata>) -> bool {
    match (a, b) {
        (None, None) => true,
        (Some(a), Some(b)) => {
            a.kdf_algorithm == b.kdf_algorithm && a.kdf_salt == b.kdf_salt
                && a.kdf_memory_cost == b.kdf_memory_cost && a.kdf_time_cost == b.kdf_time_cost
                && a.kdf_parallelism == b.kdf_parallelism
                && a.cipher_algorithm == b.cipher_algorithm && a.nonce == b.nonce
        }
        _ => false,
    }
}

fn same_record(a: &SecretKeyFormat, b: &SecretKeyFormat) -> bool {
    a.ec_algorithm == b.ec_algorithm && a.pq_algorithm == b.pq_algorithm
        && a.dh_algorithm == b.dh_algorithm && a.kem_algorithm == b.kem_algorithm
        && a.master_seed.expose() == b.master_seed.expose()
        && same_metadata(&a.encryption_metadata, &b.encryption_metadata)
}

fn fault_of<T>(r: Result<T, FormatError>) -> Fault {
    match r {
        Ok(_) => panic!("decoding should have failed"),
        Err(e) => e.kind(),
    }
}

#[test]
fn signature_bundle_round_trips_in_binary_and_text() {
    let x = signature();
    assert!(x.is_well_formed());
    let back = SignaturePublicKeyFormat::decode_bson(&x.encode_bson()).unwrap();
    assert!(same_signature(&x, &back));
    let back = SignaturePublicKeyFormat::decode_pem(&x.encode_pem()).unwrap();
    assert!(same_signature(&x, &back));
}

#[test]
fn exchange_bundle_round_trips_in_binary_and_text() {
    let x = exchange();
    assert!(x.is_well_formed());
    let back = EncryptionPublicKeyFormat::decode_bson(&x.encode_bson()).unwrap();
    assert!(same_exchange(&x, &back));
    let back = EncryptionPublicKeyFormat::decode_pem(&x.encode_pem()).unwrap();
    assert!(same_exchange(&x, &back));
}

#[test]
fn full_bundle_round_trips_in_binary_and_text() {
    let x = FullChainPublicKeyFormat {
        signature_public_key: signature(),
        encryption_public_key: exchange(),
    };
    assert!(x.is_well_formed());
    let back = FullChainPublicKeyFormat::decode_bson(&x.encode_bson()).unwrap();
    assert!(same_signature(&x.signature_public_key, &back.signature_public_key));
    assert!(same_exchange(&x.encryption_public_key, &back.encryption_public_key));
    let back = FullChainPublicKeyFormat::decode_pem(&x.encode_pem()).unwrap();
    assert!(same_signature(&x.signature_public_key, &back.signature_public_key));
    assert!(same_exchange(&x.encryption_public_key, &back.encryption_public_key));
}

#[test]
fn secret_records_round_trip_in_binary_and_text() {
    for x in [plain_record(), sealed_record()] {
        assert!(x.is_well_formed());
        let back = SecretKeyFormat::decode_bson(&x.encode_bson()).unwrap();
        assert!(same_record(&x, &back));
        let back = SecretKeyFormat::decode_pem(x.encode_pem()).unwrap();
        assert!(same_record(&x, &back));
    }
}

#[test]
fn binary_form_is_the_document_with_the_documented_fields() {
    assert_eq!(plain_record().to_document(), plain_document());
    assert_eq!(
        plain_record().encode_bson().expose(),
        &bson::to_vec(&plain_document()).unwrap()
    );
    let mut sealed = plain_document();
    sealed.insert("master_seed", bytes((1..49).collect()));
    sealed.insert("encryption_metadata", metadata_document());
    assert_eq!(sealed_record().to_document(), sealed);
    assert_eq!(sealed_record().encode_bson().expose(), &bson::to_vec(&sealed).unwrap());

    let mut s = Document::new();
    s.insert("ec_algorithm", Bson::Int64(1));
    s.insert("ec_public_key", bytes(signature().ec_public_key));
    s.insert("pq_algorithm", Bson::Int64(1));
    s.insert("pq_public_key", bytes(signature().pq_public_key));
    assert_eq!(signature().to_document(), s);
    let mut e = Document::new();
    e.insert("dh_algorithm", Bson::Int64(1));
    e.insert("dh_public_key", bytes(exchange().dh_public_key));
    e.insert("kem_algorithm", Bson::Int64(2));
    e.insert("kem_public_key", bytes(exchange().kem_public_key));
    assert_eq!(exchange().to_document(), e);
    let mut full = Document::new();
    full.insert("signature_public_key", s);
    full.insert("encryption_public_key", e);
    let x = FullChainPublicKeyFormat {
        signature_public_key: signature(),
        encryption_public_key: exchange(),
    };
    assert_eq!(x.encode_bson(), bson::to_vec(&full).unwrap());
}

#[test]
fn armored_text_is_the_binary_form_under_the_records_label() {
    let x = signature();
    let expected = pem::encode(&pem::Pem::new("CRYPTOPIA SIGNATURE PUBLIC KEY", x.encode_bson()));
    assert_eq!(x.encode_pem(), expected);
    assert!(expected.starts_with("-----BEGIN CRYPTOPIA SIGNATURE PUBLIC KEY-----"));
    assert!(exchange().encode_pem().starts_with("-----BEGIN CRYPTOPIA ENCRYPTION PUBLIC KEY-----"));
    let full = FullChainPublicKeyFormat {
        signature_public_key: signature(),
        encryption_public_key: exchange(),
    };
    assert!(full.encode_pem().starts_with("-----BEGIN CRYPTOPIA PUBLIC KEY-----"));
    let plain = plain_record().encode_pem();
    assert!(plain.expose().starts_with("-----BEGIN CRYPTOPIA MASTER KEY-----"));
    let sealed = sealed_record().encode_pem();
    assert!(sealed.expose().starts_with("-----BEGIN CRYPTOPIA ENCRYPTED MASTER KEY-----"));
    assert_ne!(plain.expose().as_bytes(), plain_record().encode_bson().expose().as_slice());
}

#[test]
fn truncated_bytes_are_a_binary_fault() {
    let whole = signature().encode_bson();
    for cut in [0usize, 1, 4, 5, whole.len() / 2, whole.len() - 1] {
        assert_eq!(fault_of(SignaturePublicKeyFormat::decode_bson(&whole[..cut])), Fault::Binary);
    }
    let whole = plain_record().encode_bson();
    let cut = SecretBytes::new(whole.expose()[..whole.len() - 3].to_vec());
    assert_eq!(fault_of(SecretKeyFormat::decode_bson(&cut)), Fault::Binary);
}

#[test]
fn bytes_after_the_document_are_a_binary_fault() {
    let mut whole = signature().encode_bson();
    whole.push(0);
    assert_eq!(fault_of(SignaturePublicKeyFormat::decode_bson(&whole)), Fault::Binary);
}

#[test]
fn a_document_of_another_record_is_a_structure_fault() {
    let other = exchange().encode_bson();
    assert_eq!(fault_of(SignaturePublicKeyFormat::decode_bson(&other)), Fault::Structure);
    assert_eq!(fault_of(FullChainPublicKeyFormat::decode_bson(&other)), Fault::Structure);
    assert_eq!(
        fault_of(SecretKeyFormat::decode_bson(&SecretBytes::new(other))),
        Fault::Structure
    );
    let empty = bson::to_vec(&Document::new()).unwrap();
    assert_eq!(fault_of(SignaturePublicKeyFormat::decode_bson(&empty)), Fault::Structure);
}

#[test]
fn unknown_missing_and_mistyped_fields_are_refused() {
    assert!(SecretKeyFormat::from_document(&plain_document()).is_some());

    let mut unknown = plain_document();
    unknown.insert("comment", Bson::Int64(0));
    assert!(SecretKeyFormat::from_document(&unknown).is_none());

    for key in ["ec_algorithm", "pq_algorithm", "dh_algorithm", "kem_algorithm", "master_seed"] {
        let mut missing = plain_document();
        missing.remove(key);
        assert!(SecretKeyFormat::from_document(&missing).is_none());
        let mut replaced = plain_document();
        replaced.remove(key);
        replaced.insert("other", Bson::Int64(1));
        assert!(SecretKeyFormat::from_document(&replaced).is_none());
        let mut mistyped = plain_document();
        mistyped.insert(key, Bson::String("1".to_string()));
        assert!(SecretKeyFormat::from_document(&mistyped).is_none());
    }

    let mut narrow = plain_document();
    narrow.insert("ec_algorithm", Bson::Int32(1));
    assert!(SecretKeyFormat::from_document(&narrow).is_none());

    let mut other_binary = plain_document();
    other_binary.insert(
        "master_seed",
        Bson::Binary(Binary { subtype: BinarySubtype::Uuid, bytes: (1..33).collect() }),
    );
    assert!(SecretKeyFormat::from_document(&other_binary).is_none());
}

#[test]
fn unknown_codes_and_wrong_lengths_are_refused() {
    for (key, code) in [("ec_algorithm", 2i64), ("pq_algorithm", 3), ("dh_algorithm", 0), ("kem_algorithm", -1)] {
        let mut d = plain_document();
        d.insert(key, Bson::Int64(code));
        assert!(SecretKeyFormat::from_document(&d).is_none());
    }
    for length in [0usize, 31, 33, 48] {
        let mut d = plain_document();
        d.insert("master_seed", bytes(vec![1; length]));
        assert!(SecretKeyFormat::from_document(&d).is_none());
    }
    let mut short_key = signature().to_document();
    short_key.insert("pq_public_key", bytes(vec![0; 1951]));
    assert!(SignaturePublicKeyFormat::from_document(&short_key).is_none());
    let mut other_length = signature().to_document();
    other_length.insert("pq_public_key", bytes(vec![0; 2592]));
    assert!(SignaturePublicKeyFormat::from_document(&other_length).is_none());
    other_length.insert("pq_algorithm", Bson::Int64(2));
    assert!(SignaturePublicKeyFormat::from_document(&other_length).is_some());
}

#[test]
fn the_encryption_block_is_all_or_nothing() {
    let mut sealed = plain_document();
    sealed.insert("master_seed", bytes(vec![1; 48]));
    sealed.insert("encryption_metadata", metadata_document());
    let x = SecretKeyFormat::from_document(&sealed).unwrap();
    assert!(same_metadata(&x.encryption_metadata, &Some(metadata())));

    let mut clear_seed = sealed.clone();
    clear_seed.insert("master_seed", bytes(vec![1; 32]));
    assert!(SecretKeyFormat::from_document(&clear_seed).is_none());

    let mut not_a_block = sealed.clone();
    not_a_block.insert("encryption_metadata", Bson::Int64(1));
    assert!(SecretKeyFormat::from_document(&not_a_block).is_none());

    let mut sixth = plain_document();
    sixth.insert("something_else", metadata_document());
    assert!(SecretKeyFormat::from_document(&sixth).is_none());

    for key in ["kdf_algorithm", "kdf_salt", "kdf_memory_cost", "kdf_time_cost", "kdf_parallelism", "cipher_algorithm", "nonce"] {
        let mut m = metadata_document();
        m.remove(key);
        assert!(EncryptionMetadata::from_document(&m).is_none());
        let mut d = sealed.clone();
        d.insert("encryption_metadata", m);
        assert!(SecretKeyFormat::from_document(&d).is_none());
    }
    let mut extra = metadata_document();
    extra.insert("hint", Bson::Int64(0));
    assert!(EncryptionMetadata::from_document(&extra).is_none());
}

#[test]
fn costs_outside_the_limits_are_refused() {
    assert!(EncryptionMetadata::from_document(&metadata_document()).is_some());
    let cases = [
        ("kdf_parallelism", 0i64),
        ("kdf_parallelism", 65),
        ("kdf_parallelism", 9),
        ("kdf_time_cost", 0),
        ("kdf_time_cost", 1025),
        ("kdf_memory_cost", 15),
        ("kdf_memory_cost", 1048577),
        ("kdf_memory_cost", -64),
        ("kdf_memory_cost", 4294967360),
        ("kdf_algorithm", 2),
        ("cipher_algorithm", 0),
    ];
    for (key, value) in cases {
        let mut m = metadata_document();
        m.insert(key, Bson::Int64(value));
        assert!(EncryptionMetadata::from_document(&m).is_none());
    }
    for (key, length) in [("kdf_salt", 15usize), ("kdf_salt", 17), ("nonce", 11), ("nonce", 13)] {
        let mut m = metadata_document();
        m.insert(key, bytes(vec![0; length]));
        assert!(EncryptionMetadata::from_document(&m).is_none());
    }
    let mut edge = metadata_document();
    edge.insert("kdf_parallelism", Bson::Int64(8));
    assert!(EncryptionMetadata::from_document(&edge).is_some());
    edge.insert("kdf_memory_cost", Bson::Int64(1048576));
    edge.insert("kdf_time_cost", Bson::Int64(1024));
    edge.insert("kdf_parallelism", Bson::Int64(64));
    let m = EncryptionMetadata::from_document(&edge).unwrap();
    assert_eq!((m.kdf_memory_cost, m.kdf_time_cost, m.kdf_parallelism), (1048576, 1024, 64));
    assert!(m.is_well_formed());
}

#[test]
fn well_formedness_is_about_lengths_and_costs() {
    let mut x = signature();
    x.ec_public_key.push(0);
    assert!(!x.is_well_formed());
    let mut y = exchange();
    y.kem_algorithm = KEMAlgorithm::MlKem768;
    assert!(!y.is_well_formed());
    let mut plain = plain_record();
    plain.master_seed = SecretBytes::new(vec![0; 48]);
    assert!(!plain.is_well_formed());
    let mut sealed = sealed_record();
    sealed.master_seed = SecretBytes::new(vec![0; 32]);
    assert!(!sealed.is_well_formed());
    let mut m = metadata();
    m.kdf_memory_cost = 8;
    assert!(!m.is_well_formed());
    m.kdf_parallelism = 1;
    assert!(m.is_well_formed());
}

#[test]
fn text_that_is_no_armor_is_an_armor_fault() {
    for text in ["", "not armor at all", "-----BEGIN CRYPTOPIA PUBLIC KEY-----\nAAAA\n"] {
        assert_eq!(fault_of(FullChainPublicKeyFormat::decode_pem(text)), Fault::Armor);
        assert_eq!(
            fault_of(SecretKeyFormat::decode_pem(SecretText::new(text.to_string()))),
            Fault::Armor
        );
    }
    let mismatched = "-----BEGIN CRYPTOPIA PUBLIC KEY-----\nAAAA\n-----END CRYPTOPIA MASTER KEY-----\n";
    assert_eq!(fault_of(FullChainPublicKeyFormat::decode_pem(mismatched)), Fault::Armor);
    let not_base64 = "-----BEGIN CRYPTOPIA PUBLIC KEY-----\n!!!!\n-----END CRYPTOPIA PUBLIC KEY-----\n";
    assert_eq!(fault_of(FullChainPublicKeyFormat::decode_pem(not_base64)), Fault::Armor);
}

#[test]
fn a_wrong_label_is_a_structure_fault() {
    let text = signature().encode_pem();
    assert_eq!(fault_of(EncryptionPublicKeyFormat::decode_pem(&text)), Fault::Structure);
    assert_eq!(fault_of(FullChainPublicKeyFormat::decode_pem(&text)), Fault::Structure);
    assert_eq!(fault_of(SecretKeyFormat::decode_pem(SecretText::new(text))), Fault::Structure);
    let relabelled = pem::encode(&pem::Pem::new("PUBLIC KEY", signature().encode_bson()));
    assert_eq!(fault_of(SignaturePublicKeyFormat::decode_pem(&relabelled)), Fault::Structure);
}

#[test]
fn the_label_of_a_master_key_must_say_whether_it_is_encrypted() {
    let plain = plain_record().encode_bson();
    let sealed = sealed_record().encode_bson();
    let lying_plain = pem::encode(&pem::Pem::new("CRYPTOPIA MASTER KEY", sealed.expose().clone()));
    let lying_sealed =
        pem::encode(&pem::Pem::new("CRYPTOPIA ENCRYPTED MASTER KEY", plain.expose().clone()));
    assert_eq!(fault_of(SecretKeyFormat::decode_pem(SecretText::new(lying_plain))), Fault::Structure);
    assert_eq!(fault_of(SecretKeyFormat::decode_pem(SecretText::new(lying_sealed))), Fault::Structure);
}

#[test]
fn armor_around_broken_bytes_reports_the_inner_fault() {
    let whole = signature().encode_bson();
    let cut = pem::encode(&pem::Pem::new("CRYPTOPIA SIGNATURE PUBLIC KEY", &whole[..whole.len() - 1]));
    assert_eq!(fault_of(SignaturePublicKeyFormat::decode_pem(&cut)), Fault::Binary);
    let other = pem::encode(&pem::Pem::new("CRYPTOPIA SIGNATURE PUBLIC KEY", exchange().encode_bson()));
    assert_eq!(fault_of(SignaturePublicKeyFormat::decode_pem(&other)), Fault::Structure);
}

#[test]
fn unarmor_gives_the_contents_under_the_wanted_label() {
    let text = pem::encode(&pem::Pem::new("SOME LABEL", vec![1u8, 2, 3]));
    assert_eq!(unarmor(&text, "SOME LABEL").unwrap(), vec![1u8, 2, 3]);
    assert_eq!(fault_of(unarmor(&text, "OTHER LABEL")), Fault::Structure);
    assert_eq!(fault_of(unarmor("junk", "SOME LABEL")), Fault::Armor);
}
