use cryptopia_lib::algorithm::{
    AlgorithmId, CipherAlgorithm, DHAlgorithm, ECAlgorithm, KEMAlgorithm, KdfAlgorithm, PQAlgorithm,
};

#[test]
fn codes_are_the_documented_ones() {
    assert_eq!(ECAlgorithm::Ed25519.code(), 1);
    assert_eq!(PQAlgorithm::MlDsa65.code(), 1);
    assert_eq!(PQAlgorithm::MlDsa87.code(), 2);
    assert_eq!(DHAlgorithm::X25519.code(), 1);
    assert_eq!(KEMAlgorithm::MlKem768.code(), 1);
    assert_eq!(KEMAlgorithm::MlKem1024.code(), 2);
    assert_eq!(KdfAlgorithm::Argon2id.code(), 1);
    assert_eq!(CipherAlgorithm::ChaCha20Poly1305.code(), 1);
}

#[test]
fn every_code_names_its_algorithm_again() {
    assert_eq!(ECAlgorithm::from_code(ECAlgorithm::Ed25519.code()), Some(ECAlgorithm::Ed25519));
    for a in [PQAlgorithm::MlDsa65, PQAlgorithm::MlDsa87] {
        assert_eq!(PQAlgorithm::from_code(a.code()), Some(a));
    }
    assert_eq!(DHAlgorithm::from_code(DHAlgorithm::X25519.code()), Some(DHAlgorithm::X25519));
    for a in [KEMAlgorithm::MlKem768, KEMAlgorithm::MlKem1024] {
        assert_eq!(KEMAlgorithm::from_code(a.code()), Some(a));
    }
    assert_eq!(KdfAlgorithm::from_code(1), Some(KdfAlgorithm::Argon2id));
    assert_eq!(CipherAlgorithm::from_code(1), Some(CipherAlgorithm::ChaCha20Poly1305));
}

#[test]
fn codes_outside_the_sets_name_nothing() {
    for code in [0i64, -1, 3, 255, i64::MAX, i64::MIN] {
        assert_eq!(PQAlgorithm::from_code(code), None);
        assert_eq!(KEMAlgorithm::from_code(code), None);
    }
    for code in [0i64, -1, 2, 3, 255, i64::MAX, i64::MIN] {
        assert_eq!(ECAlgorithm::from_code(code), None);
        assert_eq!(DHAlgorithm::from_code(code), None);
        assert_eq!(KdfAlgorithm::from_code(code), None);
        assert_eq!(CipherAlgorithm::from_code(code), None);
    }
}

#[test]
fn public_key_lengths_are_the_algorithms_own() {
    assert_eq!(ECAlgorithm::Ed25519.public_key_length(), 32);
    assert_eq!(PQAlgorithm::MlDsa65.public_key_length(), 1952);
    assert_eq!(PQAlgorithm::MlDsa87.public_key_length(), 2592);
    assert_eq!(DHAlgorithm::X25519.public_key_length(), 32);
    assert_eq!(KEMAlgorithm::MlKem768.public_key_length(), 1184);
    assert_eq!(KEMAlgorithm::MlKem1024.public_key_length(), 1568);
}

#[test]
fn kind_index_and_material_length() {
    let ids = [
        (AlgorithmId::EC(ECAlgorithm::Ed25519), 1u8, 1u8, 32usize),
        (AlgorithmId::PQ(PQAlgorithm::MlDsa65), 2, 1, 32),
        (AlgorithmId::PQ(PQAlgorithm::MlDsa87), 2, 2, 32),
        (AlgorithmId::DH(DHAlgorithm::X25519), 3, 1, 32),
        (AlgorithmId::KEM(KEMAlgorithm::MlKem768), 4, 1, 64),
        (AlgorithmId::KEM(KEMAlgorithm::MlKem1024), 4, 2, 64),
    ];
    for (id, kind, index, length) in ids {
        assert_eq!(id.kind(), kind);
        assert_eq!(id.index(), index);
        assert_eq!(id.material_length(), length);
    }
}
