//! Passphrase protection of a seed at rest.
//!
//! Argon2id turns the passphrase and a salt into a 32-byte key, at the costs
//! that the record's metadata names. ChaCha20-Poly1305 encrypts the seed
//! under that key and a nonce, and authenticates with it the record's
//! algorithm codes. Opening re-derives the key and decrypts; a wrong
//! passphrase or a changed record fails the authentication and gives
//! nothing. Both primitives are outside crates.

use crate::algorithm::{
    CipherAlgorithm, DHAlgorithm, ECAlgorithm, KEMAlgorithm, KdfAlgorithm, PQAlgorithm,
};
use crate::format::keys::{
    costs_in_range, EncryptionMetadata, EncryptionMetadataView, NONCE_LENGTH, SALT_LENGTH,
};
use crate::secret::{seal_bytes, SecretBytes};
use chacha20poly1305::aead::{Aead, KeyInit, Payload};
use chacha20poly1305::{ChaCha20Poly1305, Nonce};
use vstd::prelude::*;

verus! {

/// Memory cost, in KiB, of the key derivation of a fresh export.
pub const EXPORT_MEMORY_COST: u32 = 19456;

/// Number of passes of the key derivation of a fresh export.
pub const EXPORT_TIME_COST: u32 = 2;

/// Number of lanes of the key derivation of a fresh export.
pub const EXPORT_PARALLELISM: u32 = 1;

/// The 32-byte key that Argon2id, version 0x13, derives from a passphrase
/// and a salt at the given costs; `None` where it refuses them.
pub uninterp spec fn argon2id_key(
    passphrase: Seq<u8>,
    salt: Seq<u8>,
    memory: u32,
    time: u32,
    parallelism: u32,
) -> Option<Seq<u8>>;

/// What ChaCha20-Poly1305 encrypts a plaintext to, tag included, under a
/// key and a nonce and with associated data; `None` where it refuses.
pub uninterp spec fn chacha20poly1305_sealed(
    key: Seq<u8>,
    nonce: Seq<u8>,
    associated: Seq<u8>,
    plaintext: Seq<u8>,
) -> Option<Seq<u8>>;

/// What ChaCha20-Poly1305 decrypts a ciphertext with its tag to, under a
/// key and a nonce and with associated data; `None` where the
/// authentication fails.
pub uninterp spec fn chacha20poly1305_opened(
    key: Seq<u8>,
    nonce: Seq<u8>,
    associated: Seq<u8>,
    sealed: Seq<u8>,
) -> Option<Seq<u8>>;

/// `argon2::Argon2::hash_password_into` with `Algorithm::Argon2id`,
/// `Version::V0x13` and `Params::new(memory, time, parallelism, Some(32))`:
/// a key of 32 bytes that depends on the arguments alone, or nothing where
/// the crate reports an error.
#[verifier::external_body]
pub(crate) fn argon2id(
    passphrase: &[u8],
    salt: &[u8],
    memory: u32,
    time: u32,
    parallelism: u32,
) -> (r: Option<SecretBytes>)
    requires
        costs_in_range(memory as int, time as int, parallelism as int),
    ensures
        match r {
            Some(key) => {
                &&& argon2id_key(passphrase@, salt@, memory, time, parallelism) == Some(key@)
                &&& key@.len() == 32
            },
            None => argon2id_key(passphrase@, salt@, memory, time, parallelism) is None,
        },
{
    let params = argon2::Params::new(memory, time, parallelism, Some(32)).ok()?;
    let hasher = argon2::Argon2::new(argon2::Algorithm::Argon2id, argon2::Version::V0x13, params);
    let mut key = vec![0u8; 32];
    match hasher.hash_password_into(passphrase, salt, &mut key) {
        Ok(()) => Some(seal_bytes(key)),
        Err(_) => None,
    }
}

/// `chacha20poly1305::ChaCha20Poly1305::encrypt` with a payload of message
/// and associated data: the ciphertext followed by its 16-byte tag, which
/// depends on the arguments alone and which `decrypt` turns back into the
/// plaintext under the same key, nonce and associated data; nothing where
/// the crate reports an error.
#[verifier::external_body]
pub(crate) fn aead_seal(key: &[u8], nonce: &[u8], associated: &[u8], plaintext: &[u8]) -> (r:
    Option<Vec<u8>>)
    requires
        key@.len() == 32,
        nonce@.len() == 12,
    ensures
        match r {
            Some(sealed) => {
                &&& chacha20poly1305_sealed(key@, nonce@, associated@, plaintext@) == Some(
                    sealed@,
                )
                &&& sealed@.len() == plaintext@.len() + 16
                &&& chacha20poly1305_opened(key@, nonce@, associated@, sealed@) == Some(
                    plaintext@,
                )
            },
            None => chacha20poly1305_sealed(key@, nonce@, associated@, plaintext@) is None,
        },
{
    let cipher = ChaCha20Poly1305::new_from_slice(key).ok()?;
    cipher.encrypt(Nonce::from_slice(nonce), Payload { msg: plaintext, aad: associated }).ok()
}

/// `chacha20poly1305::ChaCha20Poly1305::decrypt` with a payload of message
/// and associated data: the plaintext, 16 bytes shorter than what was
/// handed in, or nothing where the authentication fails.
#[verifier::external_body]
pub(crate) fn aead_open(key: &[u8], nonce: &[u8], associated: &[u8], sealed: &[u8]) -> (r: Option<
    SecretBytes,
>)
    requires
        key@.len() == 32,
        nonce@.len() == 12,
    ensures
        match r {
            Some(plain) => {
                &&& chacha20poly1305_opened(key@, nonce@, associated@, sealed@) == Some(plain@)
                &&& plain@.len() + 16 == sealed@.len()
            },
            None => chacha20poly1305_opened(key@, nonce@, associated@, sealed@) is None,
        },
{
    let cipher = ChaCha20Poly1305::new_from_slice(key).ok()?;
    match cipher.decrypt(Nonce::from_slice(nonce), Payload { msg: sealed, aad: associated }) {
        Ok(plain) => Some(seal_bytes(plain)),
        Err(_) => None,
    }
}

/// The four algorithm codes of a record, one byte each: what is
/// authenticated together with the seed.
pub open spec fn header_bytes(
    ec: ECAlgorithm,
    pq: PQAlgorithm,
    dh: DHAlgorithm,
    kem: KEMAlgorithm,
) -> Seq<u8> {
    Seq::<u8>::empty().push(ec.spec_code() as u8).push(pq.spec_code() as u8).push(
        dh.spec_code() as u8,
    ).push(kem.spec_code() as u8)
}

/// The header of a record with these algorithms.
pub fn header_for(ec: ECAlgorithm, pq: PQAlgorithm, dh: DHAlgorithm, kem: KEMAlgorithm) -> (header:
    Vec<u8>)
    ensures
        header@ == header_bytes(ec, pq, dh, kem),
{
    let mut header: Vec<u8> = Vec::new();
    header.push(ec.code() as u8);
    header.push(pq.code() as u8);
    header.push(dh.code() as u8);
    header.push(kem.code() as u8);
    header
}

/// The metadata of a fresh export: Argon2id at the export costs with this
/// salt, ChaCha20-Poly1305 with this nonce.
pub open spec fn export_metadata(salt: Seq<u8>, nonce: Seq<u8>) -> EncryptionMetadataView {
    EncryptionMetadataView {
        kdf_algorithm: KdfAlgorithm::Argon2id,
        kdf_salt: salt,
        kdf_memory_cost: EXPORT_MEMORY_COST,
        kdf_time_cost: EXPORT_TIME_COST,
        kdf_parallelism: EXPORT_PARALLELISM,
        cipher_algorithm: CipherAlgorithm::ChaCha20Poly1305,
        nonce,
    }
}

/// The metadata of a fresh export with a salt and a nonce that were drawn
/// for it.
pub fn fresh_metadata(salt: Vec<u8>, nonce: Vec<u8>) -> (m: EncryptionMetadata)
    ensures
        m@ == export_metadata(salt@, nonce@),
        m@.well_formed() <==> salt@.len() == SALT_LENGTH && nonce@.len() == NONCE_LENGTH,
{
    EncryptionMetadata {
        kdf_algorithm: KdfAlgorithm::Argon2id,
        kdf_salt: salt,
        kdf_memory_cost: EXPORT_MEMORY_COST,
        kdf_time_cost: EXPORT_TIME_COST,
        kdf_parallelism: EXPORT_PARALLELISM,
        cipher_algorithm: CipherAlgorithm::ChaCha20Poly1305,
        nonce,
    }
}

/// The key that a passphrase gives under a record's metadata.
pub open spec fn passphrase_key(passphrase: Seq<u8>, m: EncryptionMetadataView) -> Option<Seq<u8>> {
    argon2id_key(passphrase, m.kdf_salt, m.kdf_memory_cost, m.kdf_time_cost, m.kdf_parallelism)
}

/// The ciphertext of a seed under a passphrase, a header and metadata;
/// `None` where the key derivation or the cipher refuses.
pub open spec fn sealed_seed(
    seed: Seq<u8>,
    passphrase: Seq<u8>,
    header: Seq<u8>,
    m: EncryptionMetadataView,
) -> Option<Seq<u8>> {
    match passphrase_key(passphrase, m) {
        Some(key) => chacha20poly1305_sealed(key, m.nonce, header, seed),
        None => None,
    }
}

/// The plaintext of a sealed seed under a passphrase, a header and
/// metadata; `None` where the key derivation refuses or the authentication
/// fails.
pub open spec fn opened_seed(
    sealed: Seq<u8>,
    passphrase: Seq<u8>,
    header: Seq<u8>,
    m: EncryptionMetadataView,
) -> Option<Seq<u8>> {
    match passphrase_key(passphrase, m) {
        Some(key) => chacha20poly1305_opened(key, m.nonce, header, sealed),
        None => None,
    }
}

/// Encrypts a seed under a passphrase. What comes out is 16 bytes longer
/// than the seed, and opening it with the same passphrase, header and
/// metadata gives the seed back.
pub fn seal_seed(
    seed: &SecretBytes,
    passphrase: &SecretBytes,
    header: &[u8],
    metadata: &EncryptionMetadata,
) -> (r: Option<SecretBytes>)
    requires
        metadata@.well_formed(),
    ensures
        match r {
            Some(sealed) => {
                &&& sealed_seed(seed@, passphrase@, header@, metadata@) == Some(sealed@)
                &&& sealed@.len() == seed@.len() + 16
                &&& opened_seed(sealed@, passphrase@, header@, metadata@) == Some(seed@)
            },
            None => sealed_seed(seed@, passphrase@, header@, metadata@) is None,
        },
{
    let key = match argon2id(
        passphrase.expose().as_slice(),
        metadata.kdf_salt.as_slice(),
        metadata.kdf_memory_cost,
        metadata.kdf_time_cost,
        metadata.kdf_parallelism,
    ) {
        Some(key) => key,
        None => return None,
    };
    match aead_seal(
        key.expose().as_slice(),
        metadata.nonce.as_slice(),
        header,
        seed.expose().as_slice(),
    ) {
        Some(sealed) => Some(SecretBytes::new(sealed)),
        None => None,
    }
}

/// Decrypts a sealed seed under a passphrase. Nothing comes out where the
/// passphrase is wrong or the ciphertext, the header or the metadata were
/// changed.
pub fn open_seed(
    sealed: &SecretBytes,
    passphrase: &SecretBytes,
    header: &[u8],
    metadata: &EncryptionMetadata,
) -> (r: Option<SecretBytes>)
    requires
        metadata@.well_formed(),
    ensures
        match r {
            Some(seed) => {
                &&& opened_seed(sealed@, passphrase@, header@, metadata@) == Some(seed@)
                &&& seed@.len() + 16 == sealed@.len()
            },
            None => opened_seed(sealed@, passphrase@, header@, metadata@) is None,
        },
{
    let key = match argon2id(
        passphrase.expose().as_slice(),
        metadata.kdf_salt.as_slice(),
        metadata.kdf_memory_cost,
        metadata.kdf_time_cost,
        metadata.kdf_parallelism,
    ) {
        Some(key) => key,
        None => return None,
    };
    aead_open(key.expose().as_slice(), metadata.nonce.as_slice(), header, sealed.expose().as_slice())
}

} // verus!
