//! A hybrid cryptographic identity: one secret seed, and the classical and
//! post-quantum keypairs that are derived from it.
//!
//! A [`keys::MasterKey`] holds a 32-byte seed and two pairs of algorithms,
//! one pair for signing and one for key exchange. Its keypairs are derived
//! on demand and never kept ([`derivation`]). It is persisted as a secret
//! record, in binary form or in text armor ([`format`]), with the seed in the
//! clear or encrypted under a passphrase ([`encryption`]).
//!
//! The primitives are those of outside crates:
//!
//! - derivation: HKDF-SHA256 of the seed, with a label per algorithm, then
//!   the key generation of Ed25519, X25519, ML-DSA-65 or -87, ML-KEM-768 or
//!   -1024;
//! - passphrase protection: Argon2id (19 MiB, 2 passes, 1 lane for a fresh
//!   export) and ChaCha20-Poly1305, with a 16-byte salt and a 12-byte nonce
//!   that are drawn anew for each export;
//! - records: BSON documents, and PEM armor around them;
//! - secret buffers: `secrecy::Secret`, which wipes what it holds when it is
//!   released.
//!
//! The contracts speak of what those crates compute by name, and state
//! exactly what this library makes of it.

pub mod algorithm;
pub mod armor;
pub mod derivation;
pub mod document;
pub mod encryption;
pub mod format;
pub mod keys;
pub mod secret;
pub mod seed;
