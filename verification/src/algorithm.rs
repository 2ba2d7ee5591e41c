//! The closed sets of algorithm identifiers.
//!
//! Every identifier has a numeric code, which is what a persisted record
//! carries. A code outside the set names no algorithm.

use vstd::prelude::*;

verus! {

/// Classical signature schemes.
#[derive(Clone, Copy, Debug, PartialEq, Eq, Structural)]
pub enum ECAlgorithm {
    Ed25519,
}

/// Post-quantum signature schemes.
#[derive(Clone, Copy, Debug, PartialEq, Eq, Structural)]
pub enum PQAlgorithm {
    MlDsa65,
    MlDsa87,
}

/// Classical key-exchange schemes.
#[derive(Clone, Copy, Debug, PartialEq, Eq, Structural)]
pub enum DHAlgorithm {
    X25519,
}

/// Post-quantum key-encapsulation mechanisms.
#[derive(Clone, Copy, Debug, PartialEq, Eq, Structural)]
pub enum KEMAlgorithm {
    MlKem768,
    MlKem1024,
}

/// Memory-hard functions that turn a passphrase into a key.
#[derive(Clone, Copy, Debug, PartialEq, Eq, Structural)]
pub enum KdfAlgorithm {
    Argon2id,
}

/// Authenticated ciphers that protect a seed at rest.
#[derive(Clone, Copy, Debug, PartialEq, Eq, Structural)]
pub enum CipherAlgorithm {
    ChaCha20Poly1305,
}

/// Any algorithm a keypair can be derived for, with its purpose.
#[derive(Clone, Copy, Debug, PartialEq, Eq, Structural)]
pub enum AlgorithmId {
    EC(ECAlgorithm),
    PQ(PQAlgorithm),
    DH(DHAlgorithm),
    KEM(KEMAlgorithm),
}

impl ECAlgorithm {
    /// The length in bytes of a public key of this algorithm.
    pub open spec fn spec_public_key_length(self) -> nat {
        32
    }

    /// The length in bytes of a public key of this algorithm.
    pub fn public_key_length(self) -> (n: usize)
        ensures
            n == self.spec_public_key_length(),
    {
        32
    }

    /// The code of this identifier.
    pub open spec fn spec_code(self) -> i64 {
        1
    }

    /// The identifier that a code names, if it names one.
    pub open spec fn spec_from_code(code: i64) -> Option<Self> {
        if code == 1 {
            Some(ECAlgorithm::Ed25519)
        } else {
            None
        }
    }

    /// The code that a persisted record carries for this algorithm.
    pub fn code(self) -> (c: i64)
        ensures
            c == self.spec_code(),
            Self::spec_from_code(c) == Some(self),
    {
        1
    }

    /// The algorithm that a code names, if any.
    pub fn from_code(code: i64) -> (r: Option<Self>)
        ensures
            r == Self::spec_from_code(code),
            r is Some ==> r.unwrap().spec_code() == code,
    {
        if code == 1 {
            Some(ECAlgorithm::Ed25519)
        } else {
            None
        }
    }
}

impl PQAlgorithm {
    /// The length in bytes of a public key of this algorithm.
    pub open spec fn spec_public_key_length(self) -> nat {
        match self {
            PQAlgorithm::MlDsa65 => 1952,
            PQAlgorithm::MlDsa87 => 2592,
        }
    }

    /// The length in bytes of a public key of this algorithm.
    pub fn public_key_length(self) -> (n: usize)
        ensures
            n == self.spec_public_key_length(),
    {
        match self {
            PQAlgorithm::MlDsa65 => 1952,
            PQAlgorithm::MlDsa87 => 2592,
        }
    }

    /// The code of this identifier.
    pub open spec fn spec_code(self) -> i64 {
        match self {
            PQAlgorithm::MlDsa65 => 1,
            PQAlgorithm::MlDsa87 => 2,
        }
    }

    /// The identifier that a code names, if it names one.
    pub open spec fn spec_from_code(code: i64) -> Option<Self> {
        if code == 1 {
            Some(PQAlgorithm::MlDsa65)
        } else if code == 2 {
            Some(PQAlgorithm::MlDsa87)
        } else {
            None
        }
    }

    /// The code that a persisted record carries for this algorithm.
    pub fn code(self) -> (c: i64)
        ensures
            c == self.spec_code(),
            Self::spec_from_code(c) == Some(self),
    {
        match self {
            PQAlgorithm::MlDsa65 => 1,
            PQAlgorithm::MlDsa87 => 2,
        }
    }

    /// The algorithm that a code names, if any.
    pub fn from_code(code: i64) -> (r: Option<Self>)
        ensures
            r == Self::spec_from_code(code),
            r is Some ==> r.unwrap().spec_code() == code,
    {
        if code == 1 {
            Some(PQAlgorithm::MlDsa65)
        } else if code == 2 {
            Some(PQAlgorithm::MlDsa87)
        } else {
            None
        }
    }
}

impl DHAlgorithm {
    /// The length in bytes of a public key of this algorithm.
    pub open spec fn spec_public_key_length(self) -> nat {
        32
    }

    /// The length in bytes of a public key of this algorithm.
    pub fn public_key_length(self) -> (n: usize)
        ensures
            n == self.spec_public_key_length(),
    {
        32
    }

    /// The code of this identifier.
    pub open spec fn spec_code(self) -> i64 {
        1
    }

    /// The identifier that a code names, if it names one.
    pub open spec fn spec_from_code(code: i64) -> Option<Self> {
        if code == 1 {
            Some(DHAlgorithm::X25519)
        } else {
            None
        }
    }

    /// The code that a persisted record carries for this algorithm.
    pub fn code(self) -> (c: i64)
        ensures
            c == self.spec_code(),
            Self::spec_from_code(c) == Some(self),
    {
        1
    }

    /// The algorithm that a code names, if any.
    pub fn from_code(code: i64) -> (r: Option<Self>)
        ensures
            r == Self::spec_from_code(code),
            r is Some ==> r.unwrap().spec_code() == code,
    {
        if code == 1 {
            Some(DHAlgorithm::X25519)
        } else {
            None
        }
    }
}

impl KEMAlgorithm {
    /// The length in bytes of a public key of this algorithm.
    pub open spec fn spec_public_key_length(self) -> nat {
        match self {
            KEMAlgorithm::MlKem768 => 1184,
            KEMAlgorithm::MlKem1024 => 1568,
        }
    }

    /// The length in bytes of a public key of this algorithm.
    pub fn public_key_length(self) -> (n: usize)
        ensures
            n == self.spec_public_key_length(),
    {
        match self {
            KEMAlgorithm::MlKem768 => 1184,
            KEMAlgorithm::MlKem1024 => 1568,
        }
    }

    /// The code of this identifier.
    pub open spec fn spec_code(self) -> i64 {
        match self {
            KEMAlgorithm::MlKem768 => 1,
            KEMAlgorithm::MlKem1024 => 2,
        }
    }

    /// The identifier that a code names, if it names one.
    pub open spec fn spec_from_code(code: i64) -> Option<Self> {
        if code == 1 {
            Some(KEMAlgorithm::MlKem768)
        } else if code == 2 {
            Some(KEMAlgorithm::MlKem1024)
        } else {
            None
        }
    }

    /// The code that a persisted record carries for this algorithm.
    pub fn code(self) -> (c: i64)
        ensures
            c == self.spec_code(),
            Self::spec_from_code(c) == Some(self),
    {
        match self {
            KEMAlgorithm::MlKem768 => 1,
            KEMAlgorithm::MlKem1024 => 2,
        }
    }

    /// The algorithm that a code names, if any.
    pub fn from_code(code: i64) -> (r: Option<Self>)
        ensures
            r == Self::spec_from_code(code),
            r is Some ==> r.unwrap().spec_code() == code,
    {
        if code == 1 {
            Some(KEMAlgorithm::MlKem768)
        } else if code == 2 {
            Some(KEMAlgorithm::MlKem1024)
        } else {
            None
        }
    }
}

impl KdfAlgorithm {
    /// The code of this identifier.
    pub open spec fn spec_code(self) -> i64 {
        1
    }

    /// The identifier that a code names, if it names one.
    pub open spec fn spec_from_code(code: i64) -> Option<Self> {
        if code == 1 {
            Some(KdfAlgorithm::Argon2id)
        } else {
            None
        }
    }

    /// The code that a persisted record carries for this function.
    pub fn code(self) -> (c: i64)
        ensures
            c == self.spec_code(),
            Self::spec_from_code(c) == Some(self),
    {
        1
    }

    /// The function that a code names, if any.
    pub fn from_code(code: i64) -> (r: Option<Self>)
        ensures
            r == Self::spec_from_code(code),
            r is Some ==> r.unwrap().spec_code() == code,
    {
        if code == 1 {
            Some(KdfAlgorithm::Argon2id)
        } else {
            None
        }
    }
}

impl CipherAlgorithm {
    /// The code of this identifier.
    pub open spec fn spec_code(self) -> i64 {
        1
    }

    /// The identifier that a code names, if it names one.
    pub open spec fn spec_from_code(code: i64) -> Option<Self> {
        if code == 1 {
            Some(CipherAlgorithm::ChaCha20Poly1305)
        } else {
            None
        }
    }

    /// The code that a persisted record carries for this cipher.
    pub fn code(self) -> (c: i64)
        ensures
            c == self.spec_code(),
            Self::spec_from_code(c) == Some(self),
    {
        1
    }

    /// The cipher that a code names, if any.
    pub fn from_code(code: i64) -> (r: Option<Self>)
        ensures
            r == Self::spec_from_code(code),
            r is Some ==> r.unwrap().spec_code() == code,
    {
        if code == 1 {
            Some(CipherAlgorithm::ChaCha20Poly1305)
        } else {
            None
        }
    }
}

impl AlgorithmId {
    /// The purpose of the algorithm as one byte: 1 for classical signatures,
    /// 2 for post-quantum signatures, 3 for classical key exchange, 4 for
    /// post-quantum key encapsulation.
    pub open spec fn spec_kind(self) -> u8 {
        match self {
            AlgorithmId::EC(_) => 1,
            AlgorithmId::PQ(_) => 2,
            AlgorithmId::DH(_) => 3,
            AlgorithmId::KEM(_) => 4,
        }
    }

    /// The algorithm's code within its purpose, as one byte.
    pub open spec fn spec_index(self) -> u8 {
        match self {
            AlgorithmId::EC(a) => a.spec_code() as u8,
            AlgorithmId::PQ(a) => a.spec_code() as u8,
            AlgorithmId::DH(a) => a.spec_code() as u8,
            AlgorithmId::KEM(a) => a.spec_code() as u8,
        }
    }

    /// How many bytes of key material the algorithm's key generation takes.
    pub open spec fn spec_material_length(self) -> nat {
        match self {
            AlgorithmId::KEM(_) => 64,
            _ => 32,
        }
    }

    /// The purpose of the algorithm as one byte.
    pub fn kind(self) -> (k: u8)
        ensures
            k == self.spec_kind(),
    {
        match self {
            AlgorithmId::EC(_) => 1,
            AlgorithmId::PQ(_) => 2,
            AlgorithmId::DH(_) => 3,
            AlgorithmId::KEM(_) => 4,
        }
    }

    /// The algorithm's code within its purpose, as one byte.
    pub fn index(self) -> (i: u8)
        ensures
            i == self.spec_index(),
    {
        match self {
            AlgorithmId::EC(ECAlgorithm::Ed25519) => 1,
            AlgorithmId::PQ(PQAlgorithm::MlDsa65) => 1,
            AlgorithmId::PQ(PQAlgorithm::MlDsa87) => 2,
            AlgorithmId::DH(DHAlgorithm::X25519) => 1,
            AlgorithmId::KEM(KEMAlgorithm::MlKem768) => 1,
            AlgorithmId::KEM(KEMAlgorithm::MlKem1024) => 2,
        }
    }

    /// How many bytes of key material the algorithm's key generation takes.
    pub fn material_length(self) -> (n: usize)
        ensures
            n == self.spec_material_length(),
    {
        match self {
            AlgorithmId::KEM(_) => 64,
            _ => 32,
        }
    }
}

/// Two identifiers with the same purpose byte and the same index byte are
/// the same identifier.
pub proof fn lemma_kind_and_index_identify(a: AlgorithmId, b: AlgorithmId)
    requires
        a.spec_kind() == b.spec_kind(),
        a.spec_index() == b.spec_index(),
    ensures
        a == b,
{
}

} // verus!
