//! The root seed of an identity.

use crate::format::FormatError;
use crate::secret::SecretBytes;
use vstd::prelude::*;

verus! {

/// Length in bytes of a root seed.
pub const SEED_LENGTH: usize = 32;

/// `getrandom::getrandom` on a fresh buffer of `n` bytes: the buffer filled
/// from the system's source of randomness, or nothing where the source
/// fails. What the bytes are is not known.
#[verifier::external_body]
pub(crate) fn system_random(n: usize) -> (r: Option<Vec<u8>>)
    requires
        n <= 1024,
    ensures
        r is Some ==> r.unwrap()@.len() == n,
{
    let mut buffer = vec![0u8; n];
    match getrandom::getrandom(&mut buffer) {
        Ok(()) => Some(buffer),
        Err(_) => None,
    }
}

/// The secret entropy from which every keypair of an identity is derived.
pub struct Seed {
    raw: SecretBytes,
}

impl View for Seed {
    type V = Seq<u8>;

    closed spec fn view(&self) -> Seq<u8> {
        if self.raw@.len() == SEED_LENGTH {
            self.raw@
        } else {
            Seq::new(SEED_LENGTH as nat, |i: int| 0u8)
        }
    }
}

/// Every seed has the length of a seed.
pub proof fn lemma_seed_length(seed: Seed)
    ensures
        seed@.len() == SEED_LENGTH,
{
}

impl Seed {
    #[verifier::type_invariant]
    spec fn has_seed_length(self) -> bool {
        self.raw@.len() == SEED_LENGTH
    }

    /// Takes secret bytes as a seed, if they have the length of one.
    pub fn new(raw: SecretBytes) -> (r: Option<Self>)
        ensures
            r is Some <==> raw@.len() == SEED_LENGTH,
            r is Some ==> r.unwrap()@ == raw@,
    {
        if raw.len() == SEED_LENGTH {
            Some(Seed { raw })
        } else {
            None
        }
    }

    /// Makes a seed of what the source of randomness gave: the bytes
    /// themselves, in a secret buffer, where it gave as many as a seed has.
    pub fn from_entropy(entropy: Option<Vec<u8>>) -> (r: Result<Self, FormatError>)
        ensures
            match (entropy, r) {
                (Some(bytes), Ok(seed)) => bytes@.len() == SEED_LENGTH && seed@ == bytes@,
                (Some(bytes), Err(e)) => bytes@.len() != SEED_LENGTH && e is RandomnessFailed,
                (None, Ok(_)) => false,
                (None, Err(e)) => e is RandomnessFailed,
            },
    {
        match entropy {
            Some(bytes) => match Seed::new(SecretBytes::new(bytes)) {
                Some(seed) => Ok(seed),
                None => Err(FormatError::RandomnessFailed),
            },
            None => Err(FormatError::RandomnessFailed),
        }
    }

    /// A fresh seed from the system's source of randomness. Where the source
    /// fails there is no seed, and never a weak one.
    pub fn generate() -> (r: Result<Self, FormatError>)
        ensures
            match r {
                Ok(seed) => seed@.len() == SEED_LENGTH,
                Err(e) => e is RandomnessFailed,
            },
    {
        Seed::from_entropy(system_random(SEED_LENGTH))
    }

    /// The seed's bytes, for as long as the reference lives.
    pub fn expose(&self) -> (bytes: &Vec<u8>)
        ensures
            bytes@ == self@,
            bytes@.len() == SEED_LENGTH,
    {
        proof {
            use_type_invariant(self);
        }
        self.raw.expose()
    }

    /// A copy of the seed's bytes in a secret buffer of its own.
    pub fn clone_raw_seed(&self) -> (raw: SecretBytes)
        ensures
            raw@ == self@,
            raw@.len() == SEED_LENGTH,
    {
        proof {
            use_type_invariant(self);
        }
        self.raw.duplicate()
    }
}

} // verus!
