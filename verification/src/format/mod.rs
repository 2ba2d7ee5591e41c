//! Persisted records: what encodes and decodes them, and what can go wrong.

pub mod keys;

use crate::armor::armor_error_text;
use crate::document::binary_error_text;
use crate::secret::{SecretBytes, SecretText};
use pem::PemError;
use vstd::prelude::*;
use vstd::std_specs::convert::FromSpecImpl;
use vstd::string::*;

verus! {

/// The layer of a record that could not be decoded.
#[derive(Debug)]
pub enum ErrSection {
    /// The text armor is malformed.
    PEM(PemError),
    /// The bytes are no well-formed binary document.
    BSON(bson::de::Error),
    /// The document or its label is not the record that was asked for.
    HEADER,
}

/// Why a record was not turned into a value, or a value not made.
#[derive(Debug)]
pub enum FormatError {
    /// The input is malformed.
    FailedToDecode(ErrSection),
    /// An encrypted record came without a passphrase, or a plaintext record
    /// with one.
    PassphraseMismatch,
    /// The passphrase is wrong or the record was tampered with.
    DecryptionFailed,
    /// The system's source of randomness gave nothing.
    RandomnessFailed,
    /// The key derivation or the cipher refused to protect the seed.
    EncryptionFailed,
}

/// A failure without its details.
#[derive(Clone, Copy, Debug, PartialEq, Eq, Structural)]
pub enum Fault {
    /// The text is no well-formed armor.
    Armor,
    /// The bytes are no well-formed binary document.
    Binary,
    /// The document or its label is not the record that was asked for.
    Structure,
    /// An encrypted record without a passphrase, or a plaintext record with
    /// one.
    PassphraseMismatch,
    /// The passphrase is wrong or the record was tampered with.
    DecryptionFailed,
    /// The system's source of randomness gave nothing.
    RandomnessFailed,
    /// The key derivation or the cipher refused to protect the seed.
    EncryptionFailed,
}

impl ErrSection {
    /// The failure without its details.
    pub open spec fn fault(&self) -> Fault {
        match self {
            ErrSection::PEM(_) => Fault::Armor,
            ErrSection::BSON(_) => Fault::Binary,
            ErrSection::HEADER => Fault::Structure,
        }
    }

    /// The heading under which a section's failure is reported.
    pub open spec fn heading(&self) -> Seq<char> {
        match self {
            ErrSection::PEM(_) => "PEM Error: "@,
            ErrSection::BSON(_) => "BSON Error: "@,
            ErrSection::HEADER => "Header Error"@,
        }
    }

    /// The failure as a line of text: the section's heading, followed for the
    /// armor and the binary layer by what the decoder said.
    pub fn describe(&self) -> (text: String)
        ensures
            self.heading().is_prefix_of(text@),
            self is HEADER ==> text@ == self.heading(),
    {
        match self {
            ErrSection::PEM(e) => {
                let mut text = String::from_str("PEM Error: ");
                let detail = armor_error_text(e);
                text.append(detail.as_str());
                assert(text@.subrange(0, "PEM Error: "@.len() as int) == "PEM Error: "@);
                text
            },
            ErrSection::BSON(e) => {
                let mut text = String::from_str("BSON Error: ");
                let detail = binary_error_text(e);
                text.append(detail.as_str());
                assert(text@.subrange(0, "BSON Error: "@.len() as int) == "BSON Error: "@);
                text
            },
            ErrSection::HEADER => {
                let text = String::from_str("Header Error");
                assert(text@.subrange(0, text@.len() as int) == text@);
                text
            },
        }
    }
}

impl FormatError {
    /// The failure without its details.
    pub open spec fn fault(&self) -> Fault {
        match self {
            FormatError::FailedToDecode(section) => section.fault(),
            FormatError::PassphraseMismatch => Fault::PassphraseMismatch,
            FormatError::DecryptionFailed => Fault::DecryptionFailed,
            FormatError::RandomnessFailed => Fault::RandomnessFailed,
            FormatError::EncryptionFailed => Fault::EncryptionFailed,
        }
    }

    /// The failure without its details.
    pub fn kind(&self) -> (k: Fault)
        ensures
            k == self.fault(),
    {
        match self {
            FormatError::FailedToDecode(ErrSection::PEM(_)) => Fault::Armor,
            FormatError::FailedToDecode(ErrSection::BSON(_)) => Fault::Binary,
            FormatError::FailedToDecode(ErrSection::HEADER) => Fault::Structure,
            FormatError::PassphraseMismatch => Fault::PassphraseMismatch,
            FormatError::DecryptionFailed => Fault::DecryptionFailed,
            FormatError::RandomnessFailed => Fault::RandomnessFailed,
            FormatError::EncryptionFailed => Fault::EncryptionFailed,
        }
    }

    /// The heading under which the failure is reported.
    pub open spec fn heading(&self) -> Seq<char> {
        match self {
            FormatError::FailedToDecode(section) => "Failed to decode: "@ + section.heading(),
            FormatError::PassphraseMismatch => "Passphrase mismatch"@,
            FormatError::DecryptionFailed => "Decryption failed"@,
            FormatError::RandomnessFailed => "Randomness source failed"@,
            FormatError::EncryptionFailed => "Encryption failed"@,
        }
    }

    /// The failure as a line of text.
    pub fn describe(&self) -> (text: String)
        ensures
            self.heading().is_prefix_of(text@),
            self.fault() != Fault::Armor && self.fault() != Fault::Binary ==> text@
                == self.heading(),
    {
        match self {
            FormatError::FailedToDecode(section) => {
                let mut text = String::from_str("Failed to decode: ");
                let detail = section.describe();
                text.append(detail.as_str());
                let ghost head = "Failed to decode: "@;
                assert(text@.subrange(0, (head + section.heading()).len() as int) == head
                    + section.heading()) by {
                    assert(detail@.subrange(0, section.heading().len() as int)
                        == section.heading());
                }
                text
            },
            FormatError::PassphraseMismatch => {
                let text = String::from_str("Passphrase mismatch");
                assert(text@.subrange(0, text@.len() as int) == text@);
                text
            },
            FormatError::DecryptionFailed => {
                let text = String::from_str("Decryption failed");
                assert(text@.subrange(0, text@.len() as int) == text@);
                text
            },
            FormatError::RandomnessFailed => {
                let text = String::from_str("Randomness source failed");
                assert(text@.subrange(0, text@.len() as int) == text@);
                text
            },
            FormatError::EncryptionFailed => {
                let text = String::from_str("Encryption failed");
                assert(text@.subrange(0, text@.len() as int) == text@);
                text
            },
        }
    }
}

/// A public record: one that holds nothing secret and can be handed out.
pub trait EncodablePublic: Sized {
    /// The record as contracts see it.
    type Model;

    spec fn model(&self) -> Self::Model;

    /// Whether the record's fields have the lengths that its algorithms fix.
    spec fn well_formed(&self) -> bool;

    /// What decoding these bytes gives.
    spec fn binary_decoded(bytes: Seq<u8>) -> Result<Self::Model, Fault>;

    /// What decoding this armored text gives.
    spec fn text_decoded(text: Seq<char>) -> Result<Self::Model, Fault>;

    /// The record's binary form. Decoding it gives the record back.
    fn encode_bson(&self) -> (bytes: Vec<u8>)
        requires
            self.well_formed(),
        ensures
            Self::binary_decoded(bytes@) == Ok::<Self::Model, Fault>(self.model()),
    ;

    /// The record that the bytes encode, or why they encode none.
    fn decode_bson(bson_data: &[u8]) -> (r: Result<Self, FormatError>)
        ensures
            match r {
                Ok(x) => x.well_formed() && Self::binary_decoded(bson_data@) == Ok::<
                    Self::Model,
                    Fault,
                >(x.model()),
                Err(e) => Self::binary_decoded(bson_data@) == Err::<Self::Model, Fault>(
                    e.fault(),
                ),
            },
    ;

    /// The record's armored text. Decoding it gives the record back.
    fn encode_pem(&self) -> (text: String)
        requires
            self.well_formed(),
        ensures
            Self::text_decoded(text@) == Ok::<Self::Model, Fault>(self.model()),
    ;

    /// The record that the armored text encodes, or why it encodes none.
    fn decode_pem(pem_data: &str) -> (r: Result<Self, FormatError>)
        ensures
            match r {
                Ok(x) => x.well_formed() && Self::text_decoded(pem_data@) == Ok::<
                    Self::Model,
                    Fault,
                >(x.model()),
                Err(e) => Self::text_decoded(pem_data@) == Err::<Self::Model, Fault>(e.fault()),
            },
    ;
}

/// A secret record: every buffer that its encoding and decoding go through
/// is one that is wiped on release.
pub trait EncodableSecret: Sized {
    /// The record as contracts see it.
    type Model;

    spec fn model(&self) -> Self::Model;

    /// Whether the record's fields have the lengths that its algorithms fix.
    spec fn well_formed(&self) -> bool;

    /// What decoding these bytes gives.
    spec fn binary_decoded(bytes: Seq<u8>) -> Result<Self::Model, Fault>;

    /// What decoding this armored text gives.
    spec fn text_decoded(text: Seq<char>) -> Result<Self::Model, Fault>;

    /// The record's binary form. Decoding it gives the record back.
    fn encode_bson(&self) -> (bytes: SecretBytes)
        requires
            self.well_formed(),
        ensures
            Self::binary_decoded(bytes@) == Ok::<Self::Model, Fault>(self.model()),
    ;

    /// The record that the bytes encode, or why they encode none.
    fn decode_bson(bson_data: &SecretBytes) -> (r: Result<Self, FormatError>)
        ensures
            match r {
                Ok(x) => x.well_formed() && Self::binary_decoded(bson_data@) == Ok::<
                    Self::Model,
                    Fault,
                >(x.model()),
                Err(e) => Self::binary_decoded(bson_data@) == Err::<Self::Model, Fault>(
                    e.fault(),
                ),
            },
    ;

    /// The record's armored text. Decoding it gives the record back.
    fn encode_pem(&self) -> (text: SecretText)
        requires
            self.well_formed(),
        ensures
            Self::text_decoded(text@) == Ok::<Self::Model, Fault>(self.model()),
    ;

    /// The record that the armored text encodes, or why it encodes none.
    fn decode_pem(pem_data: SecretText) -> (r: Result<Self, FormatError>)
        ensures
            match r {
                Ok(x) => x.well_formed() && Self::text_decoded(pem_data@) == Ok::<
                    Self::Model,
                    Fault,
                >(x.model()),
                Err(e) => Self::text_decoded(pem_data@) == Err::<Self::Model, Fault>(e.fault()),
            },
    ;
}

impl From<bson::de::Error> for FormatError {
    fn from(err: bson::de::Error) -> (r: Self) {
        FormatError::FailedToDecode(ErrSection::BSON(err))
    }
}

impl FromSpecImpl<bson::de::Error> for FormatError {
    open spec fn obeys_from_spec() -> bool {
        true
    }

    open spec fn from_spec(err: bson::de::Error) -> Self {
        FormatError::FailedToDecode(ErrSection::BSON(err))
    }
}

impl From<PemError> for FormatError {
    fn from(err: PemError) -> (r: Self) {
        FormatError::FailedToDecode(ErrSection::PEM(err))
    }
}

impl FromSpecImpl<PemError> for FormatError {
    open spec fn obeys_from_spec() -> bool {
        true
    }

    open spec fn from_spec(err: PemError) -> Self {
        FormatError::FailedToDecode(ErrSection::PEM(err))
    }
}

} // verus!
