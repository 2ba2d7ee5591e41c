//! The records that carry keys: the public bundles and the secret master key.

use crate::algorithm::{
    CipherAlgorithm, DHAlgorithm, ECAlgorithm, KEMAlgorithm, KdfAlgorithm, PQAlgorithm,
};
use crate::armor::{armor_encode, armor_parse, armor_parsed, armor_text, label_chars, plain_label};
use crate::derivation::{DHKeyPair, ECKeyPair, KEMKeyPair, PQKeyPair};
use crate::document::{
    binary_form, binary_parsed, bytes_at, doc_fields, doc_from_bytes, doc_get_bytes, doc_get_int,
    doc_get_nested, doc_len, doc_new, doc_put_bytes, doc_put_int, doc_put_nested, doc_to_bytes,
    doc_wipe, flat_fields, int_at, lemma_lookup_push, nested_at, plain_chars, plain_key,
    record_fields, Fields, Item,
};
use crate::format::{EncodablePublic, EncodableSecret, ErrSection, Fault, FormatError};
use crate::secret::{copy_bytes, SecretBytes, SecretText};
use crate::seed::SEED_LENGTH;
use bson::Document;
use vstd::prelude::*;
use vstd::string::*;

verus! {

/// The public halves of a hybrid signing pair.
pub struct SignaturePublicKeyFormat {
    pub ec_algorithm: ECAlgorithm,
    pub ec_public_key: Vec<u8>,
    pub pq_algorithm: PQAlgorithm,
    pub pq_public_key: Vec<u8>,
}

/// A signature bundle as contracts see it.
pub struct SignaturePublicKeyView {
    pub ec_algorithm: ECAlgorithm,
    pub ec_public_key: Seq<u8>,
    pub pq_algorithm: PQAlgorithm,
    pub pq_public_key: Seq<u8>,
}

impl View for SignaturePublicKeyFormat {
    type V = SignaturePublicKeyView;

    open spec fn view(&self) -> SignaturePublicKeyView {
        SignaturePublicKeyView {
            ec_algorithm: self.ec_algorithm,
            ec_public_key: self.ec_public_key@,
            pq_algorithm: self.pq_algorithm,
            pq_public_key: self.pq_public_key@,
        }
    }
}

impl SignaturePublicKeyView {
    /// Each key has the length that its algorithm fixes.
    pub open spec fn well_formed(self) -> bool {
        &&& self.ec_public_key.len() == self.ec_algorithm.spec_public_key_length()
        &&& self.pq_public_key.len() == self.pq_algorithm.spec_public_key_length()
    }

    /// The fields of the document that carries the bundle.
    pub open spec fn fields(self) -> Fields {
        Seq::<(Seq<char>, Item)>::empty().push(
            ("ec_algorithm"@, Item::Int(self.ec_algorithm.spec_code())),
        ).push(("ec_public_key"@, Item::Bytes(self.ec_public_key))).push(
            ("pq_algorithm"@, Item::Int(self.pq_algorithm.spec_code())),
        ).push(("pq_public_key"@, Item::Bytes(self.pq_public_key)))
    }

    /// The bundle that a document with these fields carries: it has these
    /// four fields and no other, each of its type, each code in its set and
    /// each key of its algorithm's length.
    pub open spec fn of_fields(fields: Fields) -> Option<Self> {
        match (
            int_at(fields, "ec_algorithm"@),
            bytes_at(fields, "ec_public_key"@),
            int_at(fields, "pq_algorithm"@),
            bytes_at(fields, "pq_public_key"@),
        ) {
            (Some(ec), Some(ec_key), Some(pq), Some(pq_key)) => match (
                ECAlgorithm::spec_from_code(ec),
                PQAlgorithm::spec_from_code(pq),
            ) {
                (Some(ec_algorithm), Some(pq_algorithm)) => {
                    let v = SignaturePublicKeyView {
                        ec_algorithm,
                        ec_public_key: ec_key,
                        pq_algorithm,
                        pq_public_key: pq_key,
                    };
                    if fields.len() == 4 && v.well_formed() {
                        Some(v)
                    } else {
                        None
                    }
                },
                _ => None,
            },
            _ => None,
        }
    }
}

proof fn lemma_signature_keys()
    ensures
        plain_key("ec_algorithm"@),
        plain_key("ec_public_key"@),
        plain_key("pq_algorithm"@),
        plain_key("pq_public_key"@),
        "ec_algorithm"@ != "ec_public_key"@,
        "ec_algorithm"@ != "pq_algorithm"@,
        "ec_algorithm"@ != "pq_public_key"@,
        "ec_public_key"@ != "pq_algorithm"@,
        "ec_public_key"@ != "pq_public_key"@,
        "pq_algorithm"@ != "pq_public_key"@,
{
    reveal_strlit("ec_algorithm");
    reveal_strlit("ec_public_key");
    reveal_strlit("pq_algorithm");
    reveal_strlit("pq_public_key");
    reveal_with_fuel(plain_chars, 16);
    assert("ec_algorithm"@[0] != "pq_algorithm"@[0]);
    assert("ec_public_key"@[0] != "pq_public_key"@[0]);
}

/// A well-formed signature bundle is read back from its own fields, which
/// have the shape of a flat record.
pub proof fn lemma_signature_fields_round_trip(v: SignaturePublicKeyView)
    requires
        v.well_formed(),
    ensures
        SignaturePublicKeyView::of_fields(v.fields()) == Some(v),
        flat_fields(v.fields()),
{
    broadcast use lemma_lookup_push;

    lemma_signature_keys();
}

impl SignaturePublicKeyFormat {
    /// The public halves of the two keypairs. The secret halves are
    /// released.
    pub fn from_keypairs(ec_keypair: ECKeyPair, pq_keypair: PQKeyPair) -> (r: Self)
        ensures
            r@ == (SignaturePublicKeyView {
                ec_algorithm: ec_keypair.spec_algorithm(),
                ec_public_key: ec_keypair@.public_key,
                pq_algorithm: pq_keypair.spec_algorithm(),
                pq_public_key: pq_keypair@.public_key,
            }),
            r@.well_formed(),
    {
        SignaturePublicKeyFormat {
            ec_algorithm: ec_keypair.algorithm(),
            ec_public_key: copy_bytes(ec_keypair.public_key().as_slice()),
            pq_algorithm: pq_keypair.algorithm(),
            pq_public_key: copy_bytes(pq_keypair.public_key().as_slice()),
        }
    }

    /// Whether the record is well formed.
    pub fn is_well_formed(&self) -> (b: bool)
        ensures
            b == self@.well_formed(),
    {
        self.ec_public_key.len() == self.ec_algorithm.public_key_length()
            && self.pq_public_key.len() == self.pq_algorithm.public_key_length()
    }

    /// The document that carries the bundle.
    pub fn to_document(&self) -> (d: Document)
        ensures
            doc_fields(d) == self@.fields(),
    {
        broadcast use lemma_lookup_push;

        proof {
            lemma_signature_keys();
        }
        let mut d = doc_new();
        doc_put_int(&mut d, "ec_algorithm", self.ec_algorithm.code());
        doc_put_bytes(&mut d, "ec_public_key", self.ec_public_key.as_slice());
        doc_put_int(&mut d, "pq_algorithm", self.pq_algorithm.code());
        doc_put_bytes(&mut d, "pq_public_key", self.pq_public_key.as_slice());
        d
    }

    /// The bundle that a document carries, if it carries one.
    pub fn from_document(d: &Document) -> (r: Option<Self>)
        ensures
            match r {
                Some(x) => SignaturePublicKeyView::of_fields(doc_fields(*d)) == Some(x@),
                None => SignaturePublicKeyView::of_fields(doc_fields(*d)) is None,
            },
    {
        let ec = match doc_get_int(d, "ec_algorithm") {
            Some(c) => c,
            None => return None,
        };
        let ec_public_key = match doc_get_bytes(d, "ec_public_key") {
            Some(b) => b,
            None => return None,
        };
        let pq = match doc_get_int(d, "pq_algorithm") {
            Some(c) => c,
            None => return None,
        };
        let pq_public_key = match doc_get_bytes(d, "pq_public_key") {
            Some(b) => b,
            None => return None,
        };
        let ec_algorithm = match ECAlgorithm::from_code(ec) {
            Some(a) => a,
            None => return None,
        };
        let pq_algorithm = match PQAlgorithm::from_code(pq) {
            Some(a) => a,
            None => return None,
        };
        let x = SignaturePublicKeyFormat { ec_algorithm, ec_public_key, pq_algorithm, pq_public_key };
        if doc_len(d) == 4 && x.is_well_formed() {
            Some(x)
        } else {
            None
        }
    }
}

/// The public halves of a hybrid key-exchange pair.
pub struct EncryptionPublicKeyFormat {
    pub dh_algorithm: DHAlgorithm,
    pub dh_public_key: Vec<u8>,
    pub kem_algorithm: KEMAlgorithm,
    pub kem_public_key: Vec<u8>,
}

/// A key-exchange bundle as contracts see it.
pub struct EncryptionPublicKeyView {
    pub dh_algorithm: DHAlgorithm,
    pub dh_public_key: Seq<u8>,
    pub kem_algorithm: KEMAlgorithm,
    pub kem_public_key: Seq<u8>,
}

impl View for EncryptionPublicKeyFormat {
    type V = EncryptionPublicKeyView;

    open spec fn view(&self) -> EncryptionPublicKeyView {
        EncryptionPublicKeyView {
            dh_algorithm: self.dh_algorithm,
            dh_public_key: self.dh_public_key@,
            kem_algorithm: self.kem_algorithm,
            kem_public_key: self.kem_public_key@,
        }
    }
}

impl EncryptionPublicKeyView {
    /// Each key has the length that its algorithm fixes.
    pub open spec fn well_formed(self) -> bool {
        &&& self.dh_public_key.len() == self.dh_algorithm.spec_public_key_length()
        &&& self.kem_public_key.len() == self.kem_algorithm.spec_public_key_length()
    }

    /// The fields of the document that carries the bundle.
    pub open spec fn fields(self) -> Fields {
        Seq::<(Seq<char>, Item)>::empty().push(
            ("dh_algorithm"@, Item::Int(self.dh_algorithm.spec_code())),
        ).push(("dh_public_key"@, Item::Bytes(self.dh_public_key))).push(
            ("kem_algorithm"@, Item::Int(self.kem_algorithm.spec_code())),
        ).push(("kem_public_key"@, Item::Bytes(self.kem_public_key)))
    }

    /// The bundle that a document with these fields carries: it has these
    /// four fields and no other, each of its type, each code in its set and
    /// each key of its algorithm's length.
    pub open spec fn of_fields(fields: Fields) -> Option<Self> {
        match (
            int_at(fields, "dh_algorithm"@),
            bytes_at(fields, "dh_public_key"@),
            int_at(fields, "kem_algorithm"@),
            bytes_at(fields, "kem_public_key"@),
        ) {
            (Some(dh), Some(dh_key), Some(kem), Some(kem_key)) => match (
                DHAlgorithm::spec_from_code(dh),
                KEMAlgorithm::spec_from_code(kem),
            ) {
                (Some(dh_algorithm), Some(kem_algorithm)) => {
                    let v = EncryptionPublicKeyView {
                        dh_algorithm,
                        dh_public_key: dh_key,
                        kem_algorithm,
                        kem_public_key: kem_key,
                    };
                    if fields.len() == 4 && v.well_formed() {
                        Some(v)
                    } else {
                        None
                    }
                },
                _ => None,
            },
            _ => None,
        }
    }
}

proof fn lemma_encryption_keys()
    ensures
        plain_key("dh_algorithm"@),
        plain_key("dh_public_key"@),
        plain_key("kem_algorithm"@),
        plain_key("kem_public_key"@),
        "dh_algorithm"@ != "dh_public_key"@,
        "dh_algorithm"@ != "kem_algorithm"@,
        "dh_algorithm"@ != "kem_public_key"@,
        "dh_public_key"@ != "kem_algorithm"@,
        "dh_public_key"@ != "kem_public_key"@,
        "kem_algorithm"@ != "kem_public_key"@,
{
    reveal_strlit("dh_algorithm");
    reveal_strlit("dh_public_key");
    reveal_strlit("kem_algorithm");
    reveal_strlit("kem_public_key");
    reveal_with_fuel(plain_chars, 16);
    assert("dh_algorithm"@[0] != "kem_algorithm"@[0]);
    assert("dh_public_key"@[0] != "kem_public_key"@[0]);
}

/// A well-formed key-exchange bundle is read back from its own fields, which
/// have the shape of a flat record.
pub proof fn lemma_encryption_fields_round_trip(v: EncryptionPublicKeyView)
    requires
        v.well_formed(),
    ensures
        EncryptionPublicKeyView::of_fields(v.fields()) == Some(v),
        flat_fields(v.fields()),
{
    broadcast use lemma_lookup_push;

    lemma_encryption_keys();
}

impl EncryptionPublicKeyFormat {
    /// The public halves of the two keypairs. The secret halves are
    /// released.
    pub fn from_keypairs(dh_keypair: DHKeyPair, kem_keypair: KEMKeyPair) -> (r: Self)
        ensures
            r@ == (EncryptionPublicKeyView {
                dh_algorithm: dh_keypair.spec_algorithm(),
                dh_public_key: dh_keypair@.public_key,
                kem_algorithm: kem_keypair.spec_algorithm(),
                kem_public_key: kem_keypair@.public_key,
            }),
            r@.well_formed(),
    {
        EncryptionPublicKeyFormat {
            dh_algorithm: dh_keypair.algorithm(),
            dh_public_key: copy_bytes(dh_keypair.public_key().as_slice()),
            kem_algorithm: kem_keypair.algorithm(),
            kem_public_key: copy_bytes(kem_keypair.public_key().as_slice()),
        }
    }

    /// Whether the record is well formed.
    pub fn is_well_formed(&self) -> (b: bool)
        ensures
            b == self@.well_formed(),
    {
        self.dh_public_key.len() == self.dh_algorithm.public_key_length()
            && self.kem_public_key.len() == self.kem_algorithm.public_key_length()
    }

    /// The document that carries the bundle.
    pub fn to_document(&self) -> (d: Document)
        ensures
            doc_fields(d) == self@.fields(),
    {
        broadcast use lemma_lookup_push;

        proof {
            lemma_encryption_keys();
        }
        let mut d = doc_new();
        doc_put_int(&mut d, "dh_algorithm", self.dh_algorithm.code());
        doc_put_bytes(&mut d, "dh_public_key", self.dh_public_key.as_slice());
        doc_put_int(&mut d, "kem_algorithm", self.kem_algorithm.code());
        doc_put_bytes(&mut d, "kem_public_key", self.kem_public_key.as_slice());
        d
    }

    /// The bundle that a document carries, if it carries one.
    pub fn from_document(d: &Document) -> (r: Option<Self>)
        ensures
            match r {
                Some(x) => EncryptionPublicKeyView::of_fields(doc_fields(*d)) == Some(x@),
                None => EncryptionPublicKeyView::of_fields(doc_fields(*d)) is None,
            },
    {
        let dh = match doc_get_int(d, "dh_algorithm") {
            Some(c) => c,
            None => return None,
        };
        let dh_public_key = match doc_get_bytes(d, "dh_public_key") {
            Some(b) => b,
            None => return None,
        };
        let kem = match doc_get_int(d, "kem_algorithm") {
            Some(c) => c,
            None => return None,
        };
        let kem_public_key = match doc_get_bytes(d, "kem_public_key") {
            Some(b) => b,
            None => return None,
        };
        let dh_algorithm = match DHAlgorithm::from_code(dh) {
            Some(a) => a,
            None => return None,
        };
        let kem_algorithm = match KEMAlgorithm::from_code(kem) {
            Some(a) => a,
            None => return None,
        };
        let x = EncryptionPublicKeyFormat { dh_algorithm, dh_public_key, kem_algorithm, kem_public_key };
        if doc_len(d) == 4 && x.is_well_formed() {
            Some(x)
        } else {
            None
        }
    }
}

/// Both public bundles of an identity.
pub struct FullChainPublicKeyFormat {
    pub signature_public_key: SignaturePublicKeyFormat,
    pub encryption_public_key: EncryptionPublicKeyFormat,
}

/// A full bundle as contracts see it.
pub struct FullChainPublicKeyView {
    pub signature_public_key: SignaturePublicKeyView,
    pub encryption_public_key: EncryptionPublicKeyView,
}

impl View for FullChainPublicKeyFormat {
    type V = FullChainPublicKeyView;

    open spec fn view(&self) -> FullChainPublicKeyView {
        FullChainPublicKeyView {
            signature_public_key: self.signature_public_key@,
            encryption_public_key: self.encryption_public_key@,
        }
    }
}

impl FullChainPublicKeyView {
    /// Both bundles are well formed.
    pub open spec fn well_formed(self) -> bool {
        self.signature_public_key.well_formed() && self.encryption_public_key.well_formed()
    }

    /// The fields of the document that carries the bundle: each of the two
    /// bundles as an embedded document.
    pub open spec fn fields(self) -> Fields {
        Seq::<(Seq<char>, Item)>::empty().push(
            ("signature_public_key"@, Item::Nested(self.signature_public_key.fields())),
        ).push(("encryption_public_key"@, Item::Nested(self.encryption_public_key.fields())))
    }

    /// The bundle that a document with these fields carries: it has the two
    /// embedded documents and no other field, and each carries its bundle.
    pub open spec fn of_fields(fields: Fields) -> Option<Self> {
        match (
            nested_at(fields, "signature_public_key"@),
            nested_at(fields, "encryption_public_key"@),
        ) {
            (Some(signature), Some(encryption)) => match (
                SignaturePublicKeyView::of_fields(signature),
                EncryptionPublicKeyView::of_fields(encryption),
            ) {
                (Some(signature_public_key), Some(encryption_public_key)) => if fields.len()
                    == 2 {
                    Some(FullChainPublicKeyView { signature_public_key, encryption_public_key })
                } else {
                    None
                },
                _ => None,
            },
            _ => None,
        }
    }
}

proof fn lemma_fullchain_keys()
    ensures
        plain_key("signature_public_key"@),
        plain_key("encryption_public_key"@),
        "signature_public_key"@ != "encryption_public_key"@,
{
    reveal_strlit("signature_public_key");
    reveal_strlit("encryption_public_key");
    reveal_with_fuel(plain_chars, 24);
}

/// A well-formed full bundle is read back from its own fields, which have
/// the shape of a record.
pub proof fn lemma_fullchain_fields_round_trip(v: FullChainPublicKeyView)
    requires
        v.well_formed(),
    ensures
        FullChainPublicKeyView::of_fields(v.fields()) == Some(v),
        record_fields(v.fields()),
{
    broadcast use lemma_lookup_push;

    lemma_fullchain_keys();
    lemma_signature_fields_round_trip(v.signature_public_key);
    lemma_encryption_fields_round_trip(v.encryption_public_key);
}

impl FullChainPublicKeyFormat {
    /// Whether the record is well formed.
    pub fn is_well_formed(&self) -> (b: bool)
        ensures
            b == self@.well_formed(),
    {
        self.signature_public_key.is_well_formed() && self.encryption_public_key.is_well_formed()
    }

    /// The document that carries the bundle.
    pub fn to_document(&self) -> (d: Document)
        ensures
            doc_fields(d) == self@.fields(),
    {
        broadcast use lemma_lookup_push;

        proof {
            lemma_fullchain_keys();
        }
        let mut d = doc_new();
        doc_put_nested(&mut d, "signature_public_key", self.signature_public_key.to_document());
        doc_put_nested(&mut d, "encryption_public_key", self.encryption_public_key.to_document());
        d
    }

    /// The bundle that a document carries, if it carries one.
    pub fn from_document(d: &Document) -> (r: Option<Self>)
        ensures
            match r {
                Some(x) => FullChainPublicKeyView::of_fields(doc_fields(*d)) == Some(x@),
                None => FullChainPublicKeyView::of_fields(doc_fields(*d)) is None,
            },
    {
        let signature = match doc_get_nested(d, "signature_public_key") {
            Some(inner) => inner,
            None => return None,
        };
        let encryption = match doc_get_nested(d, "encryption_public_key") {
            Some(inner) => inner,
            None => return None,
        };
        let signature_public_key = match SignaturePublicKeyFormat::from_document(&signature) {
            Some(x) => x,
            None => return None,
        };
        let encryption_public_key = match EncryptionPublicKeyFormat::from_document(&encryption) {
            Some(x) => x,
            None => return None,
        };
        if doc_len(d) == 2 {
            Some(FullChainPublicKeyFormat { signature_public_key, encryption_public_key })
        } else {
            None
        }
    }
}

/// The label of an armored signature bundle.
pub open spec fn signature_label() -> Seq<char> {
    "CRYPTOPIA SIGNATURE PUBLIC KEY"@
}

/// The label of an armored key-exchange bundle.
pub open spec fn encryption_label() -> Seq<char> {
    "CRYPTOPIA ENCRYPTION PUBLIC KEY"@
}

/// The label of an armored bundle of both public bundles.
pub open spec fn fullchain_label() -> Seq<char> {
    "CRYPTOPIA PUBLIC KEY"@
}

/// The label of an armored master key whose seed is in the clear.
pub open spec fn master_key_label() -> Seq<char> {
    "CRYPTOPIA MASTER KEY"@
}

/// The label of an armored master key whose seed is encrypted.
pub open spec fn encrypted_master_key_label() -> Seq<char> {
    "CRYPTOPIA ENCRYPTED MASTER KEY"@
}

proof fn lemma_labels()
    ensures
        plain_label(signature_label()),
        plain_label(encryption_label()),
        plain_label(fullchain_label()),
        plain_label(master_key_label()),
        plain_label(encrypted_master_key_label()),
        master_key_label() != encrypted_master_key_label(),
{
    reveal_strlit("CRYPTOPIA SIGNATURE PUBLIC KEY");
    reveal_strlit("CRYPTOPIA ENCRYPTION PUBLIC KEY");
    reveal_strlit("CRYPTOPIA PUBLIC KEY");
    reveal_strlit("CRYPTOPIA MASTER KEY");
    reveal_strlit("CRYPTOPIA ENCRYPTED MASTER KEY");
    reveal_with_fuel(label_chars, 34);
}

/// What lies inside an armored text under a wanted label: the contents
/// where the text is well-formed armor with that label.
pub open spec fn armored_contents(text: Seq<char>, label: Seq<char>) -> Result<Seq<u8>, Fault> {
    match armor_parsed(text) {
        None => Err(Fault::Armor),
        Some((found, contents)) => if found == label {
            Ok(contents)
        } else {
            Err(Fault::Structure)
        },
    }
}

/// Takes the contents out of an armored text that carries the wanted label.
pub fn unarmor(pem_data: &str, label: &str) -> (r: Result<Vec<u8>, FormatError>)
    ensures
        match r {
            Ok(contents) => armored_contents(pem_data@, label@) == Ok::<Seq<u8>, Fault>(contents@),
            Err(e) => armored_contents(pem_data@, label@) == Err::<Seq<u8>, Fault>(e.fault()),
        },
{
    match armor_parse(pem_data) {
        Err(e) => Err(FormatError::from(e)),
        Ok((found, contents)) => {
            if found == String::from_str(label) {
                Ok(contents)
            } else {
                Err(FormatError::FailedToDecode(ErrSection::HEADER))
            }
        },
    }
}

/// What a document's binary form decodes to, given what its fields carry.
pub open spec fn decoded_with<V>(
    bytes: Seq<u8>,
    of_fields: spec_fn(Fields) -> Option<V>,
) -> Result<V, Fault> {
    match binary_parsed(bytes) {
        None => Err(Fault::Binary),
        Some(fields) => match of_fields(fields) {
            Some(v) => Ok(v),
            None => Err(Fault::Structure),
        },
    }
}

/// A binary decoding ends in the record that the document carries or in one
/// of two faults: the bytes are no document, or the document is not the
/// record. Nothing else comes of any bytes.
pub proof fn lemma_binary_decoding_is_classified<V>(
    bytes: Seq<u8>,
    of_fields: spec_fn(Fields) -> Option<V>,
)
    ensures
        match decoded_with(bytes, of_fields) {
            Ok(v) => binary_parsed(bytes) is Some && of_fields(binary_parsed(bytes).unwrap())
                == Some(v),
            Err(f) => if binary_parsed(bytes) is None {
                f == Fault::Binary
            } else {
                f == Fault::Structure && of_fields(binary_parsed(bytes).unwrap()) is None
            },
        },
{
}

/// Decoding armored text for a secret record ends in a well-formed record or
/// in one of three faults: the text is no armor, the bytes inside are no
/// document, or label and document are not a master key. Text that is no
/// armor is always reported as that.
pub proof fn lemma_secret_text_decoding_is_classified(text: Seq<char>)
    ensures
        match SecretKeyFormat::text_decoded(text) {
            Ok(v) => v.well_formed(),
            Err(f) => f == Fault::Armor || f == Fault::Binary || f == Fault::Structure,
        },
        armor_parsed(text) is None <==> SecretKeyFormat::text_decoded(text) == Err::<
            SecretKeyView,
            Fault,
        >(Fault::Armor),
{
}

impl EncodablePublic for SignaturePublicKeyFormat {
    type Model = SignaturePublicKeyView;

    open spec fn model(&self) -> SignaturePublicKeyView {
        self@
    }

    open spec fn well_formed(&self) -> bool {
        self@.well_formed()
    }

    open spec fn binary_decoded(bytes: Seq<u8>) -> Result<SignaturePublicKeyView, Fault> {
        decoded_with(bytes, |f: Fields| SignaturePublicKeyView::of_fields(f))
    }

    open spec fn text_decoded(text: Seq<char>) -> Result<SignaturePublicKeyView, Fault> {
        match armored_contents(text, signature_label()) {
            Ok(contents) => Self::binary_decoded(contents),
            Err(f) => Err(f),
        }
    }

    fn encode_bson(&self) -> (bytes: Vec<u8>)
        ensures
            bytes@ == binary_form(self@.fields()),
    {
        let d = self.to_document();
        proof {
            lemma_signature_fields_round_trip(self@);
        }
        doc_to_bytes(&d)
    }

    fn decode_bson(bson_data: &[u8]) -> (r: Result<Self, FormatError>) {
        match doc_from_bytes(bson_data) {
            Err(e) => Err(FormatError::from(e)),
            Ok(d) => match Self::from_document(&d) {
                Some(x) => Ok(x),
                None => Err(FormatError::FailedToDecode(ErrSection::HEADER)),
            },
        }
    }

    fn encode_pem(&self) -> (text: String)
        ensures
            text@ == armor_text(signature_label(), binary_form(self@.fields())),
    {
        let bytes = self.encode_bson();
        proof {
            lemma_labels();
        }
        armor_encode("CRYPTOPIA SIGNATURE PUBLIC KEY", bytes.as_slice())
    }

    fn decode_pem(pem_data: &str) -> (r: Result<Self, FormatError>) {
        match unarmor(pem_data, "CRYPTOPIA SIGNATURE PUBLIC KEY") {
            Err(e) => Err(e),
            Ok(contents) => Self::decode_bson(contents.as_slice()),
        }
    }
}

impl EncodablePublic for EncryptionPublicKeyFormat {
    type Model = EncryptionPublicKeyView;

    open spec fn model(&self) -> EncryptionPublicKeyView {
        self@
    }

    open spec fn well_formed(&self) -> bool {
        self@.well_formed()
    }

    open spec fn binary_decoded(bytes: Seq<u8>) -> Result<EncryptionPublicKeyView, Fault> {
        decoded_with(bytes, |f: Fields| EncryptionPublicKeyView::of_fields(f))
    }

    open spec fn text_decoded(text: Seq<char>) -> Result<EncryptionPublicKeyView, Fault> {
        match armored_contents(text, encryption_label()) {
            Ok(contents) => Self::binary_decoded(contents),
            Err(f) => Err(f),
        }
    }

    fn encode_bson(&self) -> (bytes: Vec<u8>)
        ensures
            bytes@ == binary_form(self@.fields()),
    {
        let d = self.to_document();
        proof {
            lemma_encryption_fields_round_trip(self@);
        }
        doc_to_bytes(&d)
    }

    fn decode_bson(bson_data: &[u8]) -> (r: Result<Self, FormatError>) {
        match doc_from_bytes(bson_data) {
            Err(e) => Err(FormatError::from(e)),
            Ok(d) => match Self::from_document(&d) {
                Some(x) => Ok(x),
                None => Err(FormatError::FailedToDecode(ErrSection::HEADER)),
            },
        }
    }

    fn encode_pem(&self) -> (text: String)
        ensures
            text@ == armor_text(encryption_label(), binary_form(self@.fields())),
    {
        let bytes = self.encode_bson();
        proof {
            lemma_labels();
        }
        armor_encode("CRYPTOPIA ENCRYPTION PUBLIC KEY", bytes.as_slice())
    }

    fn decode_pem(pem_data: &str) -> (r: Result<Self, FormatError>) {
        match unarmor(pem_data, "CRYPTOPIA ENCRYPTION PUBLIC KEY") {
            Err(e) => Err(e),
            Ok(contents) => Self::decode_bson(contents.as_slice()),
        }
    }
}

impl EncodablePublic for FullChainPublicKeyFormat {
    type Model = FullChainPublicKeyView;

    open spec fn model(&self) -> FullChainPublicKeyView {
        self@
    }

    open spec fn well_formed(&self) -> bool {
        self@.well_formed()
    }

    open spec fn binary_decoded(bytes: Seq<u8>) -> Result<FullChainPublicKeyView, Fault> {
        decoded_with(bytes, |f: Fields| FullChainPublicKeyView::of_fields(f))
    }

    open spec fn text_decoded(text: Seq<char>) -> Result<FullChainPublicKeyView, Fault> {
        match armored_contents(text, fullchain_label()) {
            Ok(contents) => Self::binary_decoded(contents),
            Err(f) => Err(f),
        }
    }

    fn encode_bson(&self) -> (bytes: Vec<u8>)
        ensures
            bytes@ == binary_form(self@.fields()),
    {
        let d = self.to_document();
        proof {
            lemma_fullchain_fields_round_trip(self@);
        }
        doc_to_bytes(&d)
    }

    fn decode_bson(bson_data: &[u8]) -> (r: Result<Self, FormatError>) {
        match doc_from_bytes(bson_data) {
            Err(e) => Err(FormatError::from(e)),
            Ok(d) => match Self::from_document(&d) {
                Some(x) => Ok(x),
                None => Err(FormatError::FailedToDecode(ErrSection::HEADER)),
            },
        }
    }

    fn encode_pem(&self) -> (text: String)
        ensures
            text@ == armor_text(fullchain_label(), binary_form(self@.fields())),
    {
        let bytes = self.encode_bson();
        proof {
            lemma_labels();
        }
        armor_encode("CRYPTOPIA PUBLIC KEY", bytes.as_slice())
    }

    fn decode_pem(pem_data: &str) -> (r: Result<Self, FormatError>) {
        match unarmor(pem_data, "CRYPTOPIA PUBLIC KEY") {
            Err(e) => Err(e),
            Ok(contents) => Self::decode_bson(contents.as_slice()),
        }
    }
}


/// Length in bytes of the salt of the passphrase's key derivation.
pub const SALT_LENGTH: usize = 16;

/// Length in bytes of the cipher's nonce.
pub const NONCE_LENGTH: usize = 12;

/// Length in bytes of an encrypted seed: the seed and the cipher's tag.
pub const SEALED_SEED_LENGTH: usize = 48;

/// The largest memory cost, in KiB, that a record may ask for.
pub const MAX_MEMORY_COST: u32 = 1048576;

/// The largest number of passes that a record may ask for.
pub const MAX_TIME_COST: u32 = 1024;

/// The largest number of lanes that a record may ask for.
pub const MAX_PARALLELISM: u32 = 64;

/// How an encrypted seed was protected: what is needed, with the
/// passphrase, to open it again.
pub struct EncryptionMetadata {
    pub kdf_algorithm: KdfAlgorithm,
    pub kdf_salt: Vec<u8>,
    /// Memory cost in KiB.
    pub kdf_memory_cost: u32,
    /// Number of passes.
    pub kdf_time_cost: u32,
    /// Number of lanes.
    pub kdf_parallelism: u32,
    pub cipher_algorithm: CipherAlgorithm,
    pub nonce: Vec<u8>,
}

/// Encryption metadata as contracts see it.
pub struct EncryptionMetadataView {
    pub kdf_algorithm: KdfAlgorithm,
    pub kdf_salt: Seq<u8>,
    pub kdf_memory_cost: u32,
    pub kdf_time_cost: u32,
    pub kdf_parallelism: u32,
    pub cipher_algorithm: CipherAlgorithm,
    pub nonce: Seq<u8>,
}

impl View for EncryptionMetadata {
    type V = EncryptionMetadataView;

    open spec fn view(&self) -> EncryptionMetadataView {
        EncryptionMetadataView {
            kdf_algorithm: self.kdf_algorithm,
            kdf_salt: self.kdf_salt@,
            kdf_memory_cost: self.kdf_memory_cost,
            kdf_time_cost: self.kdf_time_cost,
            kdf_parallelism: self.kdf_parallelism,
            cipher_algorithm: self.cipher_algorithm,
            nonce: self.nonce@,
        }
    }
}

/// Costs within the limits: at least one pass and one lane, at least 8 KiB
/// of memory for each lane, and none above its maximum.
pub open spec fn costs_in_range(memory: int, time: int, parallelism: int) -> bool {
    &&& 1 <= parallelism <= MAX_PARALLELISM
    &&& 1 <= time <= MAX_TIME_COST
    &&& 8 * parallelism <= memory <= MAX_MEMORY_COST
}

impl EncryptionMetadataView {
    /// The salt and the nonce have their lengths and the costs are within
    /// the limits.
    pub open spec fn well_formed(self) -> bool {
        &&& self.kdf_salt.len() == SALT_LENGTH
        &&& self.nonce.len() == NONCE_LENGTH
        &&& costs_in_range(
            self.kdf_memory_cost as int,
            self.kdf_time_cost as int,
            self.kdf_parallelism as int,
        )
    }

    /// The fields of the embedded document that carries the metadata.
    pub open spec fn fields(self) -> Fields {
        Seq::<(Seq<char>, Item)>::empty().push(
            ("kdf_algorithm"@, Item::Int(self.kdf_algorithm.spec_code())),
        ).push(("kdf_salt"@, Item::Bytes(self.kdf_salt))).push(
            ("kdf_memory_cost"@, Item::Int(self.kdf_memory_cost as i64)),
        ).push(("kdf_time_cost"@, Item::Int(self.kdf_time_cost as i64))).push(
            ("kdf_parallelism"@, Item::Int(self.kdf_parallelism as i64)),
        ).push(("cipher_algorithm"@, Item::Int(self.cipher_algorithm.spec_code()))).push(
            ("nonce"@, Item::Bytes(self.nonce)),
        )
    }

    /// The metadata that a document with these fields carries: it has these
    /// seven fields and no other, each of its type, each code in its set,
    /// the costs within the limits, the salt and the nonce of their lengths.
    pub open spec fn of_fields(fields: Fields) -> Option<Self> {
        match (
            int_at(fields, "kdf_algorithm"@),
            bytes_at(fields, "kdf_salt"@),
            int_at(fields, "kdf_memory_cost"@),
            int_at(fields, "kdf_time_cost"@),
            int_at(fields, "kdf_parallelism"@),
            int_at(fields, "cipher_algorithm"@),
            bytes_at(fields, "nonce"@),
        ) {
            (
                Some(kdf),
                Some(kdf_salt),
                Some(memory),
                Some(time),
                Some(parallelism),
                Some(cipher),
                Some(nonce),
            ) => match (KdfAlgorithm::spec_from_code(kdf), CipherAlgorithm::spec_from_code(cipher)) {
                (Some(kdf_algorithm), Some(cipher_algorithm)) => if fields.len() == 7
                    && costs_in_range(memory as int, time as int, parallelism as int)
                    && kdf_salt.len() == SALT_LENGTH && nonce.len() == NONCE_LENGTH {
                    Some(
                        EncryptionMetadataView {
                            kdf_algorithm,
                            kdf_salt,
                            kdf_memory_cost: memory as u32,
                            kdf_time_cost: time as u32,
                            kdf_parallelism: parallelism as u32,
                            cipher_algorithm,
                            nonce,
                        },
                    )
                } else {
                    None
                },
                _ => None,
            },
            _ => None,
        }
    }
}

proof fn lemma_metadata_keys()
    ensures
        plain_key("kdf_algorithm"@),
        plain_key("kdf_salt"@),
        plain_key("kdf_memory_cost"@),
        plain_key("kdf_time_cost"@),
        plain_key("kdf_parallelism"@),
        plain_key("cipher_algorithm"@),
        plain_key("nonce"@),
        "kdf_algorithm"@ != "kdf_salt"@,
        "kdf_algorithm"@ != "kdf_memory_cost"@,
        "kdf_algorithm"@ != "kdf_time_cost"@,
        "kdf_algorithm"@ != "kdf_parallelism"@,
        "kdf_algorithm"@ != "cipher_algorithm"@,
        "kdf_algorithm"@ != "nonce"@,
        "kdf_salt"@ != "kdf_memory_cost"@,
        "kdf_salt"@ != "kdf_time_cost"@,
        "kdf_salt"@ != "kdf_parallelism"@,
        "kdf_salt"@ != "cipher_algorithm"@,
        "kdf_salt"@ != "nonce"@,
        "kdf_memory_cost"@ != "kdf_time_cost"@,
        "kdf_memory_cost"@ != "kdf_parallelism"@,
        "kdf_memory_cost"@ != "cipher_algorithm"@,
        "kdf_memory_cost"@ != "nonce"@,
        "kdf_time_cost"@ != "kdf_parallelism"@,
        "kdf_time_cost"@ != "cipher_algorithm"@,
        "kdf_time_cost"@ != "nonce"@,
        "kdf_parallelism"@ != "cipher_algorithm"@,
        "kdf_parallelism"@ != "nonce"@,
        "cipher_algorithm"@ != "nonce"@,
{
    reveal_strlit("kdf_algorithm");
    reveal_strlit("kdf_salt");
    reveal_strlit("kdf_memory_cost");
    reveal_strlit("kdf_time_cost");
    reveal_strlit("kdf_parallelism");
    reveal_strlit("cipher_algorithm");
    reveal_strlit("nonce");
    reveal_with_fuel(plain_chars, 20);
    assert("kdf_algorithm"@[4] != "kdf_time_cost"@[4]);
    assert("kdf_memory_cost"@[4] != "kdf_parallelism"@[4]);
}

/// Well-formed metadata is read back from its own fields, which have the
/// shape of a flat record.
pub proof fn lemma_metadata_fields_round_trip(v: EncryptionMetadataView)
    requires
        v.well_formed(),
    ensures
        EncryptionMetadataView::of_fields(v.fields()) == Some(v),
        flat_fields(v.fields()),
{
    broadcast use lemma_lookup_push;

    lemma_metadata_keys();
}

impl EncryptionMetadata {
    /// Whether the record is well formed.
    pub fn is_well_formed(&self) -> (b: bool)
        ensures
            b == self@.well_formed(),
    {
        let lengths_fit = self.kdf_salt.len() == SALT_LENGTH && self.nonce.len() == NONCE_LENGTH;
        let lanes_fit = 1 <= self.kdf_parallelism && self.kdf_parallelism <= MAX_PARALLELISM;
        let passes_fit = 1 <= self.kdf_time_cost && self.kdf_time_cost <= MAX_TIME_COST;
        lengths_fit && lanes_fit && passes_fit && 8 * self.kdf_parallelism <= self.kdf_memory_cost
            && self.kdf_memory_cost <= MAX_MEMORY_COST
    }

    /// The embedded document that carries the metadata.
    pub fn to_document(&self) -> (d: Document)
        ensures
            doc_fields(d) == self@.fields(),
    {
        broadcast use lemma_lookup_push;

        proof {
            lemma_metadata_keys();
        }
        let mut d = doc_new();
        doc_put_int(&mut d, "kdf_algorithm", self.kdf_algorithm.code());
        doc_put_bytes(&mut d, "kdf_salt", self.kdf_salt.as_slice());
        doc_put_int(&mut d, "kdf_memory_cost", self.kdf_memory_cost as i64);
        doc_put_int(&mut d, "kdf_time_cost", self.kdf_time_cost as i64);
        doc_put_int(&mut d, "kdf_parallelism", self.kdf_parallelism as i64);
        doc_put_int(&mut d, "cipher_algorithm", self.cipher_algorithm.code());
        doc_put_bytes(&mut d, "nonce", self.nonce.as_slice());
        d
    }

    /// The metadata that a document carries, if it carries any.
    pub fn from_document(d: &Document) -> (r: Option<Self>)
        ensures
            match r {
                Some(x) => EncryptionMetadataView::of_fields(doc_fields(*d)) == Some(x@),
                None => EncryptionMetadataView::of_fields(doc_fields(*d)) is None,
            },
    {
        let kdf = match doc_get_int(d, "kdf_algorithm") {
            Some(c) => c,
            None => return None,
        };
        let kdf_salt = match doc_get_bytes(d, "kdf_salt") {
            Some(b) => b,
            None => return None,
        };
        let memory = match doc_get_int(d, "kdf_memory_cost") {
            Some(c) => c,
            None => return None,
        };
        let time = match doc_get_int(d, "kdf_time_cost") {
            Some(c) => c,
            None => return None,
        };
        let parallelism = match doc_get_int(d, "kdf_parallelism") {
            Some(c) => c,
            None => return None,
        };
        let cipher = match doc_get_int(d, "cipher_algorithm") {
            Some(c) => c,
            None => return None,
        };
        let nonce = match doc_get_bytes(d, "nonce") {
            Some(b) => b,
            None => return None,
        };
        let kdf_algorithm = match KdfAlgorithm::from_code(kdf) {
            Some(a) => a,
            None => return None,
        };
        let cipher_algorithm = match CipherAlgorithm::from_code(cipher) {
            Some(a) => a,
            None => return None,
        };
        if doc_len(d) != 7 {
            return None;
        }
        if parallelism < 1 || parallelism > MAX_PARALLELISM as i64 || time < 1 || time
            > MAX_TIME_COST as i64 || memory < 8 * parallelism || memory > MAX_MEMORY_COST as i64 {
            return None;
        }
        if kdf_salt.len() != SALT_LENGTH || nonce.len() != NONCE_LENGTH {
            return None;
        }
        Some(
            EncryptionMetadata {
                kdf_algorithm,
                kdf_salt,
                kdf_memory_cost: memory as u32,
                kdf_time_cost: time as u32,
                kdf_parallelism: parallelism as u32,
                cipher_algorithm,
                nonce,
            },
        )
    }
}

/// The persisted form of a master key: its four algorithms and its seed,
/// in the clear or encrypted.
pub struct SecretKeyFormat {
    pub ec_algorithm: ECAlgorithm,
    pub pq_algorithm: PQAlgorithm,
    pub dh_algorithm: DHAlgorithm,
    pub kem_algorithm: KEMAlgorithm,
    /// The seed itself where `encryption_metadata` is absent, else its
    /// ciphertext.
    pub master_seed: SecretBytes,
    pub encryption_metadata: Option<EncryptionMetadata>,
}

/// A secret record as contracts see it.
pub struct SecretKeyView {
    pub ec_algorithm: ECAlgorithm,
    pub pq_algorithm: PQAlgorithm,
    pub dh_algorithm: DHAlgorithm,
    pub kem_algorithm: KEMAlgorithm,
    pub master_seed: Seq<u8>,
    pub encryption_metadata: Option<EncryptionMetadataView>,
}

impl View for SecretKeyFormat {
    type V = SecretKeyView;

    open spec fn view(&self) -> SecretKeyView {
        SecretKeyView {
            ec_algorithm: self.ec_algorithm,
            pq_algorithm: self.pq_algorithm,
            dh_algorithm: self.dh_algorithm,
            kem_algorithm: self.kem_algorithm,
            master_seed: self.master_seed@,
            encryption_metadata: match self.encryption_metadata {
                Some(m) => Some(m@),
                None => None,
            },
        }
    }
}

impl SecretKeyView {
    /// A seed in the clear has the length of a seed; an encrypted one has
    /// the length of a sealed seed and well-formed metadata.
    pub open spec fn well_formed(self) -> bool {
        match self.encryption_metadata {
            None => self.master_seed.len() == SEED_LENGTH,
            Some(m) => m.well_formed() && self.master_seed.len() == SEALED_SEED_LENGTH,
        }
    }

    /// The five fields that every secret record has.
    pub open spec fn base_fields(self) -> Fields {
        Seq::<(Seq<char>, Item)>::empty().push(
            ("ec_algorithm"@, Item::Int(self.ec_algorithm.spec_code())),
        ).push(("pq_algorithm"@, Item::Int(self.pq_algorithm.spec_code()))).push(
            ("dh_algorithm"@, Item::Int(self.dh_algorithm.spec_code())),
        ).push(("kem_algorithm"@, Item::Int(self.kem_algorithm.spec_code()))).push(
            ("master_seed"@, Item::Bytes(self.master_seed)),
        )
    }

    /// The fields of the document that carries the record: the five, and
    /// for an encrypted seed the metadata as an embedded document.
    pub open spec fn fields(self) -> Fields {
        match self.encryption_metadata {
            None => self.base_fields(),
            Some(m) => self.base_fields().push(("encryption_metadata"@, Item::Nested(m.fields()))),
        }
    }

    /// The metadata that a document with these fields carries: none where
    /// it has five fields; where it has six, what the embedded document
    /// under `encryption_metadata` carries. The outer `None` says that the
    /// fields carry no record.
    pub open spec fn metadata_of_fields(fields: Fields) -> Option<Option<EncryptionMetadataView>> {
        if fields.len() == 5 {
            Some(None)
        } else if fields.len() == 6 {
            match nested_at(fields, "encryption_metadata"@) {
                Some(inner) => match EncryptionMetadataView::of_fields(inner) {
                    Some(m) => Some(Some(m)),
                    None => None,
                },
                None => None,
            }
        } else {
            None
        }
    }

    /// The record that a document with these fields carries: it has the five
    /// fields, each of its type and each code in its set, no field besides
    /// them but the metadata, and a seed of the length that goes with it.
    pub open spec fn of_fields(fields: Fields) -> Option<Self> {
        match (
            int_at(fields, "ec_algorithm"@),
            int_at(fields, "pq_algorithm"@),
            int_at(fields, "dh_algorithm"@),
            int_at(fields, "kem_algorithm"@),
            bytes_at(fields, "master_seed"@),
            Self::metadata_of_fields(fields),
        ) {
            (Some(ec), Some(pq), Some(dh), Some(kem), Some(master_seed), Some(encryption_metadata)) => {
                match (
                    ECAlgorithm::spec_from_code(ec),
                    PQAlgorithm::spec_from_code(pq),
                    DHAlgorithm::spec_from_code(dh),
                    KEMAlgorithm::spec_from_code(kem),
                ) {
                    (
                        Some(ec_algorithm),
                        Some(pq_algorithm),
                        Some(dh_algorithm),
                        Some(kem_algorithm),
                    ) => {
                        let v = SecretKeyView {
                            ec_algorithm,
                            pq_algorithm,
                            dh_algorithm,
                            kem_algorithm,
                            master_seed,
                            encryption_metadata,
                        };
                        if v.well_formed() {
                            Some(v)
                        } else {
                            None
                        }
                    },
                    _ => None,
                }
            },
            _ => None,
        }
    }
}

proof fn lemma_secret_keys()
    ensures
        plain_key("ec_algorithm"@),
        plain_key("pq_algorithm"@),
        plain_key("dh_algorithm"@),
        plain_key("kem_algorithm"@),
        plain_key("master_seed"@),
        plain_key("encryption_metadata"@),
        "ec_algorithm"@ != "pq_algorithm"@,
        "ec_algorithm"@ != "dh_algorithm"@,
        "ec_algorithm"@ != "kem_algorithm"@,
        "ec_algorithm"@ != "master_seed"@,
        "ec_algorithm"@ != "encryption_metadata"@,
        "pq_algorithm"@ != "dh_algorithm"@,
        "pq_algorithm"@ != "kem_algorithm"@,
        "pq_algorithm"@ != "master_seed"@,
        "pq_algorithm"@ != "encryption_metadata"@,
        "dh_algorithm"@ != "kem_algorithm"@,
        "dh_algorithm"@ != "master_seed"@,
        "dh_algorithm"@ != "encryption_metadata"@,
        "kem_algorithm"@ != "master_seed"@,
        "kem_algorithm"@ != "encryption_metadata"@,
        "master_seed"@ != "encryption_metadata"@,
{
    reveal_strlit("ec_algorithm");
    reveal_strlit("pq_algorithm");
    reveal_strlit("dh_algorithm");
    reveal_strlit("kem_algorithm");
    reveal_strlit("master_seed");
    reveal_strlit("encryption_metadata");
    reveal_with_fuel(plain_chars, 24);
    assert("ec_algorithm"@[0] != "pq_algorithm"@[0]);
    assert("ec_algorithm"@[0] != "dh_algorithm"@[0]);
    assert("pq_algorithm"@[0] != "dh_algorithm"@[0]);
}

/// A well-formed secret record is read back from its own fields, which have
/// the shape of a record.
pub proof fn lemma_secret_fields_round_trip(v: SecretKeyView)
    requires
        v.well_formed(),
    ensures
        SecretKeyView::of_fields(v.fields()) == Some(v),
        record_fields(v.fields()),
{
    broadcast use lemma_lookup_push;

    lemma_secret_keys();
    match v.encryption_metadata {
        Some(m) => {
            lemma_metadata_fields_round_trip(m);
        },
        None => {},
    }
}

impl SecretKeyFormat {
    /// Whether the record is well formed.
    pub fn is_well_formed(&self) -> (b: bool)
        ensures
            b == self@.well_formed(),
    {
        match &self.encryption_metadata {
            None => self.master_seed.len() == SEED_LENGTH,
            Some(m) => m.is_well_formed() && self.master_seed.len() == SEALED_SEED_LENGTH,
        }
    }

    /// The document that carries the record.
    pub fn to_document(&self) -> (d: Document)
        ensures
            doc_fields(d) == self@.fields(),
    {
        broadcast use lemma_lookup_push;

        proof {
            lemma_secret_keys();
        }
        let mut d = doc_new();
        doc_put_int(&mut d, "ec_algorithm", self.ec_algorithm.code());
        doc_put_int(&mut d, "pq_algorithm", self.pq_algorithm.code());
        doc_put_int(&mut d, "dh_algorithm", self.dh_algorithm.code());
        doc_put_int(&mut d, "kem_algorithm", self.kem_algorithm.code());
        doc_put_bytes(&mut d, "master_seed", self.master_seed.expose().as_slice());
        match &self.encryption_metadata {
            Some(m) => {
                doc_put_nested(&mut d, "encryption_metadata", m.to_document());
            },
            None => {},
        }
        d
    }

    /// The record that a document carries, if it carries one.
    pub fn from_document(d: &Document) -> (r: Option<Self>)
        ensures
            match r {
                Some(x) => SecretKeyView::of_fields(doc_fields(*d)) == Some(x@),
                None => SecretKeyView::of_fields(doc_fields(*d)) is None,
            },
    {
        let ec = match doc_get_int(d, "ec_algorithm") {
            Some(c) => c,
            None => return None,
        };
        let pq = match doc_get_int(d, "pq_algorithm") {
            Some(c) => c,
            None => return None,
        };
        let dh = match doc_get_int(d, "dh_algorithm") {
            Some(c) => c,
            None => return None,
        };
        let kem = match doc_get_int(d, "kem_algorithm") {
            Some(c) => c,
            None => return None,
        };
        let master_seed = match doc_get_bytes(d, "master_seed") {
            Some(b) => SecretBytes::new(b),
            None => return None,
        };
        let count = doc_len(d);
        let encryption_metadata = if count == 5 {
            None
        } else if count == 6 {
            let inner = match doc_get_nested(d, "encryption_metadata") {
                Some(inner) => inner,
                None => return None,
            };
            match EncryptionMetadata::from_document(&inner) {
                Some(m) => Some(m),
                None => return None,
            }
        } else {
            return None;
        };
        let ec_algorithm = match ECAlgorithm::from_code(ec) {
            Some(a) => a,
            None => return None,
        };
        let pq_algorithm = match PQAlgorithm::from_code(pq) {
            Some(a) => a,
            None => return None,
        };
        let dh_algorithm = match DHAlgorithm::from_code(dh) {
            Some(a) => a,
            None => return None,
        };
        let kem_algorithm = match KEMAlgorithm::from_code(kem) {
            Some(a) => a,
            None => return None,
        };
        let x = SecretKeyFormat {
            ec_algorithm,
            pq_algorithm,
            dh_algorithm,
            kem_algorithm,
            master_seed,
            encryption_metadata,
        };
        if x.is_well_formed() {
            Some(x)
        } else {
            None
        }
    }
}

impl EncodableSecret for SecretKeyFormat {
    type Model = SecretKeyView;

    open spec fn model(&self) -> SecretKeyView {
        self@
    }

    open spec fn well_formed(&self) -> bool {
        self@.well_formed()
    }

    open spec fn binary_decoded(bytes: Seq<u8>) -> Result<SecretKeyView, Fault> {
        decoded_with(bytes, |f: Fields| SecretKeyView::of_fields(f))
    }

    /// The armor must carry one of the two master-key labels, and the label
    /// must say what the record inside is: encrypted or in the clear.
    open spec fn text_decoded(text: Seq<char>) -> Result<SecretKeyView, Fault> {
        match armor_parsed(text) {
            None => Err(Fault::Armor),
            Some((label, contents)) => if label != master_key_label() && label
                != encrypted_master_key_label() {
                Err(Fault::Structure)
            } else {
                match Self::binary_decoded(contents) {
                    Err(f) => Err(f),
                    Ok(v) => if (label == encrypted_master_key_label())
                        == v.encryption_metadata.is_some() {
                        Ok(v)
                    } else {
                        Err(Fault::Structure)
                    },
                }
            },
        }
    }

    fn encode_bson(&self) -> (bytes: SecretBytes)
        ensures
            bytes@ == binary_form(self@.fields()),
    {
        let d = self.to_document();
        proof {
            lemma_secret_fields_round_trip(self@);
        }
        let bytes = SecretBytes::new(doc_to_bytes(&d));
        doc_wipe(d, "master_seed");
        bytes
    }

    fn decode_bson(bson_data: &SecretBytes) -> (r: Result<Self, FormatError>) {
        match doc_from_bytes(bson_data.expose().as_slice()) {
            Err(e) => Err(FormatError::from(e)),
            Ok(d) => {
                let record = Self::from_document(&d);
                doc_wipe(d, "master_seed");
                match record {
                    Some(x) => Ok(x),
                    None => Err(FormatError::FailedToDecode(ErrSection::HEADER)),
                }
            },
        }
    }

    fn encode_pem(&self) -> (text: SecretText)
        ensures
            text@ == armor_text(
                if self@.encryption_metadata.is_some() {
                    encrypted_master_key_label()
                } else {
                    master_key_label()
                },
                binary_form(self@.fields()),
            ),
    {
        let bytes = self.encode_bson();
        proof {
            lemma_labels();
        }
        let text = if self.encryption_metadata.is_some() {
            armor_encode("CRYPTOPIA ENCRYPTED MASTER KEY", bytes.expose().as_slice())
        } else {
            armor_encode("CRYPTOPIA MASTER KEY", bytes.expose().as_slice())
        };
        SecretText::new(text)
    }

    fn decode_pem(pem_data: SecretText) -> (r: Result<Self, FormatError>) {
        let (label, contents) = match armor_parse(pem_data.expose().as_str()) {
            Err(e) => return Err(FormatError::from(e)),
            Ok(parts) => parts,
        };
        let contents = SecretBytes::new(contents);
        let encrypted = label == String::from_str("CRYPTOPIA ENCRYPTED MASTER KEY");
        if !encrypted && !(label == String::from_str("CRYPTOPIA MASTER KEY")) {
            return Err(FormatError::FailedToDecode(ErrSection::HEADER));
        }
        let x = match Self::decode_bson(&contents) {
            Err(e) => return Err(e),
            Ok(x) => x,
        };
        if encrypted == x.encryption_metadata.is_some() {
            Ok(x)
        } else {
            Err(FormatError::FailedToDecode(ErrSection::HEADER))
        }
    }
}

} // verus!
