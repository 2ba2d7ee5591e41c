//! Keyed documents and their binary form.
//!
//! A persisted record is a `bson::Document`: an ordered list of keyed fields.
//! The crate `bson` builds, serialises and parses it; this module states what
//! each of those calls does over [`doc_fields`], the list of fields a document
//! holds, and says which lists the records of this library are made of.

use crate::secret::copy_bytes;
use bson::spec::BinarySubtype;
use bson::{Binary, Bson, Document};
use vstd::prelude::*;

verus! {

/// `bson::Document`, seen through [`doc_fields`].
#[verifier::external_type_specification]
#[verifier::external_body]
pub struct ExDocument(Document);

/// `bson::de::Error`, carried through as it came.
#[verifier::external_type_specification]
#[verifier::external_body]
pub struct ExBinaryError(bson::de::Error);

/// What one field of a document holds, as far as this library reads it.
pub enum Item {
    /// A 64-bit integer.
    Int(i64),
    /// Binary data of the generic subtype.
    Bytes(Seq<u8>),
    /// An embedded document.
    Nested(Seq<(Seq<char>, Item)>),
    /// A value of any other type.
    Other,
}

/// A value that this library puts into a document or takes out of one.
pub enum Value {
    Int(i64),
    Bytes(Vec<u8>),
    Nested(Document),
}

impl View for Value {
    type V = Item;

    open spec fn view(&self) -> Item {
        match self {
            Value::Int(v) => Item::Int(*v),
            Value::Bytes(b) => Item::Bytes(b@),
            Value::Nested(d) => Item::Nested(doc_fields(*d)),
        }
    }
}

/// The fields of a document, in the order in which it holds them.
pub type Fields = Seq<(Seq<char>, Item)>;

/// The fields that a document holds, in its own order. No key occurs twice.
pub uninterp spec fn doc_fields(d: Document) -> Seq<(Seq<char>, Item)>;

/// The bytes that `bson::to_vec` gives for a document with these fields.
pub uninterp spec fn binary_form(fields: Seq<(Seq<char>, Item)>) -> Seq<u8>;

/// The fields of the document that `bson::from_slice` reads from these bytes,
/// or `None` where it reports an error.
pub uninterp spec fn binary_parsed(bytes: Seq<u8>) -> Option<Seq<(Seq<char>, Item)>>;

/// The value under a key, if the key occurs.
pub open spec fn lookup(fields: Fields, key: Seq<char>) -> Option<Item>
    decreases fields.len(),
{
    if fields.len() == 0 {
        None
    } else if fields.last().0 == key {
        Some(fields.last().1)
    } else {
        lookup(fields.drop_last(), key)
    }
}

/// The integer under a key, if the key occurs and holds one.
pub open spec fn int_at(fields: Fields, key: Seq<char>) -> Option<i64> {
    match lookup(fields, key) {
        Some(Item::Int(v)) => Some(v),
        _ => None,
    }
}

/// The binary data under a key, if the key occurs and holds some.
pub open spec fn bytes_at(fields: Fields, key: Seq<char>) -> Option<Seq<u8>> {
    match lookup(fields, key) {
        Some(Item::Bytes(b)) => Some(b),
        _ => None,
    }
}

/// The embedded document under a key, if the key occurs and holds one.
pub open spec fn nested_at(fields: Fields, key: Seq<char>) -> Option<Fields> {
    match lookup(fields, key) {
        Some(Item::Nested(f)) => Some(f),
        _ => None,
    }
}

/// Looking a key up in a list that ends with a field under that key finds
/// that field; under another key, it looks in the rest.
pub broadcast proof fn lemma_lookup_push(
    fields: Fields,
    key: Seq<char>,
    item: Item,
    wanted: Seq<char>,
)
    ensures
        #[trigger] lookup(fields.push((key, item)), wanted) == if key == wanted {
            Some(item)
        } else {
            lookup(fields, wanted)
        },
{
    let extended = fields.push((key, item));
    assert(extended.last() == (key, item));
    assert(extended.drop_last() == fields);
}

/// Whether the first `n` characters are lower-case letters or underscores.
pub open spec fn plain_chars(key: Seq<char>, n: nat) -> bool
    decreases n,
{
    n == 0 || (('a' <= key[n - 1] <= 'z' || key[n - 1] == '_') && plain_chars(key, (n - 1) as nat))
}

/// A key made of 1 to 64 lower-case letters and underscores.
pub open spec fn plain_key(key: Seq<char>) -> bool {
    0 < key.len() <= 64 && plain_chars(key, key.len())
}

/// An integer, or at most 65536 bytes of binary data.
pub open spec fn plain_item(item: Item) -> bool {
    match item {
        Item::Int(_) => true,
        Item::Bytes(b) => b.len() <= 65536,
        _ => false,
    }
}

/// At most 8 fields with plain keys and plain values.
pub open spec fn flat_fields(fields: Fields) -> bool {
    &&& fields.len() <= 8
    &&& forall|i: int|
        0 <= i < fields.len() ==> plain_key((#[trigger] fields[i]).0) && plain_item(fields[i].1)
}

/// At most 8 fields with plain keys, each a plain value or an embedded
/// document of plain values. Every record of this library has this shape.
pub open spec fn record_fields(fields: Fields) -> bool {
    &&& fields.len() <= 8
    &&& forall|i: int|
        0 <= i < fields.len() ==> {
            &&& plain_key((#[trigger] fields[i]).0)
            &&& match fields[i].1 {
                Item::Nested(inner) => flat_fields(inner),
                item => plain_item(item),
            }
        }
}

/// `bson::Document::new`: a document without fields.
#[verifier::external_body]
pub(crate) fn doc_new() -> (d: Document)
    ensures
        doc_fields(d) == Seq::<(Seq<char>, Item)>::empty(),
{
    Document::new()
}

/// `bson::Document::insert`: a key that the document does not hold yet is
/// appended with its value, which is a 64-bit integer, generic binary data
/// or an embedded document.
#[verifier::external_body]
pub(crate) fn doc_put(d: &mut Document, key: &str, value: Value)
    requires
        lookup(doc_fields(*old(d)), key@) is None,
    ensures
        doc_fields(*final(d)) == doc_fields(*old(d)).push((key@, value@)),
{
    d.insert(
        key,
        match value {
            Value::Int(v) => Bson::Int64(v),
            Value::Bytes(bytes) => Bson::Binary(Binary { subtype: BinarySubtype::Generic, bytes }),
            Value::Nested(inner) => Bson::Document(inner),
        },
    );
}

/// `bson::Document::get`: a copy of the value under a key, where the key
/// occurs and holds a 64-bit integer, generic binary data or an embedded
/// document; nothing where the key is missing or holds a value of another
/// type.
#[verifier::external_body]
pub(crate) fn doc_get(d: &Document, key: &str) -> (r: Option<Value>)
    ensures
        match lookup(doc_fields(*d), key@) {
            None | Some(Item::Other) => r is None,
            Some(item) => r is Some && r.unwrap()@ == item,
        },
{
    match d.get(key) {
        Some(Bson::Int64(v)) => Some(Value::Int(*v)),
        Some(Bson::Binary(Binary { subtype: BinarySubtype::Generic, bytes })) => Some(
            Value::Bytes(bytes.clone()),
        ),
        Some(Bson::Document(inner)) => Some(Value::Nested(inner.clone())),
        _ => None,
    }
}

/// `bson::Document::len`: the number of fields.
#[verifier::external_body]
pub(crate) fn doc_len(d: &Document) -> (n: usize)
    ensures
        n == doc_fields(*d).len(),
{
    d.len()
}

/// `bson::to_vec` on a document of the shape [`record_fields`]: it succeeds,
/// its bytes depend on the fields alone, and `bson::from_slice` reads the same
/// fields back from them.
#[verifier::external_body]
pub(crate) fn doc_to_bytes(d: &Document) -> (bytes: Vec<u8>)
    requires
        record_fields(doc_fields(*d)),
    ensures
        bytes@ == binary_form(doc_fields(*d)),
        binary_parsed(bytes@) == Some(doc_fields(*d)),
{
    bson::to_vec(d).unwrap_or_default()
}

/// `bson::from_slice` for a document: the document that the bytes encode, or
/// the crate's error where they encode none.
#[verifier::external_body]
pub(crate) fn doc_from_bytes(bytes: &[u8]) -> (r: Result<Document, bson::de::Error>)
    ensures
        match r {
            Ok(d) => binary_parsed(bytes@) == Some(doc_fields(d)),
            Err(_) => binary_parsed(bytes@) is None,
        },
{
    bson::from_slice::<Document>(bytes)
}

/// `zeroize::Zeroize::zeroize` on the binary data that
/// `bson::Document::get_binary_generic_mut` finds under a key, before the
/// document is released: the copy of a secret that a document was given
/// does not outlive it.
#[verifier::external_body]
pub(crate) fn doc_wipe(mut d: Document, key: &str) {
    if let Ok(bytes) = d.get_binary_generic_mut(key) {
        zeroize::Zeroize::zeroize(bytes);
    }
}

/// What `bson::de::Error` prints of itself.
#[verifier::external_body]
pub(crate) fn binary_error_text(e: &bson::de::Error) -> String {
    format!("{}", e)
}

/// Appends a 64-bit integer under a key that the document does not hold.
pub(crate) fn doc_put_int(d: &mut Document, key: &str, value: i64)
    requires
        lookup(doc_fields(*old(d)), key@) is None,
    ensures
        doc_fields(*final(d)) == doc_fields(*old(d)).push((key@, Item::Int(value))),
{
    doc_put(d, key, Value::Int(value));
}

/// Appends a copy of the bytes, as generic binary data, under a key that
/// the document does not hold.
pub(crate) fn doc_put_bytes(d: &mut Document, key: &str, value: &[u8])
    requires
        lookup(doc_fields(*old(d)), key@) is None,
    ensures
        doc_fields(*final(d)) == doc_fields(*old(d)).push((key@, Item::Bytes(value@))),
{
    doc_put(d, key, Value::Bytes(copy_bytes(value)));
}

/// Embeds a document under a key that the document does not hold.
pub(crate) fn doc_put_nested(d: &mut Document, key: &str, value: Document)
    requires
        lookup(doc_fields(*old(d)), key@) is None,
    ensures
        doc_fields(*final(d)) == doc_fields(*old(d)).push((key@, Item::Nested(doc_fields(value)))),
{
    doc_put(d, key, Value::Nested(value));
}

/// The integer under a key; nothing where the key is missing or holds a
/// value of another type.
pub(crate) fn doc_get_int(d: &Document, key: &str) -> (r: Option<i64>)
    ensures
        r == int_at(doc_fields(*d), key@),
{
    match doc_get(d, key) {
        Some(Value::Int(v)) => Some(v),
        _ => None,
    }
}

/// The generic binary data under a key; nothing where the key is missing or
/// holds something else.
pub(crate) fn doc_get_bytes(d: &Document, key: &str) -> (r: Option<Vec<u8>>)
    ensures
        match bytes_at(doc_fields(*d), key@) {
            Some(b) => r is Some && r.unwrap()@ == b,
            None => r is None,
        },
{
    match doc_get(d, key) {
        Some(Value::Bytes(b)) => Some(b),
        _ => None,
    }
}

/// The document embedded under a key; nothing where the key is missing or
/// holds something else.
pub(crate) fn doc_get_nested(d: &Document, key: &str) -> (r: Option<Document>)
    ensures
        match nested_at(doc_fields(*d), key@) {
            Some(f) => r is Some && doc_fields(r.unwrap()) == f,
            None => r is None,
        },
{
    match doc_get(d, key) {
        Some(Value::Nested(inner)) => Some(inner),
        _ => None,
    }
}

} // verus!
