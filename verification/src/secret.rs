//! Secret-protected buffers.
//!
//! Secret bytes and secret text are held in `secrecy::Secret`, which wipes its
//! contents when it is released. Contracts speak of what such a buffer holds
//! through [`secret_bytes`] and [`secret_text`].

use secrecy::ExposeSecret;
use secrecy::Secret;
use vstd::prelude::*;

verus! {

/// A `secrecy::Secret<Vec<u8>>`: a byte buffer that is wiped when it is
/// released.
#[verifier::external_body]
pub struct SecretBytes {
    inner: Secret<Vec<u8>>,
}

/// A `secrecy::Secret<String>`: a string that is wiped when it is released.
#[verifier::external_body]
pub struct SecretText {
    inner: Secret<String>,
}

/// The bytes that a secret byte buffer holds.
pub uninterp spec fn secret_bytes(s: SecretBytes) -> Seq<u8>;

/// The characters that a secret string holds.
pub uninterp spec fn secret_text(s: SecretText) -> Seq<char>;

impl View for SecretBytes {
    type V = Seq<u8>;

    open spec fn view(&self) -> Seq<u8> {
        secret_bytes(*self)
    }
}

impl View for SecretText {
    type V = Seq<char>;

    open spec fn view(&self) -> Seq<char> {
        secret_text(*self)
    }
}

/// `secrecy::Secret::new` on a byte vector: the buffer takes the vector over
/// as it is, so it holds exactly the bytes handed in.
#[verifier::external_body]
pub(crate) fn seal_bytes(bytes: Vec<u8>) -> (s: SecretBytes)
    ensures
        secret_bytes(s) == bytes@,
{
    SecretBytes { inner: Secret::new(bytes) }
}

/// `secrecy::ExposeSecret::expose_secret` on a secret byte buffer: a
/// reference to the vector inside, unchanged.
#[verifier::external_body]
pub(crate) fn open_bytes(s: &SecretBytes) -> (bytes: &Vec<u8>)
    ensures
        bytes@ == secret_bytes(*s),
{
    s.inner.expose_secret()
}

/// `secrecy::Secret::new` on a string: the buffer takes the string over as it
/// is, so it holds exactly the characters handed in.
#[verifier::external_body]
pub(crate) fn seal_text(text: String) -> (s: SecretText)
    ensures
        secret_text(s) == text@,
{
    SecretText { inner: Secret::new(text) }
}

/// `secrecy::ExposeSecret::expose_secret` on a secret string: a reference to
/// the string inside, unchanged.
#[verifier::external_body]
pub(crate) fn open_text(s: &SecretText) -> (text: &String)
    ensures
        text@ == secret_text(*s),
{
    s.inner.expose_secret()
}

/// Copies a byte slice into a fresh vector.
pub fn copy_bytes(bytes: &[u8]) -> (out: Vec<u8>)
    ensures
        out@ == bytes@,
{
    let mut out: Vec<u8> = Vec::new();
    let mut i: usize = 0;
    while i < bytes.len()
        invariant
            i <= bytes@.len(),
            out@ == bytes@.subrange(0, i as int),
        decreases bytes@.len() - i,
    {
        out.push(bytes[i]);
        i += 1;
        assert(out@ == bytes@.subrange(0, i as int));
    }
    assert(bytes@.subrange(0, bytes@.len() as int) == bytes@);
    out
}

impl SecretBytes {
    /// Takes a byte vector into a secret buffer.
    pub fn new(bytes: Vec<u8>) -> (s: Self)
        ensures
            s@ == bytes@,
    {
        seal_bytes(bytes)
    }

    /// The bytes inside, for as long as the reference lives.
    pub fn expose(&self) -> (bytes: &Vec<u8>)
        ensures
            bytes@ == self@,
    {
        open_bytes(self)
    }

    /// A second secret buffer with the same bytes.
    pub fn duplicate(&self) -> (out: Self)
        ensures
            out@ == self@,
    {
        seal_bytes(copy_bytes(open_bytes(self).as_slice()))
    }

    /// The number of bytes inside.
    pub fn len(&self) -> (n: usize)
        ensures
            n == self@.len(),
    {
        open_bytes(self).len()
    }
}

impl SecretText {
    /// Takes a string into a secret buffer.
    pub fn new(text: String) -> (s: Self)
        ensures
            s@ == text@,
    {
        seal_text(text)
    }

    /// The string inside, for as long as the reference lives.
    pub fn expose(&self) -> (text: &String)
        ensures
            text@ == self@,
    {
        open_text(self)
    }
}

} // verus!
