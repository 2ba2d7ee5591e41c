//! Text armor: a record's bytes between labelled BEGIN and END lines.
//!
//! The crate `pem` writes and reads the armor. This module states what its two
//! calls do over [`armor_text`] and [`armor_parsed`].

use pem::PemError;
use vstd::prelude::*;

verus! {

/// `pem::PemError`, carried through as it came.
#[verifier::external_type_specification]
#[verifier::external_body]
pub struct ExPemError(PemError);

/// The text that `pem::encode` gives for a label and contents.
pub uninterp spec fn armor_text(label: Seq<char>, contents: Seq<u8>) -> Seq<char>;

/// The label and contents that `pem::parse` reads from a text, or `None`
/// where it reports an error.
pub uninterp spec fn armor_parsed(text: Seq<char>) -> Option<(Seq<char>, Seq<u8>)>;

/// Whether the first `n` characters are upper-case letters or spaces.
pub open spec fn label_chars(label: Seq<char>, n: nat) -> bool
    decreases n,
{
    n == 0 || (('A' <= label[n - 1] <= 'Z' || label[n - 1] == ' ') && label_chars(
        label,
        (n - 1) as nat,
    ))
}

/// A label made of one or more upper-case letters and spaces.
pub open spec fn plain_label(label: Seq<char>) -> bool {
    0 < label.len() && label_chars(label, label.len())
}

/// `pem::encode` on `pem::Pem::new(label, contents)`: the text depends on the
/// label and the contents alone, and for a label of upper-case letters and
/// spaces `pem::parse` reads the same label and contents back from it.
#[verifier::external_body]
pub(crate) fn armor_encode(label: &str, contents: &[u8]) -> (text: String)
    requires
        plain_label(label@),
    ensures
        text@ == armor_text(label@, contents@),
        armor_parsed(text@) == Some((label@, contents@)),
{
    pem::encode(&pem::Pem::new(label, contents))
}

/// `pem::parse`: the label and the contents of the first armored block in the
/// text, or the crate's error where it finds none that is well formed.
#[verifier::external_body]
pub(crate) fn armor_parse(text: &str) -> (r: Result<(String, Vec<u8>), PemError>)
    ensures
        match r {
            Ok((label, contents)) => armor_parsed(text@) == Some((label@, contents@)),
            Err(_) => armor_parsed(text@) is None,
        },
{
    match pem::parse(text) {
        Ok(block) => Ok((block.tag().to_string(), block.into_contents())),
        Err(e) => Err(e),
    }
}

/// What `pem::PemError` prints of itself.
#[verifier::external_body]
pub(crate) fn armor_error_text(e: &PemError) -> String {
    format!("{}", e)
}

} // verus!
