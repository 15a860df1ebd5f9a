//! Trusted bridge to the section decoders.
//!
//! Manifest and config spec are structured binary documents (CBOR);
//! license and instructions are UTF-8 text. Which byte strings decode, and
//! to what, is a function of the bytes alone; the uninterpreted functions
//! `cbor_decodes` and `utf8_of` name those results.

use vstd::prelude::*;

verus! {

#[verifier::external_type_specification]
#[verifier::external_body]
pub struct ExCborValue(serde_cbor::Value);

/// The value a byte string decodes to as one CBOR document with nothing
/// trailing, or `None` where the bytes are not such a document.
pub uninterp spec fn cbor_of(b: Seq<u8>) -> Option<serde_cbor::Value>;

/// Whether a byte string is one well-formed CBOR document with nothing
/// trailing.
pub open spec fn cbor_decodes(b: Seq<u8>) -> bool {
    cbor_of(b) is Some
}

/// The text a byte string decodes to under UTF-8, or `None` where the
/// bytes are not valid UTF-8.
pub uninterp spec fn utf8_of(b: Seq<u8>) -> Option<Seq<char>>;

/// Relies on serde_cbor::from_slice::<Value>: decoding succeeds on
/// exactly the well-formed single documents, and both the verdict and
/// the document are functions of the bytes alone.
#[verifier::external_body]
pub(crate) fn cbor_from_slice(b: &Vec<u8>) -> (r: Option<serde_cbor::Value>)
    ensures
        r == cbor_of(b@),
{
    serde_cbor::from_slice(b.as_slice()).ok()
}

/// Relies on String::from_utf8: it succeeds on exactly the valid UTF-8
/// byte strings and returns their text, from the bytes alone.
#[verifier::external_body]
pub(crate) fn string_from_utf8(b: Vec<u8>) -> (r: Option<String>)
    ensures
        r is Some <==> utf8_of(b@) is Some,
        r matches Some(s) ==> utf8_of(b@) == Some(s@),
{
    String::from_utf8(b).ok()
}

} // verus!
