//! The failure taxonomy of the archive reader.

use vstd::prelude::*;
use vstd::string::StringExecFns;

verus! {

/// The part of the archive whose bytes failed to decode.
#[derive(Clone, Copy, PartialEq, Eq, Structural, Debug)]
pub enum Part {
    /// The fixed-format header at the start of the stream.
    Header,
    /// The manifest section (a structured binary document).
    Manifest,
    /// The config-spec section (a structured binary document).
    ConfigSpec,
    /// The license section (UTF-8 text).
    License,
    /// The optional instructions section (UTF-8 text).
    Instructions,
}

impl Part {
    /// The decoding step that fails at this part, for error reports.
    pub fn step(&self) -> (s: String)
        ensures
            s@ == match *self {
                Part::Header => "Deserializing Header"@,
                Part::Manifest => "Deserializing Manifest (CBOR)"@,
                Part::ConfigSpec => "Deserializing Config Spec (CBOR)"@,
                Part::License => "Parsing License (UTF-8)"@,
                Part::Instructions => "Parsing Instructions (UTF-8)"@,
            },
    {
        match self {
            Part::Header => String::from_str("Deserializing Header"),
            Part::Manifest => String::from_str("Deserializing Manifest (CBOR)"),
            Part::ConfigSpec => String::from_str("Deserializing Config Spec (CBOR)"),
            Part::License => String::from_str("Parsing License (UTF-8)"),
            Part::Instructions => String::from_str("Parsing Instructions (UTF-8)"),
        }
    }
}

/// Why an archive operation failed.
///
/// Every failure is returned to the immediate caller; none is retried,
/// since format violations are not transient. A `Signature` failure means
/// the whole archive is untrusted; a `ParseS9pk` failure is local to the
/// named part and does not invalidate sections already read.
#[derive(Debug)]
pub enum Error {
    /// The underlying path could not be opened; carries the path.
    Filesystem(String),
    /// The whole-file hash did not match the header's signature.
    Signature,
    /// The named part's bytes do not decode under its expected encoding.
    ParseS9pk(Part),
    /// The stream ended before a bounded read reached its declared length.
    Io,
}

} // verus!
