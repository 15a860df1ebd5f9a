//! Reader for a signed, sectioned binary package archive.
//!
//! An archive is a single byte stream holding a fixed-format header (public
//! key, signature, table of contents) followed by the concatenated section
//! payloads. Opening an archive parses the header, hashes every remaining
//! byte, and checks the whole-file signature; only then are the named
//! sections served, by bounded reads at the offsets the table of contents
//! declares.

pub mod codec;
pub mod crypto;
pub mod error;
pub mod header;
pub mod reader;
pub mod stream;

pub use error::{Error, Part};
pub use header::{FileSection, Header, TableOfContents};
pub use reader::{ReadHandle, S9pkReader};
pub use stream::ByteStream;
