//! The archive header: verifying key, signature, and table of contents.
//!
//! The header is a fixed-format record at the start of the stream:
//! a 32-byte verifying key, a 64-byte signature, five 16-byte section
//! descriptors (manifest, config spec, license, icon, app image), a
//! presence byte for the optional instructions section, and, when that
//! byte is one, a sixth descriptor. Each descriptor is an absolute byte
//! offset and a byte length, both big-endian 64-bit. Section data begins
//! immediately after the header.

use vstd::prelude::*;

use crate::error::{Error, Part};
use crate::stream::ByteStream;

verus! {

/// Length of the verifying key, in bytes.
pub const PUBKEY_LEN: usize = 32;

/// Length of the signature, in bytes.
pub const SIGNATURE_LEN: usize = 64;

/// Header length when the instructions descriptor is absent.
pub const HEADER_BASE_LEN: usize = 177;

/// Header length when the instructions descriptor is present.
pub const HEADER_FULL_LEN: usize = 193;

/// An absolute byte range in the archive stream: offset and exact length.
#[derive(Clone, Copy, PartialEq, Eq, Structural, Debug)]
pub struct FileSection {
    /// Absolute byte offset of the section's first byte.
    pub position: u64,
    /// Exact byte length of the section.
    pub length: u64,
}

/// The fixed set of named sections. Five are always present; the
/// instructions section may be absent, as an explicit `None` rather than a
/// zero-length sentinel. Built once from the header bytes, never mutated.
#[derive(Clone, Copy, PartialEq, Eq, Debug)]
pub struct TableOfContents {
    /// Where the manifest document lies.
    pub manifest: FileSection,
    /// Where the config-spec document lies.
    pub config_spec: FileSection,
    /// Where the license text lies.
    pub license: FileSection,
    /// Where the icon blob lies.
    pub icon: FileSection,
    /// Where the application image blob lies.
    pub app_image: FileSection,
    /// Where the instructions text lies, when the archive has any.
    pub instructions: Option<FileSection>,
}

/// The header record: verifying key, signature, and table of contents.
/// The key and signature are used exactly once, at open time.
pub struct Header {
    /// The 32-byte verifying key.
    pub pubkey: Vec<u8>,
    /// The 64-byte signature over every byte after the header.
    pub signature: Vec<u8>,
    /// The section table.
    pub table_of_contents: TableOfContents,
}

/// The value of a big-endian byte string.
pub open spec fn be_val(s: Seq<u8>) -> int
    decreases s.len(),
{
    if s.len() == 0 {
        0
    } else {
        be_val(s.drop_last()) * 256 + s.last()
    }
}

/// `256^n`, the exclusive upper bound of `be_val` on `n` bytes.
pub open spec fn pow256(n: nat) -> int
    decreases n,
{
    if n == 0 {
        1
    } else {
        256 * pow256((n - 1) as nat)
    }
}

/// A big-endian byte string's value is bounded by `256^len`.
pub proof fn lemma_be_val_bound(s: Seq<u8>)
    ensures
        0 <= be_val(s) < pow256(s.len()),
    decreases s.len(),
{
    if s.len() > 0 {
        lemma_be_val_bound(s.drop_last());
    }
}

/// The values of `pow256` at seven and eight bytes, spelled out.
proof fn lemma_pow256_u64_table()
    ensures
        pow256(7) == 0x100_0000_0000_0000,
        pow256(8) == 0x1_0000_0000_0000_0000,
{
    assert(pow256(0) == 1);
    assert(pow256(1) == 256);
    assert(pow256(2) == 0x1_0000);
    assert(pow256(3) == 0x100_0000);
    assert(pow256(4) == 0x1_0000_0000);
    assert(pow256(5) == 0x100_0000_0000);
    assert(pow256(6) == 0x1_0000_0000_0000);
}

/// Eight big-endian bytes fit a `u64`.
pub proof fn lemma_be_val_u64(s: Seq<u8>)
    requires
        s.len() <= 8,
    ensures
        0 <= be_val(s) <= u64::MAX,
{
    lemma_be_val_bound(s);
    lemma_pow256_u64_table();
    assert(pow256(s.len()) <= pow256(8)) by {
        lemma_pow256_increases(s.len(), 8);
    }
}

/// `pow256` grows with its exponent.
pub proof fn lemma_pow256_increases(m: nat, n: nat)
    requires
        m <= n,
    ensures
        pow256(m) <= pow256(n),
    decreases n,
{
    if m < n {
        lemma_pow256_increases(m, (n - 1) as nat);
        assert(pow256((n - 1) as nat) >= 1) by {
            lemma_pow256_pos((n - 1) as nat);
        }
    }
}

/// `pow256` is positive.
pub proof fn lemma_pow256_pos(n: nat)
    ensures
        pow256(n) >= 1,
    decreases n,
{
    if n > 0 {
        lemma_pow256_pos((n - 1) as nat);
    }
}

/// The 64-bit big-endian value at byte offset `off`.
pub open spec fn be_u64_at(b: Seq<u8>, off: int) -> int {
    be_val(b.subrange(off, off + 8))
}

/// The section descriptor encoded at byte offset `off`: position, then length.
pub open spec fn desc_at(b: Seq<u8>, off: int) -> FileSection {
    FileSection {
        position: be_u64_at(b, off) as u64,
        length: be_u64_at(b, off + 8) as u64,
    }
}

/// Whether the byte string begins with a well-formed header: long enough
/// for the fixed part, a presence byte of zero or one, and long enough for
/// the sixth descriptor when that byte is one.
pub open spec fn header_well_formed(b: Seq<u8>) -> bool {
    &&& b.len() >= HEADER_BASE_LEN
    &&& (b[176] == 0 || b[176] == 1)
    &&& (b[176] == 1 ==> b.len() >= HEADER_FULL_LEN)
}

/// The header's length in bytes: where section data begins.
pub open spec fn spec_header_len(b: Seq<u8>) -> int {
    if b[176] == 1 {
        HEADER_FULL_LEN as int
    } else {
        HEADER_BASE_LEN as int
    }
}

/// The verifying-key bytes of the header.
pub open spec fn spec_pubkey(b: Seq<u8>) -> Seq<u8> {
    b.subrange(0, PUBKEY_LEN as int)
}

/// The signature bytes of the header.
pub open spec fn spec_signature(b: Seq<u8>) -> Seq<u8> {
    b.subrange(PUBKEY_LEN as int, (PUBKEY_LEN + SIGNATURE_LEN) as int)
}

/// The table of contents the header bytes encode.
pub open spec fn spec_toc(b: Seq<u8>) -> TableOfContents {
    TableOfContents {
        manifest: desc_at(b, 96),
        config_spec: desc_at(b, 112),
        license: desc_at(b, 128),
        icon: desc_at(b, 144),
        app_image: desc_at(b, 160),
        instructions: if b[176] == 1 {
            Some(desc_at(b, 177))
        } else {
            None
        },
    }
}

/// The domain-separation tag bound into every archive signature: "s9pk".
pub open spec fn sig_context() -> Seq<u8> {
    seq![0x73u8, 0x39u8, 0x70u8, 0x6bu8]
}

/// The domain-separation tag as a byte vector.
pub fn sig_context_bytes() -> (v: Vec<u8>)
    ensures
        v@ == sig_context(),
{
    let mut v: Vec<u8> = Vec::new();
    v.push(0x73u8);
    v.push(0x39u8);
    v.push(0x70u8);
    v.push(0x6bu8);
    proof {
        assert(v@ =~= sig_context());
    }
    v
}

/// Copy `n` bytes of `v` starting at `start`.
fn sub_vec(v: &Vec<u8>, start: usize, n: usize) -> (r: Vec<u8>)
    requires
        start + n <= v.len(),
    ensures
        r@ == v@.subrange(start as int, start + n),
{
    let mut out: Vec<u8> = Vec::new();
    let mut i: usize = 0;
    while i < n
        invariant
            i <= n,
            start + n <= v.len(),
            out@ =~= v@.subrange(start as int, start + i),
        decreases n - i,
    {
        out.push(v[start + i]);
        assert(out@ =~= v@.subrange(start as int, start + i + 1));
        i = i + 1;
    }
    out
}

/// Read the 64-bit big-endian value at byte offset `off`.
fn read_be_u64(v: &Vec<u8>, off: usize) -> (r: u64)
    requires
        off + 8 <= v.len(),
    ensures
        r == be_u64_at(v@, off as int),
{
    let mut acc: u64 = 0;
    let mut i: usize = 0;
    while i < 8
        invariant
            i <= 8,
            off + 8 <= v.len(),
            acc == be_val(v@.subrange(off as int, off + i)),
            acc < pow256(i as nat),
        decreases 8 - i,
    {
        proof {
            lemma_pow256_increases(i as nat, 7);
            lemma_pow256_u64_table();
            let sub = v@.subrange(off as int, off + i + 1);
            assert(sub.drop_last() =~= v@.subrange(off as int, off + i));
            assert(sub.last() == v@[off + i]);
        }
        acc = acc * 256 + (v[off + i] as u64);
        i = i + 1;
    }
    proof {
        assert(v@.subrange(off as int, off + 8) == v@.subrange(off as int, off + i));
    }
    acc
}

/// Decode the section descriptor at byte offset `off`.
fn parse_desc(v: &Vec<u8>, off: usize) -> (r: FileSection)
    requires
        off + 16 <= v.len(),
    ensures
        r == desc_at(v@, off as int),
{
    let position = read_be_u64(v, off);
    let length = read_be_u64(v, off + 8);
    proof {
        lemma_be_val_u64(v@.subrange(off as int, off + 8));
        lemma_be_val_u64(v@.subrange(off + 8, off + 16));
    }
    FileSection { position, length }
}

impl Header {
    /// Whether the key and signature have their required lengths.
    pub open spec fn wf(self) -> bool {
        &&& self.pubkey@.len() == PUBKEY_LEN
        &&& self.signature@.len() == SIGNATURE_LEN
    }

    /// Parse the header from a stream positioned at offset zero. On
    /// success the stream stands exactly at the end of the header, where
    /// section data begins; no seek is performed either way.
    pub fn deserialize(stream: &mut ByteStream) -> (r: Result<Header, Error>)
        requires
            old(stream).cursor() == 0,
        ensures
            final(stream).contents() == old(stream).contents(),
            final(stream).seek_count() == old(stream).seek_count(),
            ({
                let b = old(stream).contents();
                &&& (r is Ok <==> header_well_formed(b))
                &&& (!header_well_formed(b) ==> r matches Err(Error::ParseS9pk(Part::Header)))
                &&& (r matches Ok(h) ==> {
                    &&& h.wf()
                    &&& h.pubkey@ == spec_pubkey(b)
                    &&& h.signature@ == spec_signature(b)
                    &&& h.table_of_contents == spec_toc(b)
                    &&& final(stream).cursor() == spec_header_len(b)
                })
            }),
    {
        let ghost b = stream.contents();
        let head = stream.read(HEADER_BASE_LEN);
        if head.len() < HEADER_BASE_LEN {
            return Err(Error::ParseS9pk(Part::Header));
        }
        assert(head@ =~= b.subrange(0, HEADER_BASE_LEN as int));
        assert(head@[176] == b[176]);
        let flag = head[176];
        if flag > 1 {
            return Err(Error::ParseS9pk(Part::Header));
        }
        let instructions: Option<FileSection> = if flag == 1 {
            let extra = stream.read(16);
            if extra.len() < 16 {
                return Err(Error::ParseS9pk(Part::Header));
            }
            assert(extra@ =~= b.subrange(177, 193));
            let d = parse_desc(&extra, 0);
            proof {
                assert(extra@.subrange(0, 8) =~= b.subrange(177, 185));
                assert(extra@.subrange(8, 16) =~= b.subrange(185, 193));
            }
            Some(d)
        } else {
            None
        };
        let pubkey = sub_vec(&head, 0, PUBKEY_LEN);
        let signature = sub_vec(&head, PUBKEY_LEN, SIGNATURE_LEN);
        proof {
            assert(head@.subrange(0, 32) =~= b.subrange(0, 32));
            assert(head@.subrange(32, 96) =~= b.subrange(32, 96));
            assert(head@.subrange(96, 104) =~= b.subrange(96, 104));
            assert(head@.subrange(104, 112) =~= b.subrange(104, 112));
            assert(head@.subrange(112, 120) =~= b.subrange(112, 120));
            assert(head@.subrange(120, 128) =~= b.subrange(120, 128));
            assert(head@.subrange(128, 136) =~= b.subrange(128, 136));
            assert(head@.subrange(136, 144) =~= b.subrange(136, 144));
            assert(head@.subrange(144, 152) =~= b.subrange(144, 152));
            assert(head@.subrange(152, 160) =~= b.subrange(152, 160));
            assert(head@.subrange(160, 168) =~= b.subrange(160, 168));
            assert(head@.subrange(168, 176) =~= b.subrange(168, 176));
        }
        let table_of_contents = TableOfContents {
            manifest: parse_desc(&head, 96),
            config_spec: parse_desc(&head, 112),
            license: parse_desc(&head, 128),
            icon: parse_desc(&head, 144),
            app_image: parse_desc(&head, 160),
            instructions,
        };
        Ok(Header { pubkey, signature, table_of_contents })
    }
}

} // verus!
