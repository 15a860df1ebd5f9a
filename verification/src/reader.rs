//! The archive reader: open, verify once, then serve sections on demand.
//!
//! Construction parses the header and streams every remaining byte through
//! a SHA-512 hash, then checks the header's signature over that hash; only
//! a verified archive yields a reader. Thereafter each accessor looks its
//! section up in the table of contents, seeks only when the tracked cursor
//! does not already stand at the section's start, performs a read bounded
//! to the declared length, and decodes. The tracked cursor always equals
//! the stream's true position, so the seek-on-mismatch policy is exact:
//! sections accessed in ascending, adjacent order cost no seek at all.

use vstd::prelude::*;

use crate::codec::{cbor_decodes, cbor_from_slice, cbor_of, string_from_utf8, utf8_of};
use crate::crypto::{ed25519ph_verifies, ed25519ph_verify, sha512_new, sha512_update};
use crate::error::{Error, Part};
use crate::header::{
    header_well_formed, sig_context, sig_context_bytes, spec_header_len, spec_pubkey,
    spec_signature, spec_toc, FileSection, Header, TableOfContents,
};
use crate::stream::ByteStream;

verus! {

/// The visible state of an archive reader: its section table, its tracked
/// cursor, the bytes of the underlying stream, and how many seeks the
/// stream has performed.
pub struct ReaderView {
    /// The table of contents parsed at open time.
    pub toc: TableOfContents,
    /// The tracked cursor, equal to the stream's true position.
    pub pos: u64,
    /// The bytes of the underlying stream.
    pub contents: Seq<u8>,
    /// How many seeks the stream has performed.
    pub seeks: u64,
}

/// How many seeks a section access starting at `position` costs a reader
/// in state `v`: none when the cursor already stands there, one otherwise.
pub open spec fn seek_cost(v: ReaderView, position: u64) -> int {
    if v.pos == position {
        0
    } else {
        1
    }
}

/// How many bytes remain between offset `pos` and end-of-stream.
pub open spec fn stream_avail(c: Seq<u8>, pos: u64) -> int {
    if pos <= c.len() {
        c.len() - pos
    } else {
        0
    }
}

/// Whether a bounded read of the whole section can succeed: its declared
/// length fits between its start offset and end-of-stream.
pub open spec fn section_readable(c: Seq<u8>, d: FileSection) -> bool {
    d.length <= stream_avail(c, d.position)
}

/// The bytes the table of contents declares for a section.
pub open spec fn section_bytes(c: Seq<u8>, d: FileSection) -> Seq<u8> {
    if d.position <= c.len() {
        c.subrange(d.position as int, d.position + d.length)
    } else {
        Seq::<u8>::empty()
    }
}

/// Where the cursor stands after an eager read of a section: at the
/// section's end on success, at the point where bytes ran out on a short
/// read.
pub open spec fn cursor_after(c: Seq<u8>, d: FileSection) -> int {
    if section_readable(c, d) {
        d.position + d.length
    } else if d.position <= c.len() {
        c.len() as int
    } else {
        d.position as int
    }
}

/// What every section access preserves — the table of contents and the
/// stream bytes — and what it costs: one seek exactly when the tracked
/// cursor does not already stand at the section's start.
pub open spec fn access_frame(pre: ReaderView, post: ReaderView, position: u64) -> bool {
    &&& post.toc == pre.toc
    &&& post.contents == pre.contents
    &&& post.seeks == pre.seeks + seek_cost(pre, position)
}

/// Zero seeks between adjacent sections: a reader whose cursor stands at
/// the end of one section pays no seek for a section beginning exactly
/// there, and exactly one seek for a section beginning anywhere else.
pub proof fn lemma_adjacent_access_seek_free(v: ReaderView, first: FileSection, second: FileSection)
    requires
        v.pos == first.position + first.length,
    ensures
        seek_cost(v, second.position) == if second.position == first.position + first.length {
            0int
        } else {
            1int
        },
{
}

/// A verified archive reader. It owns the stream exclusively and tracks
/// the stream's position itself, updating the tracked cursor on every byte
/// read and every seek, never guessing.
pub struct S9pkReader {
    toc: TableOfContents,
    pos: u64,
    rdr: ByteStream,
}

impl View for S9pkReader {
    type V = ReaderView;

    closed spec fn view(&self) -> ReaderView {
        ReaderView {
            toc: self.toc,
            pos: self.pos,
            contents: self.rdr.contents(),
            seeks: self.rdr.seek_count(),
        }
    }
}

impl S9pkReader {
    /// The reader's invariant: the tracked cursor equals the stream's true
    /// position.
    pub closed spec fn wf(self) -> bool {
        self.pos == self.rdr.cursor()
    }

    /// The table of contents parsed at open time.
    pub fn table_of_contents(&self) -> (t: TableOfContents)
        ensures
            t == self@.toc,
    {
        self.toc
    }

    /// The tracked cursor.
    pub fn position(&self) -> (p: u64)
        ensures
            p == self@.pos,
    {
        self.pos
    }

    /// How many seeks the underlying stream has performed.
    pub fn seeks(&self) -> (n: u64)
        ensures
            n == self@.seeks,
    {
        self.rdr.seeks()
    }

    /// Open an archive over a fresh stream: parse the header, hash every
    /// byte after it, and check the signature under the archive's
    /// domain-separation context. Succeeds exactly on a well-formed header
    /// whose signature verifies; the reader then stands at section-data
    /// start, one repositioning seek after the verification pass.
    pub fn from_reader(rdr: ByteStream) -> (r: Result<S9pkReader, Error>)
        requires
            rdr.cursor() == 0,
            rdr.seek_count() < u64::MAX,
        ensures
            ({
                let b = rdr.contents();
                let verified = ed25519ph_verifies(
                    spec_pubkey(b),
                    sig_context(),
                    b.skip(spec_header_len(b)),
                    spec_signature(b),
                );
                &&& (r is Ok <==> header_well_formed(b) && verified)
                &&& (!header_well_formed(b) ==> r matches Err(Error::ParseS9pk(Part::Header)))
                &&& (header_well_formed(b) && !verified ==> r matches Err(Error::Signature))
                &&& (r matches Ok(rd) ==> {
                    &&& rd.wf()
                    &&& rd@.toc == spec_toc(b)
                    &&& rd@.contents == b
                    &&& rd@.pos == spec_header_len(b)
                    &&& rd@.seeks == rdr.seek_count() + 1
                })
            }),
    {
        let mut stream = rdr;
        let ghost b = stream.contents();
        let ghost seeks0 = stream.seek_count();
        let header = match Header::deserialize(&mut stream) {
            Ok(h) => h,
            Err(e) => { return Err(e) },
        };
        let data_start = stream.position();
        let mut hasher = sha512_new();
        loop
            invariant
                stream.contents() == b,
                stream.seek_count() == seeks0,
                data_start <= stream.cursor(),
                stream.cursor() <= b.len(),
                crate::crypto::sha512_absorbed(hasher) == b.subrange(
                    data_start as int,
                    stream.cursor() as int,
                ),
            ensures
                stream.contents() == b,
                stream.seek_count() == seeks0,
                crate::crypto::sha512_absorbed(hasher) == b.subrange(
                    data_start as int,
                    b.len() as int,
                ),
            decreases b.len() - stream.cursor(),
        {
            let ghost mid = stream.cursor();
            let chunk = stream.read(1024);
            if chunk.len() == 0 {
                break;
            }
            sha512_update(&mut hasher, &chunk);
            proof {
                assert(b.subrange(data_start as int, mid as int) + b.subrange(
                    mid as int,
                    stream.cursor() as int,
                ) =~= b.subrange(data_start as int, stream.cursor() as int));
            }
        }
        proof {
            assert(b.subrange(data_start as int, b.len() as int) =~= b.skip(
                spec_header_len(b),
            ));
        }
        let ctx = sig_context_bytes();
        let ok = ed25519ph_verify(&header.pubkey, &ctx, hasher, &header.signature);
        if !ok {
            return Err(Error::Signature);
        }
        stream.seek(data_start);
        Ok(S9pkReader { toc: header.table_of_contents, pos: data_start, rdr: stream })
    }

    /// Seek to an absolute offset only when the tracked cursor does not
    /// already stand there.
    fn seek_to(&mut self, position: u64)
        requires
            old(self).wf(),
            old(self)@.seeks < u64::MAX,
        ensures
            final(self).wf(),
            final(self)@.toc == old(self)@.toc,
            final(self)@.contents == old(self)@.contents,
            final(self)@.pos == position,
            final(self)@.seeks == old(self)@.seeks + seek_cost(old(self)@, position),
    {
        if self.pos != position {
            self.rdr.seek(position);
            self.pos = position;
        }
    }

    /// Read up to `length` bytes at the tracked cursor, advancing it by
    /// exactly the bytes handed out. No seek is performed.
    fn read_bounded(&mut self, length: u64) -> (r: Vec<u8>)
        requires
            old(self).wf(),
        ensures
            final(self).wf(),
            final(self)@.toc == old(self)@.toc,
            final(self)@.contents == old(self)@.contents,
            final(self)@.seeks == old(self)@.seeks,
            r@.len() == if length <= stream_avail(old(self)@.contents, old(self)@.pos) {
                length as int
            } else {
                stream_avail(old(self)@.contents, old(self)@.pos)
            },
            old(self)@.pos <= old(self)@.contents.len() ==> r@ == old(self)@.contents.subrange(
                old(self)@.pos as int,
                old(self)@.pos + r@.len(),
            ),
            final(self)@.pos == old(self)@.pos + r@.len(),
    {
        let len_u = self.rdr.byte_len();
        let avail: u64 = if self.pos <= len_u {
            len_u - self.pos
        } else {
            0
        };
        let take: u64 = if length <= avail {
            length
        } else {
            avail
        };
        assert(take <= self.rdr.contents().len());
        let v = self.rdr.read(take as usize);
        self.pos = self.rdr.position();
        v
    }

    /// Seek to a section as needed and eagerly read exactly its declared
    /// length, or fail with `Io` where the stream ends first.
    fn read_section(&mut self, section: FileSection) -> (r: Result<Vec<u8>, Error>)
        requires
            old(self).wf(),
            old(self)@.seeks < u64::MAX,
        ensures
            final(self).wf(),
            access_frame(old(self)@, final(self)@, section.position),
            final(self)@.pos == cursor_after(old(self)@.contents, section),
            (r is Ok <==> section_readable(old(self)@.contents, section)),
            r matches Ok(v) ==> v@ == section_bytes(old(self)@.contents, section),
            r is Err ==> r matches Err(Error::Io),
    {
        self.seek_to(section.position);
        let v = self.read_bounded(section.length);
        if (v.len() as u64) == section.length {
            Ok(v)
        } else {
            Err(Error::Io)
        }
    }

    /// Eagerly read a section and decode it as one CBOR document.
    fn read_cbor(&mut self, section: FileSection, part: Part) -> (r: Result<
        serde_cbor::Value,
        Error,
    >)
        requires
            old(self).wf(),
            old(self)@.seeks < u64::MAX,
        ensures
            final(self).wf(),
            access_frame(old(self)@, final(self)@, section.position),
            final(self)@.pos == cursor_after(old(self)@.contents, section),
            ({
                let c = old(self)@.contents;
                let bytes = section_bytes(c, section);
                &&& (r is Ok <==> section_readable(c, section) && cbor_decodes(bytes))
                &&& (r matches Ok(v) ==> Some(v) == cbor_of(bytes))
                &&& (!section_readable(c, section) ==> r matches Err(Error::Io))
                &&& (section_readable(c, section) && !cbor_decodes(bytes) ==> (r matches Err(
                    Error::ParseS9pk(p),
                ) && p == part))
            }),
    {
        let v = match self.read_section(section) {
            Ok(v) => v,
            Err(e) => { return Err(e) },
        };
        match cbor_from_slice(&v) {
            Some(value) => Ok(value),
            None => Err(Error::ParseS9pk(part)),
        }
    }

    /// Eagerly read a section and decode it as UTF-8 text.
    fn read_text(&mut self, section: FileSection, part: Part) -> (r: Result<String, Error>)
        requires
            old(self).wf(),
            old(self)@.seeks < u64::MAX,
        ensures
            final(self).wf(),
            access_frame(old(self)@, final(self)@, section.position),
            final(self)@.pos == cursor_after(old(self)@.contents, section),
            ({
                let c = old(self)@.contents;
                let bytes = section_bytes(c, section);
                &&& (r is Ok <==> section_readable(c, section) && utf8_of(bytes) is Some)
                &&& (r matches Ok(s) ==> Some(s@) == utf8_of(bytes))
                &&& (!section_readable(c, section) ==> r matches Err(Error::Io))
                &&& (section_readable(c, section) && utf8_of(bytes) is None ==> (r matches Err(
                    Error::ParseS9pk(p),
                ) && p == part))
            }),
    {
        let v = match self.read_section(section) {
            Ok(v) => v,
            Err(e) => { return Err(e) },
        };
        match string_from_utf8(v) {
            Some(s) => Ok(s),
            None => Err(Error::ParseS9pk(part)),
        }
    }

    /// Read the manifest section eagerly and decode it as a structured
    /// binary (CBOR) document. Succeeds exactly when the declared range
    /// lies in the stream and its bytes are one well-formed document;
    /// a decode failure names the manifest.
    pub fn manifest(&mut self) -> (r: Result<serde_cbor::Value, Error>)
        requires
            old(self).wf(),
            old(self)@.seeks < u64::MAX,
        ensures
            final(self).wf(),
            access_frame(old(self)@, final(self)@, old(self)@.toc.manifest.position),
            final(self)@.pos == cursor_after(old(self)@.contents, old(self)@.toc.manifest),
            ({
                let c = old(self)@.contents;
                let bytes = section_bytes(c, old(self)@.toc.manifest);
                &&& (r is Ok <==> section_readable(c, old(self)@.toc.manifest) && cbor_decodes(
                    bytes,
                ))
                &&& (r matches Ok(v) ==> Some(v) == cbor_of(bytes))
                &&& (!section_readable(c, old(self)@.toc.manifest) ==> r matches Err(Error::Io))
                &&& (section_readable(c, old(self)@.toc.manifest) && !cbor_decodes(bytes)
                    ==> r matches Err(Error::ParseS9pk(Part::Manifest)))
            }),
    {
        let d = self.toc.manifest;
        self.read_cbor(d, Part::Manifest)
    }

    /// Read the config-spec section eagerly and decode it as a structured
    /// binary (CBOR) document, as `manifest` does for its section.
    pub fn config_spec(&mut self) -> (r: Result<serde_cbor::Value, Error>)
        requires
            old(self).wf(),
            old(self)@.seeks < u64::MAX,
        ensures
            final(self).wf(),
            access_frame(old(self)@, final(self)@, old(self)@.toc.config_spec.position),
            final(self)@.pos == cursor_after(old(self)@.contents, old(self)@.toc.config_spec),
            ({
                let c = old(self)@.contents;
                let bytes = section_bytes(c, old(self)@.toc.config_spec);
                &&& (r is Ok <==> section_readable(c, old(self)@.toc.config_spec) && cbor_decodes(
                    bytes,
                ))
                &&& (r matches Ok(v) ==> Some(v) == cbor_of(bytes))
                &&& (!section_readable(c, old(self)@.toc.config_spec) ==> r matches Err(Error::Io))
                &&& (section_readable(c, old(self)@.toc.config_spec) && !cbor_decodes(bytes)
                    ==> r matches Err(Error::ParseS9pk(Part::ConfigSpec)))
            }),
    {
        let d = self.toc.config_spec;
        self.read_cbor(d, Part::ConfigSpec)
    }

    /// Read the license section eagerly and decode it as UTF-8 text.
    pub fn license(&mut self) -> (r: Result<String, Error>)
        requires
            old(self).wf(),
            old(self)@.seeks < u64::MAX,
        ensures
            final(self).wf(),
            access_frame(old(self)@, final(self)@, old(self)@.toc.license.position),
            final(self)@.pos == cursor_after(old(self)@.contents, old(self)@.toc.license),
            ({
                let c = old(self)@.contents;
                let bytes = section_bytes(c, old(self)@.toc.license);
                &&& (r is Ok <==> section_readable(c, old(self)@.toc.license) && utf8_of(bytes)
                    is Some)
                &&& (r matches Ok(s) ==> Some(s@) == utf8_of(bytes))
                &&& (!section_readable(c, old(self)@.toc.license) ==> r matches Err(Error::Io))
                &&& (section_readable(c, old(self)@.toc.license) && utf8_of(bytes) is None
                    ==> r matches Err(Error::ParseS9pk(Part::License)))
            }),
    {
        let d = self.toc.license;
        self.read_text(d, Part::License)
    }

    /// Read the instructions section, when the table of contents has one,
    /// and decode it as UTF-8 text. An absent section is an explicit
    /// absence, never an error, and the stream is not touched.
    pub fn instructions(&mut self) -> (r: Result<Option<String>, Error>)
        requires
            old(self).wf(),
            old(self)@.seeks < u64::MAX,
        ensures
            final(self).wf(),
            ({
                let c = old(self)@.contents;
                match old(self)@.toc.instructions {
                    None => r matches Ok(None) && final(self)@ == old(self)@,
                    Some(d) => {
                        let bytes = section_bytes(c, d);
                        &&& access_frame(old(self)@, final(self)@, d.position)
                        &&& final(self)@.pos == cursor_after(c, d)
                        &&& (r is Ok <==> section_readable(c, d) && utf8_of(bytes) is Some)
                        &&& (r matches Ok(s) ==> (s matches Some(t) && Some(t@) == utf8_of(bytes)))
                        &&& (!section_readable(c, d) ==> r matches Err(Error::Io))
                        &&& (section_readable(c, d) && utf8_of(bytes) is None ==> r matches Err(
                            Error::ParseS9pk(Part::Instructions),
                        ))
                    },
                }
            }),
    {
        match self.toc.instructions {
            None => Ok(None),
            Some(d) => {
                match self.read_text(d, Part::Instructions) {
                    Ok(s) => Ok(Some(s)),
                    Err(e) => Err(e),
                }
            },
        }
    }

    /// Hand out a streaming bounded read of the icon section: the reader
    /// seeks to the section's start only as needed, and the handle is
    /// limited to the section's declared length.
    pub fn icon(self) -> (h: ReadHandle)
        requires
            self.wf(),
            self@.seeks < u64::MAX,
        ensures
            h.wf(),
            access_frame(self@, h.reader_view(), self@.toc.icon.position),
            h.reader_view().pos == self@.toc.icon.position,
            h.remaining() == self@.toc.icon.length,
    {
        let d = self.toc.icon;
        self.bounded_handle(d)
    }

    /// Hand out a streaming bounded read of the application-image
    /// section, as `icon` does for its own. The two use their own
    /// descriptors: when those differ, the two handles read disjoint
    /// ranges.
    pub fn app_image(self) -> (h: ReadHandle)
        requires
            self.wf(),
            self@.seeks < u64::MAX,
        ensures
            h.wf(),
            access_frame(self@, h.reader_view(), self@.toc.app_image.position),
            h.reader_view().pos == self@.toc.app_image.position,
            h.remaining() == self@.toc.app_image.length,
    {
        let d = self.toc.app_image;
        self.bounded_handle(d)
    }

    /// Seek to a section as needed and wrap the reader in a handle
    /// bounded to the section's declared length.
    fn bounded_handle(self, section: FileSection) -> (h: ReadHandle)
        requires
            self.wf(),
            self@.seeks < u64::MAX,
        ensures
            h.wf(),
            access_frame(self@, h.reader_view(), section.position),
            h.reader_view().pos == section.position,
            h.remaining() == section.length,
    {
        let mut rdr = self;
        rdr.seek_to(section.position);
        ReadHandle { rdr, limit: section.length }
    }
}

/// A bounded read over one section. The handle owns the reader while it
/// lives — no second read can run against the same stream — and returns
/// it when consumed, the cursor reflecting exactly the bytes taken.
pub struct ReadHandle {
    rdr: S9pkReader,
    limit: u64,
}

impl ReadHandle {
    /// The state of the owned reader.
    pub closed spec fn reader_view(self) -> ReaderView {
        self.rdr@
    }

    /// How many bytes of the section remain to be read.
    pub closed spec fn remaining(self) -> u64 {
        self.limit
    }

    /// The handle's invariant: the owned reader's.
    pub closed spec fn wf(self) -> bool {
        self.rdr.wf()
    }

    /// How many bytes of the section remain to be read.
    pub fn limit(&self) -> (n: u64)
        ensures
            n == self.remaining(),
    {
        self.limit
    }

    /// Pull up to `max` bytes: bounded by the section's remaining length
    /// and by end-of-stream. The shared cursor advances by exactly the
    /// bytes handed out before the call returns.
    pub fn read(&mut self, max: usize) -> (r: Vec<u8>)
        requires
            old(self).wf(),
        ensures
            final(self).wf(),
            final(self).reader_view().toc == old(self).reader_view().toc,
            final(self).reader_view().contents == old(self).reader_view().contents,
            final(self).reader_view().seeks == old(self).reader_view().seeks,
            r@.len() == ({
                let want = if max <= old(self).remaining() {
                    max as int
                } else {
                    old(self).remaining() as int
                };
                let avail = stream_avail(
                    old(self).reader_view().contents,
                    old(self).reader_view().pos,
                );
                if want <= avail {
                    want
                } else {
                    avail
                }
            }),
            old(self).reader_view().pos <= old(self).reader_view().contents.len() ==> r@ == old(
                self,
            ).reader_view().contents.subrange(
                old(self).reader_view().pos as int,
                old(self).reader_view().pos + r@.len(),
            ),
            final(self).reader_view().pos == old(self).reader_view().pos + r@.len(),
            final(self).remaining() == old(self).remaining() - r@.len(),
    {
        let want: u64 = if self.limit < (max as u64) {
            self.limit
        } else {
            max as u64
        };
        let v = self.rdr.read_bounded(want);
        self.limit = self.limit - (v.len() as u64);
        v
    }

    /// Eagerly read the whole remaining bounded range into a fresh
    /// buffer, failing with `Io` where the stream ends first, and hand the
    /// reader back either way.
    pub fn to_vec(self) -> (r: (S9pkReader, Result<Vec<u8>, Error>))
        requires
            self.wf(),
        ensures
            r.0.wf(),
            r.0@.toc == self.reader_view().toc,
            r.0@.contents == self.reader_view().contents,
            r.0@.seeks == self.reader_view().seeks,
            (r.1 is Ok <==> self.remaining() <= stream_avail(
                self.reader_view().contents,
                self.reader_view().pos,
            )),
            r.1 matches Ok(v) ==> {
                &&& v@.len() == self.remaining()
                &&& (self.reader_view().pos <= self.reader_view().contents.len() ==> v@
                    == self.reader_view().contents.subrange(
                    self.reader_view().pos as int,
                    self.reader_view().pos + self.remaining(),
                ))
                &&& r.0@.pos == self.reader_view().pos + self.remaining()
            },
            r.1 is Err ==> (r.1 matches Err(Error::Io)) && r.0@.pos == self.reader_view().pos
                + stream_avail(self.reader_view().contents, self.reader_view().pos),
    {
        let mut h = self;
        let want: u64 = h.limit;
        let v = h.rdr.read_bounded(want);
        let ReadHandle { rdr, limit } = h;
        if (v.len() as u64) == limit {
            (rdr, Ok(v))
        } else {
            (rdr, Err(Error::Io))
        }
    }

    /// Abandon the bounded read: the reader comes back with its cursor
    /// exactly where reading stopped, and later accesses compute their
    /// seeks from that true position.
    pub fn finish(self) -> (r: S9pkReader)
        requires
            self.wf(),
        ensures
            r.wf(),
            r@ == self.reader_view(),
    {
        self.rdr
    }
}

} // verus!
