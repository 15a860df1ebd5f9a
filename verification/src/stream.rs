//! An in-memory seekable byte stream with an explicit seek counter.
//!
//! The archive reader works over this stream: sequential reads advance the
//! cursor by exactly the bytes handed out, seeks move it to an absolute
//! offset, and every seek is counted, so the reader's seeking policy is
//! visible in contracts and observable by callers.

use vstd::prelude::*;

verus! {

/// A seekable stream over a byte buffer. The cursor may stand beyond the
/// end of the data (as a file cursor may after a seek past end-of-file);
/// reads there return nothing.
pub struct ByteStream {
    data: Vec<u8>,
    at: u64,
    seek_ops: u64,
}

impl ByteStream {
    /// The bytes the stream holds.
    pub closed spec fn contents(self) -> Seq<u8> {
        self.data@
    }

    /// The current read position.
    pub closed spec fn cursor(self) -> u64 {
        self.at
    }

    /// How many seeks have been performed on this stream.
    pub closed spec fn seek_count(self) -> u64 {
        self.seek_ops
    }

    /// How many bytes remain between the cursor and end-of-stream.
    pub open spec fn available(self) -> int {
        if self.cursor() <= self.contents().len() {
            self.contents().len() - self.cursor()
        } else {
            0
        }
    }

    /// Wrap a byte buffer as a stream positioned at offset zero.
    pub fn new(data: Vec<u8>) -> (s: ByteStream)
        ensures
            s.contents() == data@,
            s.cursor() == 0,
            s.seek_count() == 0,
    {
        ByteStream { data, at: 0, seek_ops: 0 }
    }

    /// The current read position.
    pub fn position(&self) -> (p: u64)
        ensures
            p == self.cursor(),
    {
        self.at
    }

    /// How many seeks have been performed on this stream.
    pub fn seeks(&self) -> (n: u64)
        ensures
            n == self.seek_count(),
    {
        self.seek_ops
    }

    /// The total length of the stream, in bytes. A stream lives in memory,
    /// so its length is bounded by the address space.
    pub fn byte_len(&self) -> (n: u64)
        ensures
            n == self.contents().len(),
            n <= usize::MAX,
    {
        self.data.len() as u64
    }

    /// Move the cursor to an absolute offset, counting the seek.
    pub fn seek(&mut self, to: u64)
        requires
            old(self).seek_count() < u64::MAX,
        ensures
            final(self).contents() == old(self).contents(),
            final(self).cursor() == to,
            final(self).seek_count() == old(self).seek_count() + 1,
    {
        self.at = to;
        self.seek_ops = self.seek_ops + 1;
    }

    /// Read up to `want` bytes at the cursor: exactly `want` when that many
    /// remain, all remaining bytes otherwise. The cursor advances by the
    /// bytes actually handed out; no seek is counted.
    pub fn read(&mut self, want: usize) -> (r: Vec<u8>)
        ensures
            final(self).contents() == old(self).contents(),
            final(self).seek_count() == old(self).seek_count(),
            r@.len() == if want <= old(self).available() {
                want as int
            } else {
                old(self).available()
            },
            old(self).cursor() <= old(self).contents().len() ==> r@ == old(
                self,
            ).contents().subrange(old(self).cursor() as int, old(self).cursor() + r@.len()),
            final(self).cursor() == old(self).cursor() + r@.len(),
    {
        let len = self.data.len();
        if self.at >= len as u64 {
            let r: Vec<u8> = Vec::new();
            assert(self.at == len as u64 ==> r@ =~= self.contents().subrange(
                self.at as int,
                self.at as int,
            ));
            return r;
        }
        let start = self.at as usize;
        let avail = len - start;
        let take = if want < avail {
            want
        } else {
            avail
        };
        let mut out: Vec<u8> = Vec::new();
        let mut i: usize = 0;
        while i < take
            invariant
                i <= take,
                start + take <= self.data.len(),
                out@ =~= self.data@.subrange(start as int, start + i),
            decreases take - i,
        {
            out.push(self.data[start + i]);
            assert(out@ =~= self.data@.subrange(start as int, start + i + 1));
            i = i + 1;
        }
        self.at = self.at + take as u64;
        out
    }
}

} // verus!
