//! An in-memory seekable byte stream: the random-access source that the
//! decoders read from. It tracks a cursor that absolute seeks may place
//! anywhere, including past the end; reads fail without moving the cursor
//! when fewer bytes remain than were asked for.

use vstd::prelude::*;

verus! {

/// A finite byte sequence with a cursor, supporting absolute seek, tell and
/// exact-length reads.
pub struct ByteStream {
    pub data: Vec<u8>,
    pub pos: usize,
}

/// The big-endian unsigned 32-bit value stored at position `p` of `d`.
pub open spec fn u32_be_at(d: Seq<u8>, p: int) -> u32 {
    (d[p] * 0x1000000 + d[p + 1] * 0x10000 + d[p + 2] * 0x100 + d[p + 3]) as u32
}

/// The big-endian signed 32-bit value stored at position `p` of `d`: the
/// unsigned value reinterpreted as two's complement.
pub open spec fn i32_be_at(d: Seq<u8>, p: int) -> i32 {
    let w = u32_be_at(d, p);
    if w >= 0x80000000 {
        (w - 0x100000000) as i32
    } else {
        w as i32
    }
}

impl ByteStream {
    pub open spec fn view(&self) -> Seq<u8> {
        self.data@
    }

    pub open spec fn cursor(&self) -> int {
        self.pos as int
    }

    /// Wraps a byte vector as a stream with the cursor at the start.
    pub fn new(data: Vec<u8>) -> (s: ByteStream)
        ensures
            s@ == data@,
            s.cursor() == 0,
    {
        ByteStream { data, pos: 0 }
    }

    /// Current cursor position.
    pub fn tell(&self) -> (p: usize)
        ensures
            p == self.cursor(),
    {
        self.pos
    }

    /// Total length of the underlying byte sequence.
    pub fn total_length(&self) -> (n: usize)
        ensures
            n == self@.len(),
    {
        self.data.len()
    }

    /// Moves the cursor to an absolute position, which may lie past the end.
    pub fn seek(&mut self, to: usize)
        ensures
            final(self)@ == old(self)@,
            final(self).cursor() == to,
    {
        self.pos = to;
    }

    /// Reads exactly `n` bytes at the cursor, advancing it; `None`, with the
    /// cursor unmoved, when fewer than `n` bytes remain.
    pub fn read_exact(&mut self, n: usize) -> (r: Option<Vec<u8>>)
        ensures
            final(self)@ == old(self)@,
            if old(self).cursor() + n <= old(self)@.len() {
                &&& r matches Some(b) && b@ == old(self)@.subrange(
                    old(self).cursor(),
                    old(self).cursor() + n,
                )
                &&& final(self).cursor() == old(self).cursor() + n
            } else {
                r is None && final(self).cursor() == old(self).cursor()
            },
    {
        if n <= self.data.len() && self.pos <= self.data.len() - n {
            let mut out: Vec<u8> = Vec::new();
            let mut i: usize = 0;
            while i < n
                invariant
                    i <= n,
                    self.pos + n <= self.data@.len(),
                    self.data@.len() <= usize::MAX,
                    out@ == self.data@.subrange(self.pos as int, self.pos + i),
                decreases n - i,
            {
                out.push(self.data[self.pos + i]);
                assert(out@ == self.data@.subrange(self.pos as int, self.pos + i + 1));
                i = i + 1;
            }
            self.pos = self.pos + n;
            Some(out)
        } else {
            None
        }
    }

    /// Reads one big-endian `u32` at the cursor, advancing it by 4; `None`,
    /// with the cursor unmoved, when fewer than 4 bytes remain.
    pub fn read_u32_be(&mut self) -> (r: Option<u32>)
        ensures
            final(self)@ == old(self)@,
            if old(self).cursor() + 4 <= old(self)@.len() {
                &&& r == Some(u32_be_at(old(self)@, old(self).cursor()))
                &&& final(self).cursor() == old(self).cursor() + 4
            } else {
                r is None && final(self).cursor() == old(self).cursor()
            },
    {
        if 4 <= self.data.len() && self.pos <= self.data.len() - 4 {
            let b0 = self.data[self.pos] as u32;
            let b1 = self.data[self.pos + 1] as u32;
            let b2 = self.data[self.pos + 2] as u32;
            let b3 = self.data[self.pos + 3] as u32;
            self.pos = self.pos + 4;
            Some(b0 * 0x1000000 + b1 * 0x10000 + b2 * 0x100 + b3)
        } else {
            None
        }
    }

    /// Reads the byte at the cursor, advancing it by 1; `None`, with the
    /// cursor unmoved, when the cursor is at or past the end.
    pub fn read_u8(&mut self) -> (r: Option<u8>)
        ensures
            final(self)@ == old(self)@,
            if old(self).cursor() < old(self)@.len() {
                &&& r == Some(old(self)@[old(self).cursor()])
                &&& final(self).cursor() == old(self).cursor() + 1
            } else {
                r is None && final(self).cursor() == old(self).cursor()
            },
    {
        if self.pos < self.data.len() {
            let b = self.data[self.pos];
            self.pos = self.pos + 1;
            Some(b)
        } else {
            None
        }
    }

    /// Reads one big-endian `u32` at the cursor and puts the cursor back: an
    /// explicit peek, used to snapshot raw offset fields.
    pub fn peek_u32_be(&mut self) -> (r: Option<u32>)
        ensures
            final(self)@ == old(self)@,
            final(self).cursor() == old(self).cursor(),
            if old(self).cursor() + 4 <= old(self)@.len() {
                r == Some(u32_be_at(old(self)@, old(self).cursor()))
            } else {
                r is None
            },
    {
        let saved = self.pos;
        let r = self.read_u32_be();
        self.pos = saved;
        r
    }

    /// Reads one big-endian `i32` at the cursor and puts the cursor back.
    pub fn peek_i32_be(&mut self) -> (r: Option<i32>)
        ensures
            final(self)@ == old(self)@,
            final(self).cursor() == old(self).cursor(),
            if old(self).cursor() + 4 <= old(self)@.len() {
                r == Some(i32_be_at(old(self)@, old(self).cursor()))
            } else {
                r is None
            },
    {
        let saved = self.pos;
        let r = self.read_i32_be();
        self.pos = saved;
        r
    }

    /// Reads one big-endian `i32` at the cursor, advancing it by 4; `None`,
    /// with the cursor unmoved, when fewer than 4 bytes remain.
    pub fn read_i32_be(&mut self) -> (r: Option<i32>)
        ensures
            final(self)@ == old(self)@,
            if old(self).cursor() + 4 <= old(self)@.len() {
                &&& r == Some(i32_be_at(old(self)@, old(self).cursor()))
                &&& final(self).cursor() == old(self).cursor() + 4
            } else {
                r is None && final(self).cursor() == old(self).cursor()
            },
    {
        match self.read_u32_be() {
            Some(w) => {
                if w >= 0x80000000 {
                    Some(((w - 0x80000000) as i32) - 0x7FFFFFFF - 1)
                } else {
                    Some(w as i32)
                }
            },
            None => None,
        }
    }
}

} // verus!
