use vstd::prelude::*;

use crate::bytes::u32_at;
use crate::endian::Endian;
use crate::err::Error;

verus! {

/// A seekable byte source over the contents of one object file.
///
/// The original design shares one physical stream among all readers under a
/// strict one-borrow-at-a-time discipline; here that discipline is the
/// borrow checker's own, with the cursor passed explicitly to each reader.
/// Every read is bounds-checked: a read past the end of the data fails with
/// `Error::ReadOutOfBounds` and leaves the cursor where it stood.
pub struct Cursor {
    data: Vec<u8>,
    pos: u64,
}

impl Cursor {
    /// The bytes this cursor ranges over.
    pub closed spec fn bytes(&self) -> Seq<u8> {
        self.data@
    }

    /// The current read position.
    pub closed spec fn spec_position(&self) -> u64 {
        self.pos
    }

    /// Opens a cursor over `data`, positioned at its start.
    pub fn new(data: Vec<u8>) -> (c: Cursor)
        ensures
            c.bytes() == data@,
            c.spec_position() == 0,
    {
        Cursor { data, pos: 0 }
    }

    /// The total number of bytes available.
    pub fn len(&self) -> (n: usize)
        ensures
            n == self.bytes().len(),
    {
        self.data.len()
    }

    /// The current read position.
    pub fn position(&self) -> (p: u64)
        ensures
            p == self.spec_position(),
    {
        self.pos
    }

    /// Repositions the cursor. Seeking past the end is allowed; the next
    /// read will fail there.
    pub fn seek(&mut self, pos: u64)
        ensures
            final(self).bytes() == old(self).bytes(),
            final(self).spec_position() == pos,
    {
        self.pos = pos;
    }

    /// Reads the next four bytes as a `u32` in byte order `e`, advancing
    /// the position; fails without moving if fewer than four bytes remain.
    pub fn read_u32(&mut self, e: Endian) -> (res: Result<u32, Error>)
        ensures
            final(self).bytes() == old(self).bytes(),
            old(self).spec_position() + 4 <= old(self).bytes().len() ==> {
                &&& res == Ok::<u32, Error>(
                    u32_at(old(self).bytes(), old(self).spec_position() as int, e),
                )
                &&& final(self).spec_position() == old(self).spec_position() + 4
            },
            old(self).spec_position() + 4 > old(self).bytes().len() ==> {
                &&& res == Err::<u32, Error>(
                    Error::ReadOutOfBounds {
                        offset: old(self).spec_position(),
                        count: 4,
                        available: old(self).bytes().len() as u64,
                    },
                )
                &&& *final(self) == *old(self)
            },
    {
        let p = self.pos;
        let len = self.data.len();
        if p > len as u64 || 4 > len as u64 - p {
            return Err(
                Error::ReadOutOfBounds { offset: p, count: 4, available: len as u64 },
            );
        }
        let s = p as usize;
        let b0 = self.data[s];
        let b1 = self.data[s + 1];
        let b2 = self.data[s + 2];
        let b3 = self.data[s + 3];
        let v = match e {
            Endian::Big => ((b0 as u32) << 24) | ((b1 as u32) << 16) | ((b2 as u32) << 8) | (
            b3 as u32),
            Endian::Little => ((b3 as u32) << 24) | ((b2 as u32) << 16) | ((b1 as u32) << 8) | (
            b0 as u32),
        };
        self.pos = p + 4;
        Ok(v)
    }

    /// Reads exactly `count` bytes into a fresh buffer, advancing the
    /// position; fails without moving if fewer than `count` bytes remain.
    pub fn read_bytes(&mut self, count: usize) -> (res: Result<Vec<u8>, Error>)
        ensures
            final(self).bytes() == old(self).bytes(),
            old(self).spec_position() + count <= old(self).bytes().len() ==> {
                &&& res is Ok
                &&& res.unwrap()@ == old(self).bytes().subrange(
                    old(self).spec_position() as int,
                    old(self).spec_position() + count,
                )
                &&& final(self).spec_position() == old(self).spec_position() + count
            },
            old(self).spec_position() + count > old(self).bytes().len() ==> {
                &&& res == Err::<Vec<u8>, Error>(
                    Error::ReadOutOfBounds {
                        offset: old(self).spec_position(),
                        count: count as u64,
                        available: old(self).bytes().len() as u64,
                    },
                )
                &&& *final(self) == *old(self)
            },
    {
        let p = self.pos;
        let len = self.data.len();
        if p > len as u64 || count as u64 > len as u64 - p {
            return Err(
                Error::ReadOutOfBounds { offset: p, count: count as u64, available: len as u64 },
            );
        }
        let start = p as usize;
        let mut taken: Vec<u8> = Vec::new();
        let mut i: usize = 0;
        while i < count
            invariant
                i <= count,
                start + count <= self.data.len(),
                taken@ == self.data@.subrange(start as int, start + i),
            decreases count - i,
        {
            taken.push(self.data[start + i]);
            i = i + 1;
            assert(taken@ =~= self.data@.subrange(start as int, start + i));
        }
        self.pos = p + count as u64;
        Ok(taken)
    }
}

} // verus!
