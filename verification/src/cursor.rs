//! A read cursor over a borrowed byte slice: the primitive the object
//! iterators consume their payload regions through.

use vstd::prelude::*;
use crate::error::ParseError;

verus! {

/// The value encoded little-endian by two bytes.
pub open spec fn u16_le_spec(lo: u8, hi: u8) -> u16 {
    (lo + hi * 256) as u16
}

/// A position within a borrowed byte slice; reads hand out sub-slices and
/// advance the position, and fail without moving it when too few bytes
/// remain.
#[derive(Debug)]
pub struct ReadCursor<'a> {
    data: &'a [u8],
    pos: usize,
}

impl<'a> ReadCursor<'a> {
    /// The bytes not yet consumed.
    pub closed spec fn remaining(self) -> Seq<u8> {
        self.data@.skip(self.pos as int)
    }

    pub closed spec fn wf(self) -> bool {
        self.pos <= self.data@.len()
    }

    pub fn new(data: &'a [u8]) -> (r: Self)
        ensures
            r.wf(),
            r.remaining() == data@,
    {
        let r = ReadCursor { data, pos: 0 };
        proof {
            assert(r.remaining() =~= data@);
        }
        r
    }

    /// How many bytes are left to read.
    pub fn remaining_len(&self) -> (r: usize)
        requires
            self.wf(),
        ensures
            r as int == self.remaining().len(),
    {
        self.data.len() - self.pos
    }

    /// Reads the next `count` bytes as one sub-slice.
    pub fn read_bytes(&mut self, count: usize) -> (r: Result<&'a [u8], ParseError>)
        requires
            old(self).wf(),
        ensures
            final(self).wf(),
            count as int <= old(self).remaining().len() ==> {
                &&& r matches Ok(b)
                &&& b@ == old(self).remaining().take(count as int)
                &&& final(self).remaining() == old(self).remaining().skip(count as int)
            },
            count as int > old(self).remaining().len() ==> r == Err::<&'a [u8], ParseError>(
                ParseError::InsufficientBytes,
            ) && *final(self) == *old(self),
    {
        if count > self.data.len() - self.pos {
            return Err(ParseError::InsufficientBytes);
        }
        let b = vstd::slice::slice_subrange(self.data, self.pos, self.pos + count);
        self.pos = self.pos + count;
        proof {
            assert(b@ =~= old(self).remaining().take(count as int));
            assert(self.remaining() =~= old(self).remaining().skip(count as int));
        }
        Ok(b)
    }

    /// Reads a little-endian 16-bit value.
    pub fn read_u16_le(&mut self) -> (r: Result<u16, ParseError>)
        requires
            old(self).wf(),
        ensures
            final(self).wf(),
            old(self).remaining().len() >= 2 ==> {
                &&& r matches Ok(v)
                &&& v == u16_le_spec(old(self).remaining()[0], old(self).remaining()[1])
                &&& final(self).remaining() == old(self).remaining().skip(2)
            },
            old(self).remaining().len() < 2 ==> r == Err::<u16, ParseError>(
                ParseError::InsufficientBytes,
            ) && *final(self) == *old(self),
    {
        if self.data.len() - self.pos < 2 {
            return Err(ParseError::InsufficientBytes);
        }
        let lo = *vstd::slice::slice_index_get(self.data, self.pos);
        let hi = *vstd::slice::slice_index_get(self.data, self.pos + 1);
        self.pos = self.pos + 2;
        proof {
            assert(self.remaining() =~= old(self).remaining().skip(2));
            assert(((lo as u16) | ((hi as u16) << 8)) as int == lo as int + hi as int * 256)
                by (bit_vector);
        }
        Ok((lo as u16) | ((hi as u16) << 8))
    }
}

} // verus!
