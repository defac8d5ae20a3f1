//! Octet-data objects: iteration over the fixed-width byte runs of a ranged
//! or prefixed octet-data object region.

use vstd::prelude::*;
use core::marker::PhantomData;
use crate::cursor::{u16_le_spec, ReadCursor};
use crate::error::ParseError;

verus! {

/// One octet-data value: a borrowed run of bytes.
#[derive(Debug)]
pub struct Bytes<'a> {
    /// The value's bytes.
    pub value: &'a [u8],
}

impl<'a> Bytes<'a> {
    pub fn new(value: &'a [u8]) -> (r: Self)
        ensures
            r.value@ == value@,
    {
        Bytes { value }
    }
}

/// A value that occupies a fixed number of bytes in an object region, such
/// as the index that prefixes each prefixed object.
pub trait FixedSize: Sized {
    /// The exact number of bytes one value occupies.
    spec fn size_spec() -> int;

    /// The value encoded by `data`, which holds exactly `size_spec` bytes.
    spec fn parse_spec(data: Seq<u8>) -> Self;

    /// The byte width is at least one and small.
    proof fn lemma_size_bounds()
        ensures
            1 <= Self::size_spec() <= 16,
    ;

    /// The byte width of the type.
    fn fixed_size() -> (r: usize)
        ensures
            r as int == Self::size_spec(),
    ;

    /// Reads one value, advancing the cursor by the type's width; fails
    /// without moving the cursor when too few bytes remain.
    fn parse(cursor: &mut ReadCursor<'_>) -> (r: Result<Self, ParseError>)
        requires
            old(cursor).wf(),
        ensures
            final(cursor).wf(),
            Self::size_spec() <= old(cursor).remaining().len() ==> {
                &&& r matches Ok(v)
                &&& v == Self::parse_spec(old(cursor).remaining().take(Self::size_spec()))
                &&& final(cursor).remaining() == old(cursor).remaining().skip(Self::size_spec())
            },
            Self::size_spec() > old(cursor).remaining().len() ==> r is Err && *final(cursor)
                == *old(cursor),
    ;
}

impl FixedSize for u16 {
    open spec fn size_spec() -> int {
        2
    }

    open spec fn parse_spec(data: Seq<u8>) -> u16 {
        u16_le_spec(data[0], data[1])
    }

    proof fn lemma_size_bounds() {
    }

    fn fixed_size() -> (r: usize) {
        2
    }

    fn parse(cursor: &mut ReadCursor<'_>) -> (r: Result<u16, ParseError>) {
        cursor.read_u16_le()
    }
}

/// Iterates the values of a ranged octet-data object: a run of equal-width
/// byte values indexed consecutively from the range's start.
#[derive(Debug)]
pub struct RangedBytesIterator<'a> {
    cursor: ReadCursor<'a>,
    index: usize,
    size: usize,
}

impl<'a> RangedBytesIterator<'a> {
    /// The bytes of the values not yet returned.
    pub closed spec fn data(self) -> Seq<u8> {
        self.cursor.remaining()
    }

    /// The width of each value.
    pub closed spec fn chunk_size(self) -> int {
        self.size as int
    }

    /// The index the next value carries.
    pub closed spec fn next_index(self) -> int {
        self.index as int
    }

    /// The number of values not yet returned.
    pub open spec fn items_left(self) -> int {
        self.data().len() as int / self.chunk_size()
    }

    pub open spec fn wf(self) -> bool {
        &&& self.cursor_wf()
        &&& 1 <= self.chunk_size()
        &&& self.data().len() as int % self.chunk_size() == 0
        &&& 0 <= self.next_index()
        &&& self.next_index() + self.items_left() <= 0x10000
    }

    /// The iterator's cursor is well formed.
    pub closed spec fn cursor_wf(self) -> bool {
        self.cursor.wf()
    }

    /// Takes the region of a ranged octet-data object off `cursor`:
    /// `count` values of `variation` bytes each, indexed consecutively from
    /// `start`.  A zero variation is an encoding error; so are too few
    /// remaining bytes.  On failure the cursor is left where it was.
    pub fn parse(variation: u8, start: u16, count: usize, cursor: &mut ReadCursor<'a>) -> (r:
        Result<RangedBytesIterator<'a>, ParseError>)
        requires
            old(cursor).wf(),
            variation as int * count as int <= usize::MAX,
            start as int + count as int <= 0x10000,
        ensures
            final(cursor).wf(),
            variation == 0 ==> r is Err && r->Err_0 == ParseError::ZeroLengthOctetData && *final(cursor) == *old(cursor),
            variation != 0 && variation as int * count as int <= old(cursor).remaining().len()
                ==> {
                &&& r matches Ok(it)
                &&& it.wf()
                &&& it.data() == old(cursor).remaining().take(variation as int * count as int)
                &&& it.chunk_size() == variation as int
                &&& it.next_index() == start as int
                &&& it.items_left() == count as int
                &&& final(cursor).remaining() == old(cursor).remaining().skip(
                    variation as int * count as int,
                )
            },
            variation != 0 && variation as int * count as int > old(cursor).remaining().len() ==> r
                is Err && r->Err_0 == ParseError::InsufficientBytes && *final(cursor) == *old(cursor),
    {
        if variation == 0 {
            return Err(ParseError::ZeroLengthOctetData);
        }
        let total = variation as usize * count;
        let region = match cursor.read_bytes(total) {
            Ok(b) => b,
            Err(e) => {
                return Err(e);
            },
        };
        let it = RangedBytesIterator {
            cursor: ReadCursor::new(region),
            index: start as usize,
            size: variation as usize,
        };
        proof {
            vstd::arithmetic::div_mod::lemma_mod_multiples_basic(count as int, variation as int);
            vstd::arithmetic::div_mod::lemma_div_multiples_vanish(count as int, variation as int);
            vstd::arithmetic::mul::lemma_mul_is_commutative(count as int, variation as int);
        }
        Ok(it)
    }

    /// Returns the next value and its index, or `None` when the region is
    /// exhausted.
    pub fn next(&mut self) -> (r: Option<(Bytes<'a>, u16)>)
        requires
            old(self).wf(),
        ensures
            final(self).wf(),
            old(self).data().len() == 0 ==> r is None && *final(self) == *old(self),
            old(self).data().len() > 0 ==> {
                &&& r matches Some((b, idx))
                &&& b.value@ == old(self).data().take(old(self).chunk_size())
                &&& idx as int == old(self).next_index()
                &&& final(self).data() == old(self).data().skip(old(self).chunk_size())
                &&& final(self).chunk_size() == old(self).chunk_size()
                &&& final(self).next_index() == old(self).next_index() + 1
            },
    {
        proof {
            if old(self).data().len() > 0 {
                vstd::arithmetic::div_mod::lemma_mod_is_zero(
                    old(self).data().len() as nat,
                    old(self).chunk_size() as nat,
                );
                vstd::arithmetic::div_mod::lemma_div_is_ordered(
                    old(self).chunk_size(),
                    old(self).data().len() as int,
                    old(self).chunk_size(),
                );
                vstd::arithmetic::div_mod::lemma_div_by_self(old(self).chunk_size());
            }
        }
        let b = match self.cursor.read_bytes(self.size) {
            Ok(b) => b,
            Err(_) => {
                return None;
            },
        };
        let idx = self.index as u16;
        self.index = self.index + 1;
        proof {
            vstd::arithmetic::div_mod::lemma_mod_sub_multiples_vanish(
                old(self).data().len() as int,
                old(self).chunk_size(),
            );
            vstd::arithmetic::div_mod::lemma_div_minus_one(
                old(self).data().len() as int,
                old(self).chunk_size(),
            );
        }
        Some((Bytes::new(b), idx))
    }
}

/// Iterates the values of a prefixed octet-data object: a run of pairs, each
/// a fixed-width index prefix type `T` following an equal-width byte value.
#[derive(Debug)]
pub struct PrefixedBytesIterator<'a, T: FixedSize> {
    cursor: ReadCursor<'a>,
    size: usize,
    phantom: PhantomData<T>,
}

impl<'a, T: FixedSize> PrefixedBytesIterator<'a, T> {
    /// The bytes of the pairs not yet returned.
    pub closed spec fn data(self) -> Seq<u8> {
        self.cursor.remaining()
    }

    /// The width of each value, without its prefix.
    pub closed spec fn value_size(self) -> int {
        self.size as int
    }

    /// The width of one value together with its prefix.
    pub open spec fn pair_size(self) -> int {
        self.value_size() + T::size_spec()
    }

    /// The iterator's cursor is well formed.
    pub closed spec fn cursor_wf(self) -> bool {
        self.cursor.wf()
    }

    pub open spec fn wf(self) -> bool {
        &&& self.cursor_wf()
        &&& 1 <= self.value_size()
        &&& 1 <= T::size_spec()
        &&& self.data().len() as int % self.pair_size() == 0
    }

    /// Takes the region of a prefixed octet-data object off `cursor`:
    /// `count` values of `variation` bytes, each followed by its fixed-width
    /// prefix.  A zero variation is an encoding error; so are too few
    /// remaining bytes.  On failure the cursor is left where it was.
    pub fn parse(variation: u8, count: usize, cursor: &mut ReadCursor<'a>) -> (r: Result<
        PrefixedBytesIterator<'a, T>,
        ParseError,
    >)
        requires
            old(cursor).wf(),
            (variation as int + T::size_spec()) * count as int <= usize::MAX,
        ensures
            final(cursor).wf(),
            variation == 0 ==> r is Err && r->Err_0 == ParseError::ZeroLengthOctetData && *final(cursor) == *old(cursor),
            variation != 0 && (variation as int + T::size_spec()) * count as int <= old(cursor).remaining().len() ==> {
                &&& r matches Ok(it)
                &&& it.wf()
                &&& it.data() == old(cursor).remaining().take(
                    (variation as int + T::size_spec()) * count as int,
                )
                &&& it.value_size() == variation as int
                &&& final(cursor).remaining() == old(cursor).remaining().skip(
                    (variation as int + T::size_spec()) * count as int,
                )
            },
            variation != 0 && (variation as int + T::size_spec()) * count as int > old(cursor).remaining().len() ==> r is Err && r->Err_0 == ParseError::InsufficientBytes && *final(cursor) == *old(cursor),
    {
        if variation == 0 {
            return Err(ParseError::ZeroLengthOctetData);
        }
        proof {
            T::lemma_size_bounds();
        }
        let pair = variation as usize + T::fixed_size();
        let total = pair * count;
        let region = match cursor.read_bytes(total) {
            Ok(b) => b,
            Err(e) => {
                return Err(e);
            },
        };
        let it = PrefixedBytesIterator {
            cursor: ReadCursor::new(region),
            size: variation as usize,
            phantom: PhantomData,
        };
        proof {
            vstd::arithmetic::div_mod::lemma_mod_multiples_basic(count as int, it.pair_size());
            vstd::arithmetic::mul::lemma_mul_is_commutative(count as int, it.pair_size());
        }
        Ok(it)
    }

    /// Returns the next value and its prefix, or `None` when the region is
    /// exhausted.
    pub fn next(&mut self) -> (r: Option<(Bytes<'a>, T)>)
        requires
            old(self).wf(),
        ensures
            final(self).wf(),
            old(self).data().len() == 0 ==> r is None && *final(self) == *old(self),
            old(self).data().len() > 0 ==> {
                &&& r matches Some((b, t))
                &&& b.value@ == old(self).data().take(old(self).value_size())
                &&& t == T::parse_spec(
                    old(self).data().subrange(old(self).value_size(), old(self).pair_size()),
                )
                &&& final(self).data() == old(self).data().skip(old(self).pair_size())
                &&& final(self).value_size() == old(self).value_size()
            },
    {
        proof {
            if old(self).data().len() > 0 {
                vstd::arithmetic::div_mod::lemma_mod_is_zero(
                    old(self).data().len() as nat,
                    old(self).pair_size() as nat,
                );
            }
        }
        let b = match self.cursor.read_bytes(self.size) {
            Ok(b) => b,
            Err(_) => {
                return None;
            },
        };
        let t = match T::parse(&mut self.cursor) {
            Ok(t) => t,
            Err(_) => {
                // the region always holds whole pairs, so the prefix read
                // cannot fail once the value read succeeded
                proof {
                    assert(false);
                }
                return None;
            },
        };
        proof {
            vstd::arithmetic::div_mod::lemma_mod_sub_multiples_vanish(
                old(self).data().len() as int,
                old(self).pair_size(),
            );
            assert(old(self).data().skip(old(self).value_size()).take(T::size_spec())
                =~= old(self).data().subrange(old(self).value_size(), old(self).pair_size()));
            assert(old(self).data().skip(old(self).value_size()).skip(T::size_spec())
                =~= old(self).data().skip(old(self).pair_size()));
        }
        Some((Bytes::new(b), t))
    }
}

} // verus!
