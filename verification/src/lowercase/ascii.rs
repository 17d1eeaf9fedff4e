//! Lowercase of a byte string by ASCII case mapping.

use vstd::prelude::*;
use crate::ascii::{byte_to_lower, lower_byte, lower_bytes};

verus! {

/// An iterator over the bytes of a slice, each in its ASCII lowercase form.
/// It yields as many bytes as the slice has, from either end.
pub struct Lowercase<'a> {
    slice: &'a [u8],
}

impl<'a> Lowercase<'a> {
    /// The bytes of the input that are not yet yielded.
    pub closed spec fn input(&self) -> Seq<u8> {
        self.slice@
    }

    /// The bytes still to be yielded, front to back.
    pub open spec fn remaining(&self) -> Seq<u8> {
        lower_bytes(self.input())
    }

    /// Creates the iterator over `slice`.
    pub fn with_slice(slice: &'a [u8]) -> (r: Self)
        ensures
            r.input() == slice@,
            r.remaining() == lower_bytes(slice@),
    {
        Self { slice }
    }

    /// Yields the next byte from the front, if there is one.
    pub fn next(&mut self) -> (r: Option<u8>)
        ensures
            old(self).input().len() == 0 ==> r is None && final(self).input() == old(self).input(),
            old(self).input().len() > 0 ==> r == Some(lower_byte(old(self).input()[0])) && final(
                self).input() == old(self).input().drop_first(),
            old(self).remaining().len() > 0 ==> r == Some(old(self).remaining()[0]) && final(
                self).remaining() == old(self).remaining().drop_first(),
    {
        if self.slice.len() == 0 {
            return None;
        }
        let byte: u8 = self.slice[0];
        let (_, remainder) = self.slice.split_at(1);
        proof {
            assert(remainder@ =~= self.slice@.drop_first());
            assert(lower_bytes(remainder@) =~= lower_bytes(self.slice@).drop_first());
        }
        self.slice = remainder;
        Some(byte_to_lower(byte))
    }

    /// Yields the next byte from the back, if there is one.
    pub fn next_back(&mut self) -> (r: Option<u8>)
        ensures
            old(self).input().len() == 0 ==> r is None && final(self).input() == old(self).input(),
            old(self).input().len() > 0 ==> r == Some(lower_byte(old(self).input().last()))
                && final(self).input() == old(self).input().drop_last(),
            old(self).remaining().len() > 0 ==> r == Some(old(self).remaining().last()) && final(
                self).remaining() == old(self).remaining().drop_last(),
    {
        let len: usize = self.slice.len();
        if len == 0 {
            return None;
        }
        let byte: u8 = self.slice[len - 1];
        let (remainder, _) = self.slice.split_at(len - 1);
        proof {
            assert(remainder@ =~= self.slice@.drop_last());
            assert(lower_bytes(remainder@) =~= lower_bytes(self.slice@).drop_last());
        }
        self.slice = remainder;
        Some(byte_to_lower(byte))
    }

    /// The bytes of the input that are not yet yielded.
    pub fn as_bytes(&self) -> (r: &'a [u8])
        ensures
            r@ == self.input(),
    {
        self.slice
    }

    /// The exact number of bytes still to come, as both bounds.
    pub fn size_hint(&self) -> (r: (usize, Option<usize>))
        ensures
            r.0 == self.remaining().len(),
            r.1 == Some(r.0),
    {
        let len: usize = self.slice.len();
        (len, Some(len))
    }

    /// Consumes the iterator and returns the number of bytes still to come.
    pub fn count(self) -> (r: usize)
        ensures
            r == self.remaining().len(),
            r == self.input().len(),
    {
        self.slice.len()
    }

    /// Consumes the iterator and returns the bytes still to come.
    pub fn collect(self) -> (r: Vec<u8>)
        ensures
            r@ == self.remaining(),
    {
        crate::ascii::to_ascii_lowercase(self.slice)
    }
}

impl<'a> Clone for Lowercase<'a> {
    /// A copy of the iterator in its present state. The two advance
    /// independently over the same input.
    fn clone(&self) -> (r: Self)
        ensures
            r == *self,
    {
        Self { slice: self.slice }
    }
}

impl<'a> From<&'a [u8]> for Lowercase<'a> {
    /// The iterator over `slice`, as `with_slice` creates it.
    fn from(slice: &'a [u8]) -> (r: Self)
        ensures
            r.input() == slice@,
    {
        Self { slice }
    }
}

impl<'a> vstd::std_specs::convert::FromSpecImpl<&'a [u8]> for Lowercase<'a> {
    open spec fn obeys_from_spec() -> bool {
        true
    }

    closed spec fn from_spec(slice: &'a [u8]) -> Self {
        Lowercase { slice }
    }
}

} // verus!
