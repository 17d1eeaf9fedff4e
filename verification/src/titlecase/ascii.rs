//! Titlecase of a byte string by ASCII case mapping.

use vstd::prelude::*;
use crate::ascii::{byte_to_lower, byte_to_upper, lower_byte, lower_bytes, title_bytes, upper_byte};

verus! {

/// An iterator over the bytes of a slice, the first in its ASCII uppercase
/// form and the others in their ASCII lowercase form. It yields as many
/// bytes as the slice has, from either end.
///
/// From the back, the byte to be raised is the one that is yielded when no
/// other is left. So where bytes were taken from the front before, the
/// last byte to leave from the back is raised although it was not the first
/// of the slice.
pub struct Titlecase<'a> {
    slice: &'a [u8],
    first: bool,
}

impl<'a> Titlecase<'a> {
    /// The bytes of the input that are not yet yielded.
    pub closed spec fn input(&self) -> Seq<u8> {
        self.slice@
    }

    /// Whether no byte has left from the front yet.
    pub closed spec fn at_start(&self) -> bool {
        self.first
    }

    /// The bytes still to be yielded from the front.
    pub open spec fn remaining(&self) -> Seq<u8> {
        if self.at_start() {
            title_bytes(self.input())
        } else {
            lower_bytes(self.input())
        }
    }

    /// Creates the iterator over `slice`.
    pub fn with_slice(slice: &'a [u8]) -> (r: Self)
        ensures
            r.input() == slice@,
            r.at_start(),
            r.remaining() == title_bytes(slice@),
    {
        Self { slice, first: true }
    }

    /// Yields the next byte from the front, if there is one: raised where
    /// it is the first to leave from the front, lowered otherwise.
    pub fn next(&mut self) -> (r: Option<u8>)
        ensures
            old(self).input().len() == 0 ==> r is None && final(self).input() == old(self).input()
                && final(self).at_start() == old(self).at_start(),
            old(self).input().len() > 0 ==> r == Some(
                if old(self).at_start() {
                    upper_byte(old(self).input()[0])
                } else {
                    lower_byte(old(self).input()[0])
                },
            ) && final(self).input() == old(self).input().drop_first() && !final(self).at_start(),
            old(self).remaining().len() > 0 ==> r == Some(old(self).remaining()[0]) && final(
                self).remaining() == old(self).remaining().drop_first(),
            old(self).remaining().len() == 0 ==> final(self).remaining() == old(self).remaining(),
    {
        if self.slice.len() == 0 {
            return None;
        }
        let byte: u8 = self.slice[0];
        let (_, remainder) = self.slice.split_at(1);
        proof {
            assert(remainder@ =~= self.slice@.drop_first());
            assert(lower_bytes(remainder@) =~= lower_bytes(self.slice@).drop_first());
            assert(lower_bytes(remainder@) =~= title_bytes(self.slice@).drop_first());
        }
        self.slice = remainder;
        if self.first {
            self.first = false;
            Some(byte_to_upper(byte))
        } else {
            Some(byte_to_lower(byte))
        }
    }

    /// Yields the next byte from the back, if there is one: raised where no
    /// other byte is left, lowered otherwise.
    pub fn next_back(&mut self) -> (r: Option<u8>)
        ensures
            old(self).input().len() == 0 ==> r is None && final(self).input() == old(self).input(),
            old(self).input().len() == 1 ==> r == Some(upper_byte(old(self).input().last())),
            old(self).input().len() > 1 ==> r == Some(lower_byte(old(self).input().last())),
            old(self).input().len() > 0 ==> final(self).input() == old(self).input().drop_last(),
            final(self).at_start() == old(self).at_start(),
            old(self).at_start() && old(self).input().len() > 0 ==> r == Some(
                old(self).remaining().last(),
            ) && final(self).remaining() == old(self).remaining().drop_last(),
    {
        let len: usize = self.slice.len();
        if len == 0 {
            return None;
        }
        let byte: u8 = self.slice[len - 1];
        let (remainder, _) = self.slice.split_at(len - 1);
        proof {
            assert(remainder@ =~= self.slice@.drop_last());
            assert(title_bytes(remainder@) =~= title_bytes(self.slice@).drop_last());
        }
        self.slice = remainder;
        if remainder.len() == 0 {
            Some(byte_to_upper(byte))
        } else {
            Some(byte_to_lower(byte))
        }
    }

    /// The bytes of the input that are not yet yielded.
    pub fn as_bytes(&self) -> (r: &'a [u8])
        ensures
            r@ == self.input(),
    {
        self.slice
    }

    /// The exact number of bytes still to come, as both bounds.
    pub fn size_hint(&self) -> (r: (usize, Option<usize>))
        ensures
            r.0 == self.remaining().len(),
            r.1 == Some(r.0),
    {
        let len: usize = self.slice.len();
        (len, Some(len))
    }

    /// Consumes the iterator and returns the number of bytes still to come.
    pub fn count(self) -> (r: usize)
        ensures
            r == self.remaining().len(),
            r == self.input().len(),
    {
        self.slice.len()
    }

    /// Consumes the iterator and returns the bytes still to come from the
    /// front.
    pub fn collect(self) -> (r: Vec<u8>)
        ensures
            r@ == self.remaining(),
    {
        if self.first {
            crate::ascii::to_ascii_titlecase(self.slice)
        } else {
            crate::ascii::to_ascii_lowercase(self.slice)
        }
    }
}

impl<'a> Clone for Titlecase<'a> {
    /// A copy of the iterator in its present state. The two advance
    /// independently over the same input.
    fn clone(&self) -> (r: Self)
        ensures
            r == *self,
    {
        Self { slice: self.slice, first: self.first }
    }
}

impl<'a> From<&'a [u8]> for Titlecase<'a> {
    /// The iterator over `slice`, as `with_slice` creates it.
    fn from(slice: &'a [u8]) -> (r: Self)
        ensures
            r.input() == slice@,
            r.at_start(),
    {
        Self { slice, first: true }
    }
}

impl<'a> vstd::std_specs::convert::FromSpecImpl<&'a [u8]> for Titlecase<'a> {
    open spec fn obeys_from_spec() -> bool {
        true
    }

    closed spec fn from_spec(slice: &'a [u8]) -> Self {
        Titlecase { slice, first: true }
    }
}

} // verus!
