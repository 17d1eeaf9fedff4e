//! Lowercase of a conventionally UTF-8 byte string.

pub mod ascii;
pub mod full;

use vstd::prelude::*;
use crate::ascii::lower_bytes;
use crate::lowercase::full::lowercase_bytes;

verus! {

enum Inner<'a> {
    Empty,
    Full(full::Lowercase<'a>),
    Ascii(ascii::Lowercase<'a>),
}

/// An iterator that yields the lowercase equivalent of a conventionally UTF-8
/// byte string.
///
/// This iterator yields bytes. It is created by `lowercase`, or by one of its
/// own constructors.
pub struct Lowercase<'a> {
    iter: Inner<'a>,
}

impl<'a> Clone for Lowercase<'a> {
    /// A copy of the iterator in its present state. The two advance
    /// independently over the same input.
    fn clone(&self) -> (r: Self)
        ensures
            r == *self,
    {
        let iter = match &self.iter {
            Inner::Empty => Inner::Empty,
            Inner::Full(iter) => Inner::Full(iter.clone()),
            Inner::Ascii(iter) => Inner::Ascii(iter.clone()),
        };
        Self { iter }
    }
}

impl<'a> Lowercase<'a> {
    /// The bytes still to be yielded.
    pub closed spec fn remaining(&self) -> Seq<u8> {
        match self.iter {
            Inner::Empty => Seq::empty(),
            Inner::Full(iter) => iter.remaining(),
            Inner::Ascii(iter) => iter.remaining(),
        }
    }

    /// The input that is not yet read.
    pub closed spec fn input(&self) -> Seq<u8> {
        match self.iter {
            Inner::Empty => Seq::empty(),
            Inner::Full(iter) => iter.input(),
            Inner::Ascii(iter) => iter.input(),
        }
    }

    /// Whether the iterator maps ASCII letters only.
    pub closed spec fn is_ascii_mode(&self) -> bool {
        self.iter is Ascii
    }

    /// Create a new, empty lowercase iterator.
    pub fn new() -> (r: Self)
        ensures
            r.remaining() == Seq::<u8>::empty(),
            r.input() == Seq::<u8>::empty(),
            !r.is_ascii_mode(),
    {
        Self { iter: Inner::Empty }
    }

    /// Create a new lowercase iterator with the given byte slice using full
    /// Unicode case mapping.
    ///
    /// Non-ASCII characters are case mapped, and invalid UTF-8 bytes are
    /// yielded as they are.
    pub fn with_slice(slice: &'a [u8]) -> (r: Self)
        ensures
            r.remaining() == lowercase_bytes(slice@),
            r.input() == slice@,
            !r.is_ascii_mode(),
    {
        Self { iter: Inner::Full(full::Lowercase::with_slice(slice)) }
    }

    /// Create a new lowercase iterator with the given byte slice using ASCII
    /// case mapping.
    ///
    /// Non-ASCII characters and invalid UTF-8 bytes are yielded as they are.
    pub fn with_ascii_slice(slice: &'a [u8]) -> (r: Self)
        ensures
            r.remaining() == lower_bytes(slice@),
            r.input() == slice@,
            r.is_ascii_mode(),
    {
        Self { iter: Inner::Ascii(ascii::Lowercase::with_slice(slice)) }
    }

    /// Yields the next byte of the output, if there is one. Once it has
    /// returned `None` it returns `None` ever after.
    pub fn next(&mut self) -> (r: Option<u8>)
        ensures
            old(self).remaining().len() == 0 ==> r is None && final(self).remaining() == old(
                self).remaining(),
            old(self).remaining().len() > 0 ==> r == Some(old(self).remaining()[0]) && final(
                self).remaining() == old(self).remaining().drop_first(),
            final(self).is_ascii_mode() == old(self).is_ascii_mode(),
            final(self).input().len() <= old(self).input().len(),
            final(self).input() == old(self).input().skip(
                old(self).input().len() - final(self).input().len(),
            ),
    {
        assert(self.input() =~= self.input().skip(0));
        assert(self.input().drop_first() =~= self.input().skip(1));
        match &mut self.iter {
            Inner::Empty => None,
            Inner::Full(iter) => iter.next(),
            Inner::Ascii(iter) => iter.next(),
        }
    }

    /// The input that is not yet read.
    pub fn as_bytes(&self) -> (r: &'a [u8])
        ensures
            r@ == self.input(),
    {
        match &self.iter {
            Inner::Empty => {
                let empty: &'static [u8] = &[];
                assert(empty@ =~= Seq::<u8>::empty());
                empty
            },
            Inner::Full(iter) => iter.as_bytes(),
            Inner::Ascii(iter) => iter.as_bytes(),
        }
    }

    /// The bounds of the number of bytes still to come. In ASCII mode both
    /// are the exact number. In full mode they are reckoned from the input
    /// that is not yet decoded.
    pub fn size_hint(&self) -> (r: (usize, Option<usize>))
        ensures
            self.is_ascii_mode() ==> r.0 == self.remaining().len() && r.1 == Some(r.0),
            !self.is_ascii_mode() ==> r.0 == crate::stream::size_hint_of(self.input()).0
                && match crate::stream::size_hint_of(self.input()).1 {
                Some(upper) => r.1 == Some(upper as usize),
                None => r.1 is None,
            },
    {
        match &self.iter {
            Inner::Empty => {
                assert(crate::ascii::is_ascii_bytes(Seq::<u8>::empty()));
                (0, Some(0))
            },
            Inner::Full(iter) => iter.size_hint(),
            Inner::Ascii(iter) => iter.size_hint(),
        }
    }

    /// Consumes the iterator and returns the number of bytes still to come.
    pub fn count(self) -> (r: usize)
        requires
            self.remaining().len() <= usize::MAX,
        ensures
            r == self.remaining().len(),
    {
        match self.iter {
            Inner::Empty => 0,
            Inner::Full(iter) => iter.count(),
            Inner::Ascii(iter) => iter.count(),
        }
    }

    /// Consumes the iterator and returns the bytes still to come.
    pub fn collect(self) -> (r: Vec<u8>)
        ensures
            r@ == self.remaining(),
    {
        match self.iter {
            Inner::Empty => Vec::new(),
            Inner::Full(iter) => iter.collect(),
            Inner::Ascii(iter) => iter.collect(),
        }
    }
}

} // verus!
