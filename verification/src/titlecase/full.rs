//! Titlecase of a byte string by full Unicode case mapping.

use vstd::prelude::*;
use crate::stream::{map_bytes, size_hint_of, CaseStream};
use crate::unicode::mapping::Case;

verus! {

/// What `s` becomes in titlecase: the first codepoint mapped to titlecase,
/// every later codepoint to lowercase, every invalid byte as it is. Invalid
/// bytes before the first codepoint do not count as first.
pub open spec fn titlecase_bytes(s: Seq<u8>) -> Seq<u8> {
    map_bytes(s, Case::Title)
}

/// An iterator over the titlecase of a conventionally UTF-8 byte string,
/// byte by byte.
pub struct Titlecase<'a> {
    stream: CaseStream<'a>,
}

impl<'a> Titlecase<'a> {
    /// The input that is not yet decoded.
    pub closed spec fn input(&self) -> Seq<u8> {
        self.stream.input()
    }

    /// The bytes still to be yielded.
    pub closed spec fn remaining(&self) -> Seq<u8> {
        self.stream.remaining()
    }

    /// Creates the iterator over `slice`.
    pub fn with_slice(slice: &'a [u8]) -> (r: Self)
        ensures
            r.input() == slice@,
            r.remaining() == titlecase_bytes(slice@),
    {
        Self { stream: CaseStream::new(slice, Case::Title) }
    }

    /// Yields the next byte of the output, if there is one. Once it has
    /// returned `None` it returns `None` ever after.
    pub fn next(&mut self) -> (r: Option<u8>)
        ensures
            old(self).remaining().len() == 0 ==> r is None && final(self).remaining() == old(
                self).remaining(),
            old(self).remaining().len() > 0 ==> r == Some(old(self).remaining()[0]) && final(
                self).remaining() == old(self).remaining().drop_first(),
            final(self).input().len() <= old(self).input().len(),
            final(self).input() == old(self).input().skip(
                old(self).input().len() - final(self).input().len(),
            ),
    {
        self.stream.next()
    }

    /// The input that is not yet decoded.
    pub fn as_bytes(&self) -> (r: &'a [u8])
        ensures
            r@ == self.input(),
    {
        self.stream.as_bytes()
    }

    /// The bounds of the number of bytes still to come, reckoned from the
    /// input that is not yet decoded.
    pub fn size_hint(&self) -> (r: (usize, Option<usize>))
        ensures
            r.0 == size_hint_of(self.input()).0,
            match size_hint_of(self.input()).1 {
                Some(upper) => r.1 == Some(upper as usize),
                None => r.1 is None,
            },
    {
        self.stream.size_hint()
    }

    /// Consumes the iterator and returns the number of bytes still to come.
    pub fn count(self) -> (r: usize)
        requires
            self.remaining().len() <= usize::MAX,
        ensures
            r == self.remaining().len(),
    {
        self.stream.count()
    }

    /// Consumes the iterator and returns the bytes still to come.
    pub fn collect(self) -> (r: Vec<u8>)
        ensures
            r@ == self.remaining(),
    {
        self.stream.collect()
    }
}

impl<'a> Clone for Titlecase<'a> {
    /// A copy of the iterator in its present state. The two advance
    /// independently over the same input.
    fn clone(&self) -> (r: Self)
        ensures
            r == *self,
    {
        Self { stream: self.stream.clone() }
    }
}

impl<'a> From<&'a [u8]> for Titlecase<'a> {
    /// The iterator over `slice`, as `with_slice` creates it.
    fn from(slice: &'a [u8]) -> (r: Self)
        ensures
            r.input() == slice@,
            r.remaining() == titlecase_bytes(slice@),
    {
        Self { stream: CaseStream::new(slice, Case::Title) }
    }
}

impl<'a> vstd::std_specs::convert::FromSpecImpl<&'a [u8]> for Titlecase<'a> {
    open spec fn obeys_from_spec() -> bool {
        true
    }

    closed spec fn from_spec(slice: &'a [u8]) -> Self {
        Titlecase { stream: CaseStream::fresh(slice, Case::Title) }
    }
}

} // verus!
