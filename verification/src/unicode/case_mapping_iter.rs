//! The one to three codepoints of a case mapping, handed out one by one.

use vstd::prelude::*;

verus! {

/// The codepoints that three slots stand for: trailing NUL slots are unused,
/// but the first slot always counts, so a mapping has one to three codepoints.
pub open spec fn mapped_chars(slots: Seq<char>) -> Seq<char> {
    if slots[2] == '\0' {
        if slots[1] == '\0' {
            seq![slots[0]]
        } else {
            seq![slots[0], slots[1]]
        }
    } else {
        seq![slots[0], slots[1], slots[2]]
    }
}

/// The codepoints of a case mapping that are still to be yielded.
#[derive(Debug, Clone, Copy)]
pub enum CaseMappingIter {
    /// Three codepoints are left.
    Three(char, char, char),
    /// Two codepoints are left.
    Two(char, char),
    /// One codepoint is left.
    One(char),
    /// Nothing is left.
    Zero,
}

impl View for CaseMappingIter {
    type V = Seq<char>;

    /// The codepoints still to come, in the order in which `next` yields them.
    open spec fn view(&self) -> Seq<char> {
        match *self {
            CaseMappingIter::Three(a, b, c) => seq![a, b, c],
            CaseMappingIter::Two(b, c) => seq![b, c],
            CaseMappingIter::One(c) => seq![c],
            CaseMappingIter::Zero => seq![],
        }
    }
}

impl CaseMappingIter {
    /// Builds the iterator over the mapping that three slots stand for.
    pub fn new(chars: [char; 3]) -> (r: CaseMappingIter)
        ensures
            r@ == mapped_chars(chars@),
    {
        if chars[2] == '\0' {
            if chars[1] == '\0' {
                CaseMappingIter::One(chars[0])
            } else {
                CaseMappingIter::Two(chars[0], chars[1])
            }
        } else {
            CaseMappingIter::Three(chars[0], chars[1], chars[2])
        }
    }

    /// Yields the first codepoint still to come, if there is one.
    pub fn next(&mut self) -> (r: Option<char>)
        ensures
            old(self)@.len() == 0 ==> r is None && final(self)@ == old(self)@,
            old(self)@.len() > 0 ==> r == Some(old(self)@[0]) && final(self)@ == old(self)@.drop_first(),
        no_unwind
    {
        match *self {
            CaseMappingIter::Three(a, b, c) => {
                *self = CaseMappingIter::Two(b, c);
                assert(seq![b, c] =~= seq![a, b, c].drop_first());
                Some(a)
            },
            CaseMappingIter::Two(b, c) => {
                *self = CaseMappingIter::One(c);
                assert(seq![c] =~= seq![b, c].drop_first());
                Some(b)
            },
            CaseMappingIter::One(c) => {
                *self = CaseMappingIter::Zero;
                assert(Seq::<char>::empty() =~= seq![c].drop_first());
                Some(c)
            },
            CaseMappingIter::Zero => None,
        }
    }

    /// Yields the last codepoint still to come, if there is one.
    pub fn next_back(&mut self) -> (r: Option<char>)
        ensures
            old(self)@.len() == 0 ==> r is None && final(self)@ == old(self)@,
            old(self)@.len() > 0 ==> r == Some(old(self)@.last()) && final(self)@ == old(self)@.drop_last(),
    {
        match *self {
            CaseMappingIter::Three(a, b, c) => {
                *self = CaseMappingIter::Two(a, b);
                assert(seq![a, b] =~= seq![a, b, c].drop_last());
                Some(c)
            },
            CaseMappingIter::Two(b, c) => {
                *self = CaseMappingIter::One(b);
                assert(seq![b] =~= seq![b, c].drop_last());
                Some(c)
            },
            CaseMappingIter::One(c) => {
                *self = CaseMappingIter::Zero;
                assert(Seq::<char>::empty() =~= seq![c].drop_last());
                Some(c)
            },
            CaseMappingIter::Zero => None,
        }
    }

    /// The number of codepoints still to come, as both bounds.
    pub fn size_hint(&self) -> (r: (usize, Option<usize>))
        ensures
            r.0 == self@.len(),
            r.1 == Some(r.0),
    {
        let size: usize = match self {
            CaseMappingIter::Three(_, _, _) => 3,
            CaseMappingIter::Two(_, _) => 2,
            CaseMappingIter::One(_) => 1,
            CaseMappingIter::Zero => 0,
        };
        (size, Some(size))
    }
}

/// Appends a codepoint to a string.
///
/// Calls `String::push`. Claimed of it: the string afterwards is the string
/// before with `c` at its end.
#[verifier::external_body]
fn push_char(s: &mut String, c: char)
    ensures
        final(s)@ == old(s)@.push(c),
{
    s.push(c);
}

impl CaseMappingIter {
    /// The codepoints still to come, as a string.
    pub fn to_string(&self) -> (r: String)
        ensures
            r@ == self@,
    {
        let mut out = String::new();
        match *self {
            CaseMappingIter::Three(a, b, c) => {
                push_char(&mut out, a);
                push_char(&mut out, b);
                push_char(&mut out, c);
            },
            CaseMappingIter::Two(b, c) => {
                push_char(&mut out, b);
                push_char(&mut out, c);
            },
            CaseMappingIter::One(c) => {
                push_char(&mut out, c);
            },
            CaseMappingIter::Zero => {},
        }
        assert(out@ =~= self@);
        out
    }
}

/// A mapping has one, two or three codepoints, and the first slot leads it.
pub proof fn lemma_mapped_chars(slots: Seq<char>)
    ensures
        1 <= mapped_chars(slots).len() <= 3,
        mapped_chars(slots)[0] == slots[0],
{
}

} // verus!
