//! Titlecase of a single codepoint, looked up in the sorted table.

use vstd::prelude::*;
use crate::ascii::upper_byte;
use crate::unicode::case_mapping_iter::{mapped_chars, CaseMappingIter};
use crate::unicode::title_table::{
    lemma_title_ascii_rows, lemma_title_sorted, title_row, title_row_at, TITLE_LEN,
};

verus! {

/// Whether the table has a row for the codepoint.
pub open spec fn has_title_row(cp: u32) -> bool {
    exists|i: int| 0 <= i < TITLE_LEN && (#[trigger] title_row(i)).0 == cp
}

/// The index of the row of the codepoint, where the table has one.
pub open spec fn title_index(cp: u32) -> int {
    choose|i: int| 0 <= i < TITLE_LEN && (#[trigger] title_row(i)).0 == cp
}

/// The three slots of the titlecase of `c`: those of its row in the table,
/// or `c` itself and two unused slots where the table has no row for it.
pub open spec fn title_slots(c: char) -> Seq<char> {
    if has_title_row(c as u32) {
        let row = title_row(title_index(c as u32));
        seq![row.1, row.2, row.3]
    } else {
        seq![c, '\0', '\0']
    }
}

/// Take a [`char`] and return its Unicode titlecase as 3 `char`s.
///
/// Trailing NUL slots in the returned array should be ignored. The row is
/// found by binary search over the keys of the table.
pub fn to_titlecase(c: char) -> (r: [char; 3])
    ensures
        r@ == title_slots(c),
{
    let cp: u32 = c as u32;
    let mut lo: usize = 0;
    let mut hi: usize = TITLE_LEN;
    while lo < hi
        invariant
            lo <= hi <= TITLE_LEN,
            cp == c as u32,
            forall|i: int| 0 <= i < lo ==> (#[trigger] title_row(i)).0 < cp,
            forall|i: int| hi <= i < TITLE_LEN ==> (#[trigger] title_row(i)).0 > cp,
        decreases hi - lo,
    {
        let mid: usize = lo + (hi - lo) / 2;
        let row = title_row_at(mid);
        if row.0 == cp {
            proof {
                assert forall|i: int| 0 <= i < TITLE_LEN && (#[trigger] title_row(i)).0 == cp implies i
                    == mid by {
                    if i < mid {
                        lemma_title_sorted(i, mid as int);
                    } else if mid < i {
                        lemma_title_sorted(mid as int, i);
                    }
                }
                assert(title_row(mid as int).0 == cp);
                assert(title_index(cp) == mid);
            }
            let r = [row.1, row.2, row.3];
            assert(r@ =~= title_slots(c));
            return r;
        } else if row.0 < cp {
            proof {
                assert forall|i: int| 0 <= i < mid + 1 implies (#[trigger] title_row(i)).0 < cp by {
                    if i < mid {
                        lemma_title_sorted(i, mid as int);
                    }
                }
            }
            lo = mid + 1;
        } else {
            proof {
                assert forall|i: int| mid <= i < TITLE_LEN implies (#[trigger] title_row(i)).0
                    > cp by {
                    if mid < i {
                        lemma_title_sorted(mid as int, i);
                    }
                }
            }
            hi = mid;
        }
    }
    let r = [c, '\0', '\0'];
    assert(r@ =~= title_slots(c));
    r
}

/// On ASCII the titlecase is the ASCII uppercase: one codepoint, the capital
/// letter for a small one and the codepoint itself otherwise.
pub proof fn lemma_title_slots_ascii(c: char)
    requires
        c as u32 <= 0x7F,
    ensures
        title_slots(c) == seq![upper_byte(c as u8) as char, '\0', '\0'],
{
    let cp = c as u32;
    if 0x61 <= cp <= 0x7A {
        let i = cp - 0x61;
        lemma_title_ascii_rows(i);
        assert(title_row(i).0 == cp);
        assert forall|j: int| 0 <= j < TITLE_LEN && (#[trigger] title_row(j)).0 == cp implies j
            == i by {
            if j < i {
                lemma_title_sorted(j, i);
            } else if i < j {
                lemma_title_sorted(i, j);
            }
        }
        assert(title_index(cp) == i);
        assert(upper_byte(c as u8) as char == (0x41 + i) as char);
    } else {
        assert forall|j: int| 0 <= j < TITLE_LEN implies (#[trigger] title_row(j)).0 != cp by {
            lemma_title_ascii_rows(0);
            if j < 26 {
                lemma_title_ascii_rows(j);
            } else if j > 26 {
                lemma_title_sorted(26, j);
            }
        }
        assert(upper_byte(c as u8) as char == c);
    }
}

/// The codepoints of the titlecase of `c`.
pub open spec fn title_chars(c: char) -> Seq<char> {
    mapped_chars(title_slots(c))
}

/// Returns an iterator that yields the titlecase equivalent of a `char`.
///
/// This `struct` is created by the `to_titlecase` method of [`Titlecase`].
#[derive(Clone, Copy, Debug)]
pub struct ToTitlecase(pub CaseMappingIter);

impl View for ToTitlecase {
    type V = Seq<char>;

    /// The codepoints still to come.
    open spec fn view(&self) -> Seq<char> {
        self.0@
    }
}

impl ToTitlecase {
    /// Yields the first codepoint still to come, if there is one.
    pub fn next(&mut self) -> (r: Option<char>)
        ensures
            old(self)@.len() == 0 ==> r is None && final(self)@ == old(self)@,
            old(self)@.len() > 0 ==> r == Some(old(self)@[0]) && final(self)@ == old(self)@.drop_first(),
    {
        self.0.next()
    }

    /// The number of codepoints still to come, as both bounds.
    pub fn size_hint(&self) -> (r: (usize, Option<usize>))
        ensures
            r.0 == self@.len(),
            r.1 == Some(r.0),
    {
        self.0.size_hint()
    }

    /// Yields the last codepoint still to come, if there is one.
    pub fn next_back(&mut self) -> (r: Option<char>)
        ensures
            old(self)@.len() == 0 ==> r is None && final(self)@ == old(self)@,
            old(self)@.len() > 0 ==> r == Some(old(self)@.last()) && final(self)@ == old(self)@.drop_last(),
    {
        self.0.next_back()
    }
}

/// Titlecase for the types that have one.
pub trait Titlecase {
    /// The titlecase of `self`, handed out codepoint by codepoint.
    fn to_titlecase(self) -> ToTitlecase;
}

impl Titlecase for char {
    fn to_titlecase(self) -> (r: ToTitlecase)
        ensures
            r@ == title_chars(self),
    {
        ToTitlecase(CaseMappingIter::new(to_titlecase(self)))
    }
}

} // verus!
