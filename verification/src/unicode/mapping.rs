//! The case mapping of one codepoint: lowercase and uppercase as the
//! standard library has them, titlecase from the table of this crate.

use vstd::prelude::*;
use crate::ascii::{lower_byte, upper_byte};
use crate::unicode::case_mapping_iter::{lemma_mapped_chars, mapped_chars, CaseMappingIter};
use crate::unicode::titlecase::{lemma_title_slots_ascii, title_slots, to_titlecase};

verus! {

/// The case that a codepoint is mapped to.
#[derive(Debug, Clone, Copy, PartialEq, Eq, Structural)]
pub enum Case {
    /// Lowercase.
    Lower,
    /// Uppercase.
    Upper,
    /// Titlecase for the next codepoint, and lowercase for those after it.
    Title,
}

/// The first three codepoints that `char::to_lowercase` yields for `c`, each
/// absent where the mapping has ended before it.
pub uninterp spec fn lower_slots(c: char) -> (Option<char>, Option<char>, Option<char>);

/// The first three codepoints that `char::to_uppercase` yields for `c`, each
/// absent where the mapping has ended before it.
pub uninterp spec fn upper_slots(c: char) -> (Option<char>, Option<char>, Option<char>);

/// The codepoints that an iterator has yielded into three slots before it
/// ended.
pub open spec fn yielded(slots: (Option<char>, Option<char>, Option<char>)) -> Seq<char> {
    match slots {
        (None, _, _) => seq![],
        (Some(a), None, _) => seq![a],
        (Some(a), Some(b), None) => seq![a, b],
        (Some(a), Some(b), Some(c)) => seq![a, b, c],
    }
}

/// The codepoints that `c` maps to in `case`. On ASCII, lowercase and
/// uppercase are the ASCII mappings of the byte; beyond ASCII they are what
/// the standard library has. Titlecase is that of the table of this crate.
pub open spec fn case_chars(c: char, case: Case) -> Seq<char> {
    match case {
        Case::Lower => if c as u32 <= 0x7F {
            seq![lower_byte(c as u8) as char]
        } else {
            yielded(lower_slots(c))
        },
        Case::Upper => if c as u32 <= 0x7F {
            seq![upper_byte(c as u8) as char]
        } else {
            yielded(upper_slots(c))
        },
        Case::Title => mapped_chars(title_slots(c)),
    }
}

/// The lowercase mapping of `c` as the standard library has it.
///
/// Calls `char::to_lowercase` and asks the iterator three times for a
/// codepoint. Claimed of it: what it yields depends on `c` alone; it yields
/// at least one codepoint; and for an ASCII `c` it yields the ASCII lowercase
/// of `c` and nothing else.
#[verifier::external_body]
pub(crate) fn lowercase_slots(c: char) -> (r: (Option<char>, Option<char>, Option<char>))
    ensures
        r == lower_slots(c),
        r.0 is Some,
        c as u32 <= 0x7F ==> r == (Some(lower_byte(c as u8) as char), None::<char>, None::<char>),
{
    let mut mapping = c.to_lowercase();
    (mapping.next(), mapping.next(), mapping.next())
}

/// The uppercase mapping of `c` as the standard library has it.
///
/// Calls `char::to_uppercase` and asks the iterator three times for a
/// codepoint. Claimed of it: what it yields depends on `c` alone; it yields
/// at least one codepoint; and for an ASCII `c` it yields the ASCII uppercase
/// of `c` and nothing else.
#[verifier::external_body]
pub(crate) fn uppercase_slots(c: char) -> (r: (Option<char>, Option<char>, Option<char>))
    ensures
        r == upper_slots(c),
        r.0 is Some,
        c as u32 <= 0x7F ==> r == (Some(upper_byte(c as u8) as char), None::<char>, None::<char>),
{
    let mut mapping = c.to_uppercase();
    (mapping.next(), mapping.next(), mapping.next())
}

/// The iterator over the codepoints that were yielded into three slots.
fn from_slots(slots: (Option<char>, Option<char>, Option<char>)) -> (r: CaseMappingIter)
    ensures
        r@ == yielded(slots),
{
    match slots {
        (None, _, _) => CaseMappingIter::Zero,
        (Some(a), None, _) => CaseMappingIter::One(a),
        (Some(a), Some(b), None) => CaseMappingIter::Two(a, b),
        (Some(a), Some(b), Some(c)) => CaseMappingIter::Three(a, b, c),
    }
}

/// Maps one codepoint to the given case. The mapping has one to three
/// codepoints.
pub fn case_mapping(c: char, case: Case) -> (r: CaseMappingIter)
    ensures
        r@ == case_chars(c, case),
        1 <= r@.len() <= 3,
{
    match case {
        Case::Lower => from_slots(lowercase_slots(c)),
        Case::Upper => from_slots(uppercase_slots(c)),
        Case::Title => {
            let slots = to_titlecase(c);
            proof {
                lemma_mapped_chars(slots@);
            }
            CaseMappingIter::new(slots)
        },
    }
}

/// No mapping has more than three codepoints.
pub proof fn lemma_case_chars_len(c: char, case: Case)
    ensures
        case_chars(c, case).len() <= 3,
{
    lemma_mapped_chars(title_slots(c));
}

/// An ASCII codepoint maps to one ASCII codepoint, in every case: to its
/// ASCII lowercase for `Lower`, to its ASCII uppercase for `Upper` and
/// `Title`.
pub proof fn lemma_case_chars_ascii(c: char, case: Case)
    requires
        c as u32 <= 0x7F,
    ensures
        case_chars(c, case) == seq![
            (if case == Case::Lower {
                lower_byte(c as u8)
            } else {
                upper_byte(c as u8)
            }) as char,
        ],
{
    lemma_title_slots_ascii(c);
    let b = if case == Case::Lower {
        lower_byte(c as u8)
    } else {
        upper_byte(c as u8)
    };
    assert(mapped_chars(seq![b as char, '\0', '\0']) =~= seq![b as char]);
}

} // verus!
