//! The streaming case mapper: it decodes one unit of the input at a time,
//! maps it, and hands the bytes of the result out one by one.

use vstd::prelude::*;
use vstd::utf8::{
    encode_scalar, encode_utf8 as utf8_bytes, encode_utf8_valid_utf8, pop_first_scalar,
    valid_utf8, valid_utf8_concat,
};
use crate::unicode::case_mapping_iter::CaseMappingIter;
use crate::ascii::{
    is_ascii, is_ascii_bytes, lower_byte, lower_bytes, title_bytes, upper_byte, upper_bytes,
};
use crate::unicode::mapping::{
    case_chars, case_mapping, lemma_case_chars_ascii, lemma_case_chars_len, Case,
};
use crate::utf8::{
    decode_utf8, encode_utf8, first_unit, lemma_first_unit_ascii, lemma_first_unit_len,
};

verus! {

/// The case for the codepoints that follow one mapped to `case`: titlecase
/// is for one codepoint, and lowercase follows it.
pub open spec fn next_case(case: Case) -> Case {
    if case == Case::Title {
        Case::Lower
    } else {
        case
    }
}

/// What the first unit of a non-empty `s` becomes: the encoded mapping of a
/// codepoint, or the bytes of an invalid run as they are.
pub open spec fn unit_output(s: Seq<u8>, case: Case) -> Seq<u8> {
    match first_unit(s).0 {
        Some(c) => utf8_bytes(case_chars(c, case)),
        None => s.take(first_unit(s).1),
    }
}

/// The case for what follows the first unit of `s`: an invalid run leaves it
/// as it is.
pub open spec fn case_after_unit(s: Seq<u8>, case: Case) -> Case {
    match first_unit(s).0 {
        Some(_) => next_case(case),
        None => case,
    }
}

/// The bytes that `s` maps to, unit by unit, starting in `case`.
#[verifier::opaque]
pub open spec fn map_bytes(s: Seq<u8>, case: Case) -> Seq<u8>
    decreases s.len(),
{
    if s.len() == 0 {
        seq![]
    } else {
        unit_output(s, case) + map_bytes(s.skip(first_unit(s).1), case_after_unit(s, case))
    }
}

/// A non-empty string maps to the output of its first unit, followed by what
/// the rest maps to.
pub proof fn lemma_map_bytes_unfold(s: Seq<u8>, case: Case)
    requires
        s.len() > 0,
    ensures
        map_bytes(s, case) == unit_output(s, case) + map_bytes(
            s.skip(first_unit(s).1),
            case_after_unit(s, case),
        ),
{
    reveal_with_fuel(map_bytes, 2);
}

/// The empty string maps to the empty string.
pub proof fn lemma_map_bytes_empty(case: Case)
    ensures
        map_bytes(Seq::<u8>::empty(), case) == Seq::<u8>::empty(),
{
    reveal_with_fuel(map_bytes, 1);
}

/// What ASCII-only case mapping makes of `s` for `case`: for `Title` the
/// first byte is raised and the others are lowered.
pub open spec fn ascii_mapped(s: Seq<u8>, case: Case) -> Seq<u8> {
    match case {
        Case::Lower => lower_bytes(s),
        Case::Upper => upper_bytes(s),
        Case::Title => title_bytes(s),
    }
}

/// The two bounds of the size hint for input `s`: the number of bytes of the
/// input, and the same number where the input is ASCII only, else twelve
/// times that number, where it fits in `usize`.
pub open spec fn size_hint_of(s: Seq<u8>) -> (nat, Option<nat>) {
    if is_ascii_bytes(s) {
        (s.len(), Some(s.len()))
    } else if s.len() * 12 <= usize::MAX {
        (s.len(), Some(s.len() * 12))
    } else {
        (s.len(), None)
    }
}

/// The encoding of a sequence of codepoints has at least one byte and at
/// most four bytes for each of them.
pub proof fn lemma_utf8_bytes_len(chars: Seq<char>)
    ensures
        chars.len() <= utf8_bytes(chars).len() <= 4 * chars.len(),
    decreases chars.len(),
{
    if chars.len() > 0 {
        lemma_utf8_bytes_len(chars.drop_first());
    }
}

/// The encoding of one ASCII codepoint is the byte of its number.
pub proof fn lemma_utf8_bytes_ascii(b: u8)
    requires
        b <= 0x7F,
    ensures
        utf8_bytes(seq![b as char]) == seq![b],
{
    let v = b as u32;
    assert((v & 0x7F) as u8 == b) by (bit_vector)
        requires
            v == b as u32,
            b <= 0x7F,
    ;
    assert(seq![b as char].drop_first() =~= Seq::<char>::empty());
    assert(utf8_bytes(seq![b as char]) =~= encode_scalar(v) + utf8_bytes(Seq::<char>::empty()));
    assert(utf8_bytes(seq![b as char]) =~= seq![b]);
}

/// On ASCII-only input the full mapping is the ASCII-only mapping: no byte
/// is added or taken away.
pub proof fn lemma_map_bytes_ascii(s: Seq<u8>, case: Case)
    requires
        is_ascii_bytes(s),
    ensures
        map_bytes(s, case) == ascii_mapped(s, case),
        map_bytes(s, case).len() == s.len(),
    decreases s.len(),
{
    if s.len() == 0 {
        assert(s =~= Seq::<u8>::empty());
        lemma_map_bytes_empty(case);
        assert(map_bytes(s, case) =~= ascii_mapped(s, case));
    } else {
        let b = s[0];
        let m = if case == Case::Lower {
            lower_byte(b)
        } else {
            upper_byte(b)
        };
        lemma_first_unit_ascii(s);
        lemma_map_bytes_unfold(s, case);
        lemma_case_chars_ascii(b as char, case);
        lemma_utf8_bytes_ascii(m);
        let rest = s.skip(1);
        lemma_map_bytes_ascii(rest, next_case(case));
        assert(unit_output(s, case) == seq![m]);
        assert(map_bytes(s, case) == seq![m] + ascii_mapped(rest, next_case(case)));
        assert(seq![m] + ascii_mapped(rest, next_case(case)) =~= ascii_mapped(s, case));
    }
}

/// No input maps to more than twelve times its length: a unit has at least
/// one byte, and a codepoint maps to at most three codepoints of at most four
/// bytes each.
pub proof fn lemma_map_bytes_upper_bound(s: Seq<u8>, case: Case)
    ensures
        map_bytes(s, case).len() <= 12 * s.len(),
    decreases s.len(),
{
    if s.len() == 0 {
        assert(s =~= Seq::<u8>::empty());
        lemma_map_bytes_empty(case);
    } else {
        lemma_first_unit_len(s);
        lemma_map_bytes_unfold(s, case);
        let n = first_unit(s).1;
        lemma_map_bytes_upper_bound(s.skip(n), case_after_unit(s, case));
        match first_unit(s).0 {
            Some(c) => {
                lemma_case_chars_len(c, case);
                lemma_utf8_bytes_len(case_chars(c, case));
            },
            None => {},
        }
    }
}

/// Well-formed UTF-8 maps to well-formed UTF-8.
pub proof fn lemma_map_bytes_valid_utf8(s: Seq<u8>, case: Case)
    requires
        valid_utf8(s),
    ensures
        valid_utf8(map_bytes(s, case)),
    decreases s.len(),
{
    if s.len() == 0 {
        assert(s =~= Seq::<u8>::empty());
        lemma_map_bytes_empty(case);
    } else {
        lemma_first_unit_len(s);
        lemma_map_bytes_unfold(s, case);
        let n = first_unit(s).1;
        let c = first_unit(s).0.unwrap();
        assert(s.skip(n) =~= pop_first_scalar(s));
        lemma_map_bytes_valid_utf8(s.skip(n), case_after_unit(s, case));
        encode_utf8_valid_utf8(case_chars(c, case));
        valid_utf8_concat(
            utf8_bytes(case_chars(c, case)),
            map_bytes(s.skip(n), case_after_unit(s, case)),
        );
    }
}

/// Whether no codepoint of `s` maps to fewer bytes than encode it, each
/// taken in the case in which `map_bytes` maps it.
pub open spec fn no_unit_shrinks(s: Seq<u8>, case: Case) -> bool
    decreases s.len(),
{
    if s.len() == 0 {
        true
    } else {
        unit_output(s, case).len() >= first_unit(s).1 && no_unit_shrinks(
            s.skip(first_unit(s).1),
            case_after_unit(s, case),
        )
    }
}

/// Where no codepoint maps to fewer bytes than encode it, the output is at
/// least as long as the input.
pub proof fn lemma_map_bytes_lower_bound(s: Seq<u8>, case: Case)
    requires
        no_unit_shrinks(s, case),
    ensures
        s.len() <= map_bytes(s, case).len(),
    decreases s.len(),
{
    if s.len() > 0 {
        lemma_first_unit_len(s);
        lemma_map_bytes_unfold(s, case);
        lemma_map_bytes_lower_bound(s.skip(first_unit(s).1), case_after_unit(s, case));
    }
}

/// The size hint of a fresh mapper is sound above: where it names an upper
/// bound, the output is no longer than that. On ASCII-only input both bounds
/// are the length of the output. The lower bound holds where no codepoint
/// maps to fewer bytes than encode it.
pub proof fn lemma_size_hint_sound(s: Seq<u8>, case: Case)
    ensures
        size_hint_of(s).1 matches Some(upper) ==> map_bytes(s, case).len() <= upper,
        is_ascii_bytes(s) ==> size_hint_of(s) == (
            map_bytes(s, case).len(),
            Some(map_bytes(s, case).len()),
        ),
        no_unit_shrinks(s, case) ==> size_hint_of(s).0 <= map_bytes(s, case).len(),
{
    lemma_map_bytes_upper_bound(s, case);
    if is_ascii_bytes(s) {
        lemma_map_bytes_ascii(s, case);
    }
    if no_unit_shrinks(s, case) {
        lemma_map_bytes_lower_bound(s, case);
    }
}

/// A half-open range of indices into the staging buffer.
#[derive(Clone, Copy)]
struct Staged {
    start: usize,
    end: usize,
}

/// The streaming case mapper over a byte string.
pub struct CaseStream<'a> {
    slice: &'a [u8],
    next_bytes: [u8; 4],
    next_range: Staged,
    pending: CaseMappingIter,
    case: Case,
}

impl<'a> Clone for CaseStream<'a> {
    /// A copy of the mapper in its present state. The two advance
    /// independently over the same input.
    fn clone(&self) -> (r: Self)
        ensures
            r == *self,
    {
        proof {
            use_type_invariant(self);
        }
        CaseStream {
            slice: self.slice,
            next_bytes: self.next_bytes,
            next_range: self.next_range,
            pending: self.pending,
            case: self.case,
        }
    }
}

impl<'a> CaseStream<'a> {
    /// The staged range lies within the staging buffer.
    #[verifier::type_invariant]
    spec fn staged_in_buffer(&self) -> bool {
        self.next_range.start <= self.next_range.end <= 4
    }

    /// The input that is not yet decoded.
    pub closed spec fn input(&self) -> Seq<u8> {
        self.slice@
    }

    /// The bytes that are staged for output.
    pub closed spec fn staged(&self) -> Seq<u8> {
        self.next_bytes@.subrange(self.next_range.start as int, self.next_range.end as int)
    }

    /// The codepoints of the mapping in progress that are not yet encoded.
    pub closed spec fn pending(&self) -> Seq<char> {
        self.pending@
    }

    /// The case for the next codepoint of the input.
    pub closed spec fn case(&self) -> Case {
        self.case
    }

    /// The bytes still to be yielded: the staged ones, then the rest of the
    /// mapping in progress, then what the rest of the input maps to.
    pub open spec fn remaining(&self) -> Seq<u8> {
        self.staged() + utf8_bytes(self.pending()) + map_bytes(self.input(), self.case())
    }

    /// The mapper that `new` creates.
    pub closed spec fn fresh(slice: &'a [u8], case: Case) -> Self {
        CaseStream {
            slice,
            next_bytes: [0u8, 0u8, 0u8, 0u8],
            next_range: Staged { start: 0, end: 0 },
            pending: CaseMappingIter::Zero,
            case,
        }
    }

    /// A mapper over `slice` that starts in `case`, with nothing staged.
    pub fn new(slice: &'a [u8], case: Case) -> (r: Self)
        ensures
            r == Self::fresh(slice, case),
            r.input() == slice@,
            r.staged() == Seq::<u8>::empty(),
            r.pending() == Seq::<char>::empty(),
            r.case() == case,
            r.remaining() == map_bytes(slice@, case),
    {
        let r = CaseStream {
            slice,
            next_bytes: [0u8, 0u8, 0u8, 0u8],
            next_range: Staged { start: 0, end: 0 },
            pending: CaseMappingIter::Zero,
            case,
        };
        assert(r.staged() =~= Seq::<u8>::empty());
        assert(r.remaining() =~= map_bytes(slice@, case));
        r
    }

    /// Stages the encoding of `ch` but for its first byte, which it returns.
    fn stage_char(&mut self, ch: char) -> (b: u8)
        ensures
            seq![b] + final(self).staged() == encode_scalar(ch as u32),
            final(self).slice == old(self).slice,
            final(self).pending == old(self).pending,
            final(self).case == old(self).case,
    {
        proof {
            use_type_invariant(&*self);
        }
        let n: usize = encode_utf8(ch, &mut self.next_bytes);
        self.next_range = Staged { start: 1, end: n };
        let b: u8 = self.next_bytes[0];
        assert(seq![b] + self.staged() =~= self.next_bytes@.subrange(0, n as int));
        b
    }

    /// Stages the bytes of an invalid run but for the first, which it returns.
    fn stage_bytes(&mut self, bytes: &[u8]) -> (b: u8)
        requires
            1 <= bytes@.len() <= 4,
        ensures
            seq![b] + final(self).staged() == bytes@,
            final(self).slice == old(self).slice,
            final(self).pending == old(self).pending,
            final(self).case == old(self).case,
    {
        proof {
            use_type_invariant(&*self);
        }
        let size: usize = bytes.len();
        let mut i: usize = 0;
        while i < size
            invariant
                i <= size <= 4,
                size == bytes@.len(),
                forall|j: int| 0 <= j < i ==> self.next_bytes@[j] == bytes@[j],
                self.slice == old(self).slice,
                self.case == old(self).case,
                self.pending == old(self).pending,
                self.next_range.start <= self.next_range.end <= 4,
            decreases size - i,
        {
            self.next_bytes[i] = bytes[i];
            i += 1;
        }
        self.next_range = Staged { start: 1, end: size };
        let b: u8 = self.next_bytes[0];
        assert(seq![b] + self.staged() =~= bytes@);
        b
    }

    /// Yields the next byte of the output, if there is one. Once it has
    /// returned `None` it returns `None` ever after.
    pub fn next(&mut self) -> (r: Option<u8>)
        ensures
            old(self).remaining().len() == 0 ==> r is None && final(self).remaining() == old(
                self).remaining(),
            old(self).remaining().len() > 0 ==> r == Some(old(self).remaining()[0]) && final(
                self).remaining() == old(self).remaining().drop_first(),
            final(self).input().len() <= old(self).input().len(),
            final(self).input() == old(self).input().skip(
                old(self).input().len() - final(self).input().len(),
            ),
            final(self).case() == old(self).case() || final(self).case() == next_case(
                old(self).case(),
            ),
    {
        proof {
            use_type_invariant(&*self);
        }
        let ghost before = self.remaining();
        let ghost tail = map_bytes(self.slice@, self.case);
        assert(self.slice@ =~= self.slice@.skip(0));
        if self.next_range.start < self.next_range.end {
            let idx: usize = self.next_range.start;
            let end: usize = self.next_range.end;
            let b: u8 = self.next_bytes[idx];
            let ghost staged_before = self.staged();
            self.next_range = Staged { start: idx + 1, end };
            proof {
                assert(staged_before =~= seq![b] + self.staged());
                assert(before =~= seq![b] + (self.staged() + utf8_bytes(self.pending@) + tail));
                assert(self.remaining() =~= before.drop_first());
            }
            return Some(b);
        }
        assert(self.staged() =~= Seq::<u8>::empty());
        let ghost pending_before = self.pending@;
        if let Some(ch) = self.pending.next() {
            let b: u8 = self.stage_char(ch);
            proof {
                let head = encode_scalar(ch as u32);
                let more = utf8_bytes(pending_before.drop_first());
                assert(utf8_bytes(pending_before) == head + more);
                assert(before =~= seq![b] + (self.staged() + more + tail));
                assert(self.remaining() =~= before.drop_first());
            }
            return Some(b);
        }
        assert(utf8_bytes(pending_before) =~= Seq::<u8>::empty());
        assert(before =~= tail);
        self.next_unit()
    }

    /// Decodes the next unit of the input, stages its output but for the
    /// first byte, and returns that byte. For a mapper with nothing staged
    /// and no mapping in progress.
    fn next_unit(&mut self) -> (r: Option<u8>)
        requires
            old(self).staged().len() == 0,
            old(self).pending().len() == 0,
            old(self).remaining() == map_bytes(old(self).input(), old(self).case()),
        ensures
            old(self).remaining().len() == 0 ==> r is None && final(self).remaining() == old(
                self).remaining(),
            old(self).remaining().len() > 0 ==> r == Some(old(self).remaining()[0]) && final(
                self).remaining() == old(self).remaining().drop_first(),
            final(self).input().len() <= old(self).input().len(),
            final(self).input() == old(self).input().skip(
                old(self).input().len() - final(self).input().len(),
            ),
            final(self).case() == old(self).case() || final(self).case() == next_case(
                old(self).case(),
            ),
    {
        proof {
            use_type_invariant(&*self);
        }
        let ghost before = self.remaining();
        assert(self.slice@ =~= self.slice@.skip(0));
        let (decoded, size) = decode_utf8(self.slice);
        if size == 0 {
            proof {
                assert(self.slice@ =~= Seq::<u8>::empty());
                lemma_map_bytes_empty(self.case);
            }
            return None;
        }
        proof {
            lemma_first_unit_len(self.slice@);
            lemma_map_bytes_unfold(self.slice@, self.case);
        }
        let ghost input_before = self.slice@;
        let ghost case_before = self.case;
        let ghost rest_mapped = map_bytes(
            input_before.skip(size as int),
            case_after_unit(input_before, case_before),
        );
        let (bytes, rest) = self.slice.split_at(size);
        self.slice = rest;
        assert(rest@ =~= input_before.skip(size as int));
        assert(bytes@ =~= input_before.take(size as int));
        match decoded {
            Some(ch) => {
                let mut mapping = case_mapping(ch, self.case);
                let ghost chars = mapping@;
                match self.case {
                    Case::Title => {
                        self.case = Case::Lower;
                    },
                    _ => {},
                }
                match mapping.next() {
                    Some(first) => {
                        self.pending = mapping;
                        let b: u8 = self.stage_char(first);
                        proof {
                            let head = encode_scalar(first as u32);
                            let more = utf8_bytes(chars.drop_first());
                            assert(utf8_bytes(chars) == head + more);
                            assert(before == utf8_bytes(chars) + rest_mapped);
                            assert(before =~= seq![b] + (self.staged() + more + rest_mapped));
                            assert(self.remaining() =~= before.drop_first());
                        }
                        Some(b)
                    },
                    None => None,
                }
            },
            None => {
                let b: u8 = self.stage_bytes(bytes);
                proof {
                    assert(utf8_bytes(self.pending@) =~= Seq::<u8>::empty());
                    assert(before == bytes@ + rest_mapped);
                    assert(before =~= seq![b] + (self.staged() + rest_mapped));
                    assert(self.remaining() =~= before.drop_first());
                }
                Some(b)
            },
        }
    }

    /// The input that is not yet decoded.
    pub fn as_bytes(&self) -> (r: &'a [u8])
        ensures
            r@ == self.input(),
    {
        self.slice
    }

    /// The bounds of the number of bytes still to come, reckoned from the
    /// input that is not yet decoded: its length below; above the same where
    /// it is ASCII only, else twelve times its length, and no bound where
    /// that does not fit in `usize`.
    pub fn size_hint(&self) -> (r: (usize, Option<usize>))
        ensures
            r.0 == size_hint_of(self.input()).0,
            match size_hint_of(self.input()).1 {
                Some(upper) => r.1 == Some(upper as usize),
                None => r.1 is None,
            },
    {
        let len: usize = self.slice.len();
        if is_ascii(self.slice) {
            (len, Some(len))
        } else {
            (len, len.checked_mul(12))
        }
    }

    /// Consumes the mapper and returns the number of bytes still to come.
    /// Where the mapper is between two units and the rest of the input is
    /// ASCII only, this is the length of the input and nothing is decoded.
    pub fn count(self) -> (r: usize)
        requires
            self.remaining().len() <= usize::MAX,
        ensures
            r == self.remaining().len(),
    {
        proof {
            use_type_invariant(&self);
        }
        let mut stream = self;
        if stream.next_range.start == stream.next_range.end && stream.pending.size_hint().0 == 0
            && is_ascii(stream.slice) {
            proof {
                lemma_map_bytes_ascii(stream.slice@, stream.case);
                assert(utf8_bytes(stream.pending()) =~= Seq::<u8>::empty());
                assert(stream.remaining() =~= map_bytes(stream.slice@, stream.case));
            }
            return stream.slice.len();
        }
        let mut n: usize = 0;
        loop
            invariant
                n + stream.remaining().len() == self.remaining().len(),
                self.remaining().len() <= usize::MAX,
            decreases stream.remaining().len(),
        {
            match stream.next() {
                Some(_) => {
                    n += 1;
                },
                None => {
                    return n;
                },
            }
        }
    }

    /// Consumes the mapper and returns the bytes still to come.
    pub fn collect(self) -> (r: Vec<u8>)
        ensures
            r@ == self.remaining(),
    {
        let mut stream = self;
        let mut out: Vec<u8> = Vec::new();
        loop
            invariant
                out@ + stream.remaining() == self.remaining(),
            decreases stream.remaining().len(),
        {
            let ghost before = stream.remaining();
            match stream.next() {
                Some(b) => {
                    out.push(b);
                    assert(out@ + stream.remaining() =~= (out@.drop_last() + before));
                },
                None => {
                    assert(out@ =~= out@ + stream.remaining());
                    return out;
                },
            }
        }
    }
}

} // verus!
