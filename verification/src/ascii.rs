//! ASCII-only case mapping of bytes: `'A'..='Z'` and `'a'..='z'` change
//! case, every other byte stays as it is.

use vstd::prelude::*;

verus! {

/// The ASCII lowercase form of a byte: `'A'..='Z'` move to `'a'..='z'`, every
/// other byte stays.
pub open spec fn lower_byte(b: u8) -> u8 {
    if 0x41 <= b <= 0x5A {
        (b + 0x20) as u8
    } else {
        b
    }
}

/// The ASCII uppercase form of a byte: `'a'..='z'` move to `'A'..='Z'`, every
/// other byte stays.
pub open spec fn upper_byte(b: u8) -> u8 {
    if 0x61 <= b <= 0x7A {
        (b - 0x20) as u8
    } else {
        b
    }
}

/// Every byte in its ASCII lowercase form.
pub open spec fn lower_bytes(s: Seq<u8>) -> Seq<u8> {
    Seq::new(s.len(), |i: int| lower_byte(s[i]))
}

/// Every byte in its ASCII uppercase form.
pub open spec fn upper_bytes(s: Seq<u8>) -> Seq<u8> {
    Seq::new(s.len(), |i: int| upper_byte(s[i]))
}

/// The first byte in its ASCII uppercase form, every later byte in its ASCII
/// lowercase form.
pub open spec fn title_bytes(s: Seq<u8>) -> Seq<u8> {
    Seq::new(
        s.len(),
        |i: int|
            if i == 0 {
                upper_byte(s[i])
            } else {
                lower_byte(s[i])
            },
    )
}

/// Whether every byte is an ASCII byte, below `0x80`.
pub open spec fn is_ascii_bytes(s: Seq<u8>) -> bool {
    forall|i: int| 0 <= i < s.len() ==> s[i] <= 0x7F
}

/// Maps one byte to its ASCII lowercase form.
pub fn byte_to_lower(b: u8) -> (r: u8)
    ensures
        r == lower_byte(b),
{
    if 0x41 <= b && b <= 0x5A {
        b + 0x20
    } else {
        b
    }
}

/// Maps one byte to its ASCII uppercase form.
pub fn byte_to_upper(b: u8) -> (r: u8)
    ensures
        r == upper_byte(b),
{
    if 0x61 <= b && b <= 0x7A {
        b - 0x20
    } else {
        b
    }
}

/// Whether the slice holds ASCII bytes only. The empty slice does.
pub fn is_ascii(slice: &[u8]) -> (r: bool)
    ensures
        r == is_ascii_bytes(slice@),
{
    let n: usize = slice.len();
    let mut i: usize = 0;
    while i < n
        invariant
            n == slice@.len(),
            i <= n,
            forall|j: int| 0 <= j < i ==> slice@[j] <= 0x7F,
        decreases n - i,
    {
        if slice[i] > 0x7F {
            return false;
        }
        i += 1;
    }
    true
}

/// Converts the given slice to its ASCII lower case equivalent in-place.
///
/// ASCII letters 'A' to 'Z' are mapped to 'a' to 'z', but non-ASCII letters are
/// unchanged.
pub fn make_ascii_lowercase(slice: &mut [u8])
    ensures
        final(slice)@ == lower_bytes(old(slice)@),
{
    let n: usize = slice.len();
    let mut i: usize = 0;
    while i < n
        invariant
            n == slice@.len(),
            n == old(slice)@.len(),
            i <= n,
            forall|j: int| 0 <= j < i ==> slice@[j] == lower_byte(old(slice)@[j]),
            forall|j: int| i <= j < n ==> slice@[j] == old(slice)@[j],
        decreases n - i,
    {
        let b: u8 = slice[i];
        slice[i] = byte_to_lower(b);
        i += 1;
    }
    assert(slice@ =~= lower_bytes(old(slice)@));
}

/// Returns a vector containing a copy of the given slice where each byte is
/// mapped to its ASCII lower case equivalent.
///
/// ASCII letters 'A' to 'Z' are mapped to 'a' to 'z', but non-ASCII letters are
/// unchanged.
pub fn to_ascii_lowercase(slice: &[u8]) -> (r: Vec<u8>)
    ensures
        r@ == lower_bytes(slice@),
{
    let n: usize = slice.len();
    let mut out: Vec<u8> = Vec::with_capacity(n);
    let mut i: usize = 0;
    while i < n
        invariant
            n == slice@.len(),
            i <= n,
            out@.len() == i,
            forall|j: int| 0 <= j < i ==> out@[j] == lower_byte(slice@[j]),
        decreases n - i,
    {
        out.push(byte_to_lower(slice[i]));
        i += 1;
    }
    assert(out@ =~= lower_bytes(slice@));
    out
}

/// Converts the given slice to its ASCII upper case equivalent in-place.
///
/// ASCII letters 'a' to 'z' are mapped to 'A' to 'Z', but non-ASCII letters are
/// unchanged.
pub fn make_ascii_uppercase(slice: &mut [u8])
    ensures
        final(slice)@ == upper_bytes(old(slice)@),
{
    let n: usize = slice.len();
    let mut i: usize = 0;
    while i < n
        invariant
            n == slice@.len(),
            n == old(slice)@.len(),
            i <= n,
            forall|j: int| 0 <= j < i ==> slice@[j] == upper_byte(old(slice)@[j]),
            forall|j: int| i <= j < n ==> slice@[j] == old(slice)@[j],
        decreases n - i,
    {
        let b: u8 = slice[i];
        slice[i] = byte_to_upper(b);
        i += 1;
    }
    assert(slice@ =~= upper_bytes(old(slice)@));
}

/// Returns a vector containing a copy of the given slice where each byte is
/// mapped to its ASCII upper case equivalent.
///
/// ASCII letters 'a' to 'z' are mapped to 'A' to 'Z', but non-ASCII letters are
/// unchanged.
pub fn to_ascii_uppercase(slice: &[u8]) -> (r: Vec<u8>)
    ensures
        r@ == upper_bytes(slice@),
{
    let n: usize = slice.len();
    let mut out: Vec<u8> = Vec::with_capacity(n);
    let mut i: usize = 0;
    while i < n
        invariant
            n == slice@.len(),
            i <= n,
            out@.len() == i,
            forall|j: int| 0 <= j < i ==> out@[j] == upper_byte(slice@[j]),
        decreases n - i,
    {
        out.push(byte_to_upper(slice[i]));
        i += 1;
    }
    assert(out@ =~= upper_bytes(slice@));
    out
}

/// Converts the given slice to its ASCII title case equivalent in-place.
///
/// ASCII letters 'a' to 'z' are mapped to 'A' to 'Z' in the first byte;
/// subsequent bytes with ASCII letters 'A' to 'Z' are mapped to 'a' to 'z';
/// non-ASCII letters are unchanged.
pub fn make_ascii_titlecase(slice: &mut [u8])
    ensures
        final(slice)@ == title_bytes(old(slice)@),
{
    let n: usize = slice.len();
    if n == 0 {
        assert(slice@ =~= title_bytes(old(slice)@));
        return ;
    }
    let head: u8 = slice[0];
    slice[0] = byte_to_upper(head);
    let mut i: usize = 1;
    while i < n
        invariant
            n == slice@.len(),
            n == old(slice)@.len(),
            1 <= i <= n,
            slice@[0] == upper_byte(old(slice)@[0]),
            forall|j: int| 1 <= j < i ==> slice@[j] == lower_byte(old(slice)@[j]),
            forall|j: int| i <= j < n ==> slice@[j] == old(slice)@[j],
        decreases n - i,
    {
        let b: u8 = slice[i];
        slice[i] = byte_to_lower(b);
        i += 1;
    }
    assert(slice@ =~= title_bytes(old(slice)@));
}

/// Returns a vector containing a copy of the given slice where each byte is
/// mapped to its ASCII title case equivalent.
///
/// ASCII letters 'a' to 'z' are mapped to 'A' to 'Z' in the first byte;
/// subsequent bytes with ASCII letters 'A' to 'Z' are mapped to 'a' to 'z';
/// non-ASCII letters are unchanged.
pub fn to_ascii_titlecase(slice: &[u8]) -> (r: Vec<u8>)
    ensures
        r@ == title_bytes(slice@),
{
    let n: usize = slice.len();
    let mut out: Vec<u8> = Vec::with_capacity(n);
    let mut i: usize = 0;
    while i < n
        invariant
            n == slice@.len(),
            i <= n,
            out@.len() == i,
            forall|j: int| 0 <= j < i ==> out@[j] == title_bytes(slice@)[j],
        decreases n - i,
    {
        if i == 0 {
            out.push(byte_to_upper(slice[i]));
        } else {
            out.push(byte_to_lower(slice[i]));
        }
        i += 1;
    }
    assert(out@ =~= title_bytes(slice@));
    out
}

/// ASCII case mapping keeps the length, in each of the three forms.
pub proof fn lemma_ascii_len(s: Seq<u8>)
    ensures
        lower_bytes(s).len() == s.len(),
        upper_bytes(s).len() == s.len(),
        title_bytes(s).len() == s.len(),
{
}

/// ASCII case mapping is idempotent: to map what is mapped already changes
/// nothing, in each of the three forms.
pub proof fn lemma_ascii_idempotent(s: Seq<u8>)
    ensures
        lower_bytes(lower_bytes(s)) == lower_bytes(s),
        upper_bytes(upper_bytes(s)) == upper_bytes(s),
        title_bytes(title_bytes(s)) == title_bytes(s),
{
    assert(lower_bytes(lower_bytes(s)) =~= lower_bytes(s));
    assert(upper_bytes(upper_bytes(s)) =~= upper_bytes(s));
    assert(title_bytes(title_bytes(s)) =~= title_bytes(s));
}

/// ASCII case mapping leaves every byte from `0x80` on as it is, so the bytes
/// of a longer UTF-8 sequence and invalid bytes pass through.
pub proof fn lemma_ascii_keeps_high_bytes(s: Seq<u8>, i: int)
    requires
        0 <= i < s.len(),
        s[i] >= 0x80,
    ensures
        lower_bytes(s)[i] == s[i],
        upper_bytes(s)[i] == s[i],
        title_bytes(s)[i] == s[i],
{
}

} // verus!
