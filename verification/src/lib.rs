//! Unicode case mapping routines and iterators for conventionally UTF-8
//! byte strings.
//!
//! The iterators yield bytes. Valid UTF-8 sequences are mapped codepoint by
//! codepoint; invalid bytes are yielded as they are. The ASCII variants map
//! `'A'..='Z'` and `'a'..='z'` only.

pub mod ascii;
pub mod lowercase;
pub mod stream;
pub mod titlecase;
pub mod unicode;
pub mod uppercase;
pub mod utf8;

pub use crate::ascii::{
    make_ascii_lowercase, make_ascii_titlecase, make_ascii_uppercase, to_ascii_lowercase,
    to_ascii_titlecase, to_ascii_uppercase,
};
pub use crate::lowercase::Lowercase;
pub use crate::titlecase::Titlecase;
pub use crate::unicode::titlecase::to_titlecase;
pub use crate::uppercase::Uppercase;

use crate::ascii::{lower_bytes, title_bytes, upper_bytes};
use crate::lowercase::full::lowercase_bytes;
use crate::titlecase::full::titlecase_bytes;
use crate::uppercase::full::uppercase_bytes;
use core::convert::TryFrom;
use core::str::FromStr;
use vstd::prelude::*;
use vstd::string::StringSliceAdditionalSpecFns;

verus! {

/// The token `ascii`.
pub const TOKEN_ASCII: [u8; 5] = [0x61, 0x73, 0x63, 0x69, 0x69];

/// The token `turkic`.
pub const TOKEN_TURKIC: [u8; 6] = [0x74, 0x75, 0x72, 0x6B, 0x69, 0x63];

/// The token `lithuanian`.
pub const TOKEN_LITHUANIAN: [u8; 10] = [0x6C, 0x69, 0x74, 0x68, 0x75, 0x61, 0x6E, 0x69, 0x61, 0x6E];

/// The token `fold`.
pub const TOKEN_FOLD: [u8; 4] = [0x66, 0x6F, 0x6C, 0x64];

/// Whether two slices hold the same bytes.
fn same_bytes(a: &[u8], b: &[u8]) -> (r: bool)
    ensures
        r == (a@ == b@),
{
    if a.len() != b.len() {
        return false;
    }
    let n: usize = a.len();
    let mut i: usize = 0;
    while i < n
        invariant
            n == a@.len(),
            n == b@.len(),
            i <= n,
            forall|j: int| 0 <= j < i ==> a@[j] == b@[j],
        decreases n - i,
    {
        if a[i] != b[i] {
            return false;
        }
        i += 1;
    }
    assert(a@ =~= b@);
    true
}

/// Error that indicates a failure to parse a case mapping mode: the token
/// names no mode.
#[derive(Default, Debug, Clone, Copy, Hash, PartialEq, Eq, PartialOrd, Ord)]
pub struct InvalidCaseMappingMode {
    _private: (),
}

impl InvalidCaseMappingMode {
    /// The one value of this error.
    pub closed spec fn value() -> Self {
        InvalidCaseMappingMode { _private: () }
    }

    /// Construct a new `InvalidCaseMappingMode` error.
    pub fn new() -> (r: Self)
        ensures
            r == Self::value(),
    {
        Self { _private: () }
    }

    /// Retrieve the error message associated with this
    /// `InvalidCaseMappingMode`: `invalid option`.
    pub fn message(self) -> (r: &'static str)
        ensures
            r@ == "invalid option"@,
    {
        "invalid option"
    }
}

/// Error that indicates that a mode is a mode of its enum, but that no case
/// mapping exists for it in this crate.
#[derive(Debug, Clone, Copy, Hash, PartialEq, Eq, Structural)]
pub enum UnsupportedMode {
    /// Case mapping adapted for Turkic languages.
    Turkic,
    /// Unicode case folding.
    Fold,
}

impl UnsupportedMode {
    /// The message of the error, which names the mode.
    pub fn message(self) -> (r: &'static str)
        ensures
            r@ == match self {
                UnsupportedMode::Turkic => "Turkic case mapping is not supported"@,
                UnsupportedMode::Fold => "case folding is not supported"@,
            },
    {
        match self {
            UnsupportedMode::Turkic => "Turkic case mapping is not supported",
            UnsupportedMode::Fold => "case folding is not supported",
        }
    }
}

/// Options to configure the behavior of [`lowercase`].
///
/// Which letters exactly are replaced, and by which other letters, depends on
/// the given options. If you're not sure which mode to choose, `Full` is a
/// good default.
#[derive(Debug, Clone, Copy, Hash, PartialEq, Eq, PartialOrd, Ord, Structural)]
pub enum LowercaseMode {
    /// Full Unicode case mapping, suitable for most languages.
    ///
    /// Context-dependent case mapping is not supported.
    Full,
    /// Only the ASCII region, i.e. the characters `'A'..='Z'` and `'a'..='z'`,
    /// are affected.
    Ascii,
    /// Full Unicode case mapping, adapted for Turkic languages (Turkish,
    /// Azerbaijani, ...). The mode can be named, but no case mapping exists
    /// for it in this crate.
    Turkic,
    /// Currently, just full Unicode case mapping.
    Lithuanian,
    /// Unicode case folding, which is more far-reaching than Unicode case
    /// mapping. The mode can be named, but no case mapping exists for it in
    /// this crate.
    Fold,
}

/// The lowercase mode that a token names, if it names one.
pub open spec fn lowercase_mode_of(token: Seq<u8>) -> Option<LowercaseMode> {
    if token == TOKEN_ASCII@ {
        Some(LowercaseMode::Ascii)
    } else if token == TOKEN_TURKIC@ {
        Some(LowercaseMode::Turkic)
    } else if token == TOKEN_LITHUANIAN@ {
        Some(LowercaseMode::Lithuanian)
    } else if token == TOKEN_FOLD@ {
        Some(LowercaseMode::Fold)
    } else {
        None
    }
}

/// What parsing a token gives: the mode that it names, or the error where it
/// names none. The tokens are case-sensitive, and the empty token names no
/// mode.
pub open spec fn parse_lowercase_mode(token: Seq<u8>) -> Result<LowercaseMode, InvalidCaseMappingMode> {
    match lowercase_mode_of(token) {
        Some(mode) => Ok(mode),
        None => Err(InvalidCaseMappingMode::value()),
    }
}

/// What parsing an optional token gives: `Full` where there is none.
pub open spec fn parse_optional_lowercase_mode(token: Option<Seq<u8>>) -> Result<
    LowercaseMode,
    InvalidCaseMappingMode,
> {
    match token {
        None => Ok(LowercaseMode::Full),
        Some(token) => parse_lowercase_mode(token),
    }
}

impl LowercaseMode {
    /// Parses the token of a mode. `ascii`, `turkic`, `lithuanian` and `fold` name their modes; every other
    /// token is an error.
    pub fn from_token(token: &[u8]) -> (r: Result<Self, InvalidCaseMappingMode>)
        ensures
            r == parse_lowercase_mode(token@),
    {
        if same_bytes(token, TOKEN_ASCII.as_slice()) {
            Ok(LowercaseMode::Ascii)
        } else if same_bytes(token, TOKEN_TURKIC.as_slice()) {
            Ok(LowercaseMode::Turkic)
        } else if same_bytes(token, TOKEN_LITHUANIAN.as_slice()) {
            Ok(LowercaseMode::Lithuanian)
        } else if same_bytes(token, TOKEN_FOLD.as_slice()) {
            Ok(LowercaseMode::Fold)
        } else {
            Err(InvalidCaseMappingMode::new())
        }
    }
}

impl Default for LowercaseMode {
    /// The default mode, `Full`.
    fn default() -> (r: Self)
        ensures
            r == LowercaseMode::Full,
    {
        LowercaseMode::Full
    }
}

impl<'a> TryFrom<&'a [u8]> for LowercaseMode {
    type Error = InvalidCaseMappingMode;

    /// Parses the token of a mode.
    fn try_from(value: &'a [u8]) -> (r: Result<Self, InvalidCaseMappingMode>)
        ensures
            r == parse_lowercase_mode(value@),
    {
        Self::from_token(value)
    }
}

impl<'a> vstd::std_specs::convert::TryFromSpecImpl<&'a [u8]> for LowercaseMode {
    open spec fn obeys_try_from_spec() -> bool {
        true
    }

    open spec fn try_from_spec(value: &'a [u8]) -> Result<Self, InvalidCaseMappingMode> {
        parse_lowercase_mode(value@)
    }
}

impl<'a> TryFrom<Option<&'a [u8]>> for LowercaseMode {
    type Error = InvalidCaseMappingMode;

    /// Parses an optional token: without a token the mode is `Full`.
    fn try_from(value: Option<&'a [u8]>) -> (r: Result<Self, InvalidCaseMappingMode>)
        ensures
            r == parse_optional_lowercase_mode(
                match value {
                    Some(token) => Some(token@),
                    None => None,
                },
            ),
    {
        match value {
            None => Ok(LowercaseMode::Full),
            Some(token) => Self::from_token(token),
        }
    }
}

impl<'a> vstd::std_specs::convert::TryFromSpecImpl<Option<&'a [u8]>> for LowercaseMode {
    open spec fn obeys_try_from_spec() -> bool {
        true
    }

    open spec fn try_from_spec(value: Option<&'a [u8]>) -> Result<Self, InvalidCaseMappingMode> {
        parse_optional_lowercase_mode(
            match value {
                Some(token) => Some(token@),
                None => None,
            },
        )
    }
}

impl<'a> TryFrom<&'a str> for LowercaseMode {
    type Error = InvalidCaseMappingMode;

    /// Parses the token of a mode from the bytes of a string.
    fn try_from(value: &'a str) -> (r: Result<Self, InvalidCaseMappingMode>)
        ensures
            r == parse_lowercase_mode(value.spec_bytes()),
    {
        Self::from_token(value.as_bytes())
    }
}

impl<'a> vstd::std_specs::convert::TryFromSpecImpl<&'a str> for LowercaseMode {
    open spec fn obeys_try_from_spec() -> bool {
        true
    }

    open spec fn try_from_spec(value: &'a str) -> Result<Self, InvalidCaseMappingMode> {
        parse_lowercase_mode(value.spec_bytes())
    }
}

impl<'a> TryFrom<Option<&'a str>> for LowercaseMode {
    type Error = InvalidCaseMappingMode;

    /// Parses an optional token from the bytes of a string: without a token
    /// the mode is `Full`.
    fn try_from(value: Option<&'a str>) -> (r: Result<Self, InvalidCaseMappingMode>)
        ensures
            r == parse_optional_lowercase_mode(
                match value {
                    Some(token) => Some(token.spec_bytes()),
                    None => None,
                },
            ),
    {
        match value {
            None => Ok(LowercaseMode::Full),
            Some(token) => Self::from_token(token.as_bytes()),
        }
    }
}

impl<'a> vstd::std_specs::convert::TryFromSpecImpl<Option<&'a str>> for LowercaseMode {
    open spec fn obeys_try_from_spec() -> bool {
        true
    }

    open spec fn try_from_spec(value: Option<&'a str>) -> Result<Self, InvalidCaseMappingMode> {
        parse_optional_lowercase_mode(
            match value {
                Some(token) => Some(token.spec_bytes()),
                None => None,
            },
        )
    }
}

impl FromStr for LowercaseMode {
    type Err = InvalidCaseMappingMode;

    /// Parses the token of a mode from the bytes of a string.
    fn from_str(s: &str) -> (r: Result<Self, InvalidCaseMappingMode>)
        ensures
            r == parse_lowercase_mode(s.spec_bytes()),
    {
        Self::from_token(s.as_bytes())
    }
}

/// What [`lowercase`] returns for a mode: the bytes that the iterator will
/// yield, or the error for a mode without a case mapping.
pub open spec fn lowercase_of(s: Seq<u8>, options: LowercaseMode) -> Result<Seq<u8>, UnsupportedMode> {
    match options {
        LowercaseMode::Full => Ok(lowercase_bytes(s)),
        LowercaseMode::Lithuanian => Ok(lowercase_bytes(s)),
        LowercaseMode::Ascii => Ok(lower_bytes(s)),
        LowercaseMode::Turkic => Err(UnsupportedMode::Turkic),
        LowercaseMode::Fold => Err(UnsupportedMode::Fold),
    }
}

/// Returns an iterator that yields a copy of the bytes in the given slice with
/// all uppercase letters replaced with their lowercase counterparts.
///
/// This function treats the given slice as a conventionally UTF-8 string.
/// UTF-8 byte sequences are converted to their Unicode lowercase equivalents.
/// Invalid UTF-8 byte sequences are yielded as is.
///
/// The case mapping mode is determined by the given [`LowercaseMode`]: `Full`
/// and `Lithuanian` map by the full Unicode case mapping, `Ascii` maps ASCII
/// letters only.
///
/// # Errors
///
/// For `Turkic` and `Fold` there is no case mapping. The error comes at once, before
/// any byte is yielded.
pub fn lowercase(slice: &[u8], options: LowercaseMode) -> (r: Result<Lowercase<'_>, UnsupportedMode>)
    ensures
        match r {
            Ok(iter) => lowercase_of(slice@, options) == Ok::<Seq<u8>, UnsupportedMode>(
                iter.remaining(),
            ) && iter.input() == slice@ && iter.is_ascii_mode() == (options == LowercaseMode::Ascii),
            Err(e) => lowercase_of(slice@, options) == Err::<Seq<u8>, UnsupportedMode>(e),
        },
{
    match options {
        LowercaseMode::Full | LowercaseMode::Lithuanian => Ok(Lowercase::with_slice(slice)),
        LowercaseMode::Ascii => Ok(Lowercase::with_ascii_slice(slice)),
        LowercaseMode::Turkic => Err(UnsupportedMode::Turkic),
        LowercaseMode::Fold => Err(UnsupportedMode::Fold),
    }
}

/// Options to configure the behavior of [`uppercase`].
///
/// Which letters exactly are replaced, and by which other letters, depends on
/// the given options. If you're not sure which mode to choose, `Full` is a
/// good default.
#[derive(Debug, Clone, Copy, Hash, PartialEq, Eq, PartialOrd, Ord, Structural)]
pub enum UppercaseMode {
    /// Full Unicode case mapping, suitable for most languages.
    ///
    /// Context-dependent case mapping is not supported.
    Full,
    /// Only the ASCII region, i.e. the characters `'A'..='Z'` and `'a'..='z'`,
    /// are affected.
    Ascii,
    /// Full Unicode case mapping, adapted for Turkic languages (Turkish,
    /// Azerbaijani, ...). The mode can be named, but no case mapping exists
    /// for it in this crate.
    Turkic,
    /// Currently, just full Unicode case mapping.
    Lithuanian,
}

/// The uppercase mode that a token names, if it names one.
pub open spec fn uppercase_mode_of(token: Seq<u8>) -> Option<UppercaseMode> {
    if token == TOKEN_ASCII@ {
        Some(UppercaseMode::Ascii)
    } else if token == TOKEN_TURKIC@ {
        Some(UppercaseMode::Turkic)
    } else if token == TOKEN_LITHUANIAN@ {
        Some(UppercaseMode::Lithuanian)
    } else {
        None
    }
}

/// What parsing a token gives: the mode that it names, or the error where it
/// names none. The tokens are case-sensitive, and the empty token names no
/// mode.
pub open spec fn parse_uppercase_mode(token: Seq<u8>) -> Result<UppercaseMode, InvalidCaseMappingMode> {
    match uppercase_mode_of(token) {
        Some(mode) => Ok(mode),
        None => Err(InvalidCaseMappingMode::value()),
    }
}

/// What parsing an optional token gives: `Full` where there is none.
pub open spec fn parse_optional_uppercase_mode(token: Option<Seq<u8>>) -> Result<
    UppercaseMode,
    InvalidCaseMappingMode,
> {
    match token {
        None => Ok(UppercaseMode::Full),
        Some(token) => parse_uppercase_mode(token),
    }
}

impl UppercaseMode {
    /// Parses the token of a mode. `ascii`, `turkic` and `lithuanian` name their modes; every other
    /// token is an error.
    pub fn from_token(token: &[u8]) -> (r: Result<Self, InvalidCaseMappingMode>)
        ensures
            r == parse_uppercase_mode(token@),
    {
        if same_bytes(token, TOKEN_ASCII.as_slice()) {
            Ok(UppercaseMode::Ascii)
        } else if same_bytes(token, TOKEN_TURKIC.as_slice()) {
            Ok(UppercaseMode::Turkic)
        } else if same_bytes(token, TOKEN_LITHUANIAN.as_slice()) {
            Ok(UppercaseMode::Lithuanian)
        } else {
            Err(InvalidCaseMappingMode::new())
        }
    }
}

impl Default for UppercaseMode {
    /// The default mode, `Full`.
    fn default() -> (r: Self)
        ensures
            r == UppercaseMode::Full,
    {
        UppercaseMode::Full
    }
}

impl<'a> TryFrom<&'a [u8]> for UppercaseMode {
    type Error = InvalidCaseMappingMode;

    /// Parses the token of a mode.
    fn try_from(value: &'a [u8]) -> (r: Result<Self, InvalidCaseMappingMode>)
        ensures
            r == parse_uppercase_mode(value@),
    {
        Self::from_token(value)
    }
}

impl<'a> vstd::std_specs::convert::TryFromSpecImpl<&'a [u8]> for UppercaseMode {
    open spec fn obeys_try_from_spec() -> bool {
        true
    }

    open spec fn try_from_spec(value: &'a [u8]) -> Result<Self, InvalidCaseMappingMode> {
        parse_uppercase_mode(value@)
    }
}

impl<'a> TryFrom<Option<&'a [u8]>> for UppercaseMode {
    type Error = InvalidCaseMappingMode;

    /// Parses an optional token: without a token the mode is `Full`.
    fn try_from(value: Option<&'a [u8]>) -> (r: Result<Self, InvalidCaseMappingMode>)
        ensures
            r == parse_optional_uppercase_mode(
                match value {
                    Some(token) => Some(token@),
                    None => None,
                },
            ),
    {
        match value {
            None => Ok(UppercaseMode::Full),
            Some(token) => Self::from_token(token),
        }
    }
}

impl<'a> vstd::std_specs::convert::TryFromSpecImpl<Option<&'a [u8]>> for UppercaseMode {
    open spec fn obeys_try_from_spec() -> bool {
        true
    }

    open spec fn try_from_spec(value: Option<&'a [u8]>) -> Result<Self, InvalidCaseMappingMode> {
        parse_optional_uppercase_mode(
            match value {
                Some(token) => Some(token@),
                None => None,
            },
        )
    }
}

impl<'a> TryFrom<&'a str> for UppercaseMode {
    type Error = InvalidCaseMappingMode;

    /// Parses the token of a mode from the bytes of a string.
    fn try_from(value: &'a str) -> (r: Result<Self, InvalidCaseMappingMode>)
        ensures
            r == parse_uppercase_mode(value.spec_bytes()),
    {
        Self::from_token(value.as_bytes())
    }
}

impl<'a> vstd::std_specs::convert::TryFromSpecImpl<&'a str> for UppercaseMode {
    open spec fn obeys_try_from_spec() -> bool {
        true
    }

    open spec fn try_from_spec(value: &'a str) -> Result<Self, InvalidCaseMappingMode> {
        parse_uppercase_mode(value.spec_bytes())
    }
}

impl<'a> TryFrom<Option<&'a str>> for UppercaseMode {
    type Error = InvalidCaseMappingMode;

    /// Parses an optional token from the bytes of a string: without a token
    /// the mode is `Full`.
    fn try_from(value: Option<&'a str>) -> (r: Result<Self, InvalidCaseMappingMode>)
        ensures
            r == parse_optional_uppercase_mode(
                match value {
                    Some(token) => Some(token.spec_bytes()),
                    None => None,
                },
            ),
    {
        match value {
            None => Ok(UppercaseMode::Full),
            Some(token) => Self::from_token(token.as_bytes()),
        }
    }
}

impl<'a> vstd::std_specs::convert::TryFromSpecImpl<Option<&'a str>> for UppercaseMode {
    open spec fn obeys_try_from_spec() -> bool {
        true
    }

    open spec fn try_from_spec(value: Option<&'a str>) -> Result<Self, InvalidCaseMappingMode> {
        parse_optional_uppercase_mode(
            match value {
                Some(token) => Some(token.spec_bytes()),
                None => None,
            },
        )
    }
}

impl FromStr for UppercaseMode {
    type Err = InvalidCaseMappingMode;

    /// Parses the token of a mode from the bytes of a string.
    fn from_str(s: &str) -> (r: Result<Self, InvalidCaseMappingMode>)
        ensures
            r == parse_uppercase_mode(s.spec_bytes()),
    {
        Self::from_token(s.as_bytes())
    }
}

/// What [`uppercase`] returns for a mode: the bytes that the iterator will
/// yield, or the error for a mode without a case mapping.
pub open spec fn uppercase_of(s: Seq<u8>, options: UppercaseMode) -> Result<Seq<u8>, UnsupportedMode> {
    match options {
        UppercaseMode::Full => Ok(uppercase_bytes(s)),
        UppercaseMode::Lithuanian => Ok(uppercase_bytes(s)),
        UppercaseMode::Ascii => Ok(upper_bytes(s)),
        UppercaseMode::Turkic => Err(UnsupportedMode::Turkic),
    }
}

/// Returns an iterator that yields a copy of the bytes in the given slice with
/// all lowercase letters replaced with their uppercase counterparts.
///
/// This function treats the given slice as a conventionally UTF-8 string.
/// UTF-8 byte sequences are converted to their Unicode uppercase equivalents.
/// Invalid UTF-8 byte sequences are yielded as is.
///
/// The case mapping mode is determined by the given [`UppercaseMode`]: `Full`
/// and `Lithuanian` map by the full Unicode case mapping, `Ascii` maps ASCII
/// letters only.
///
/// # Errors
///
/// For `Turkic` there is no case mapping. The error comes at once, before
/// any byte is yielded.
pub fn uppercase(slice: &[u8], options: UppercaseMode) -> (r: Result<Uppercase<'_>, UnsupportedMode>)
    ensures
        match r {
            Ok(iter) => uppercase_of(slice@, options) == Ok::<Seq<u8>, UnsupportedMode>(
                iter.remaining(),
            ) && iter.input() == slice@ && iter.is_ascii_mode() == (options == UppercaseMode::Ascii),
            Err(e) => uppercase_of(slice@, options) == Err::<Seq<u8>, UnsupportedMode>(e),
        },
{
    match options {
        UppercaseMode::Full | UppercaseMode::Lithuanian => Ok(Uppercase::with_slice(slice)),
        UppercaseMode::Ascii => Ok(Uppercase::with_ascii_slice(slice)),
        UppercaseMode::Turkic => Err(UnsupportedMode::Turkic),
    }
}

/// Options to configure the behavior of [`titlecase`].
///
/// Which letters exactly are replaced, and by which other letters, depends on
/// the given options. If you're not sure which mode to choose, `Full` is a
/// good default.
#[derive(Debug, Clone, Copy, Hash, PartialEq, Eq, PartialOrd, Ord, Structural)]
pub enum TitlecaseMode {
    /// Full Unicode case mapping, suitable for most languages.
    ///
    /// Context-dependent case mapping is not supported.
    Full,
    /// Only the ASCII region, i.e. the characters `'A'..='Z'` and `'a'..='z'`,
    /// are affected.
    Ascii,
    /// Full Unicode case mapping, adapted for Turkic languages (Turkish,
    /// Azerbaijani, ...). The mode can be named, but no case mapping exists
    /// for it in this crate.
    Turkic,
    /// Currently, just full Unicode case mapping.
    Lithuanian,
    /// Unicode case folding, which is more far-reaching than Unicode case
    /// mapping. The mode can be named, but no case mapping exists for it in
    /// this crate.
    Fold,
}

/// The titlecase mode that a token names, if it names one.
pub open spec fn titlecase_mode_of(token: Seq<u8>) -> Option<TitlecaseMode> {
    if token == TOKEN_ASCII@ {
        Some(TitlecaseMode::Ascii)
    } else if token == TOKEN_TURKIC@ {
        Some(TitlecaseMode::Turkic)
    } else if token == TOKEN_LITHUANIAN@ {
        Some(TitlecaseMode::Lithuanian)
    } else if token == TOKEN_FOLD@ {
        Some(TitlecaseMode::Fold)
    } else {
        None
    }
}

/// What parsing a token gives: the mode that it names, or the error where it
/// names none. The tokens are case-sensitive, and the empty token names no
/// mode.
pub open spec fn parse_titlecase_mode(token: Seq<u8>) -> Result<TitlecaseMode, InvalidCaseMappingMode> {
    match titlecase_mode_of(token) {
        Some(mode) => Ok(mode),
        None => Err(InvalidCaseMappingMode::value()),
    }
}

/// What parsing an optional token gives: `Full` where there is none.
pub open spec fn parse_optional_titlecase_mode(token: Option<Seq<u8>>) -> Result<
    TitlecaseMode,
    InvalidCaseMappingMode,
> {
    match token {
        None => Ok(TitlecaseMode::Full),
        Some(token) => parse_titlecase_mode(token),
    }
}

impl TitlecaseMode {
    /// Parses the token of a mode. `ascii`, `turkic`, `lithuanian` and `fold` name their modes; every other
    /// token is an error.
    pub fn from_token(token: &[u8]) -> (r: Result<Self, InvalidCaseMappingMode>)
        ensures
            r == parse_titlecase_mode(token@),
    {
        if same_bytes(token, TOKEN_ASCII.as_slice()) {
            Ok(TitlecaseMode::Ascii)
        } else if same_bytes(token, TOKEN_TURKIC.as_slice()) {
            Ok(TitlecaseMode::Turkic)
        } else if same_bytes(token, TOKEN_LITHUANIAN.as_slice()) {
            Ok(TitlecaseMode::Lithuanian)
        } else if same_bytes(token, TOKEN_FOLD.as_slice()) {
            Ok(TitlecaseMode::Fold)
        } else {
            Err(InvalidCaseMappingMode::new())
        }
    }
}

impl Default for TitlecaseMode {
    /// The default mode, `Full`.
    fn default() -> (r: Self)
        ensures
            r == TitlecaseMode::Full,
    {
        TitlecaseMode::Full
    }
}

impl<'a> TryFrom<&'a [u8]> for TitlecaseMode {
    type Error = InvalidCaseMappingMode;

    /// Parses the token of a mode.
    fn try_from(value: &'a [u8]) -> (r: Result<Self, InvalidCaseMappingMode>)
        ensures
            r == parse_titlecase_mode(value@),
    {
        Self::from_token(value)
    }
}

impl<'a> vstd::std_specs::convert::TryFromSpecImpl<&'a [u8]> for TitlecaseMode {
    open spec fn obeys_try_from_spec() -> bool {
        true
    }

    open spec fn try_from_spec(value: &'a [u8]) -> Result<Self, InvalidCaseMappingMode> {
        parse_titlecase_mode(value@)
    }
}

impl<'a> TryFrom<Option<&'a [u8]>> for TitlecaseMode {
    type Error = InvalidCaseMappingMode;

    /// Parses an optional token: without a token the mode is `Full`.
    fn try_from(value: Option<&'a [u8]>) -> (r: Result<Self, InvalidCaseMappingMode>)
        ensures
            r == parse_optional_titlecase_mode(
                match value {
                    Some(token) => Some(token@),
                    None => None,
                },
            ),
    {
        match value {
            None => Ok(TitlecaseMode::Full),
            Some(token) => Self::from_token(token),
        }
    }
}

impl<'a> vstd::std_specs::convert::TryFromSpecImpl<Option<&'a [u8]>> for TitlecaseMode {
    open spec fn obeys_try_from_spec() -> bool {
        true
    }

    open spec fn try_from_spec(value: Option<&'a [u8]>) -> Result<Self, InvalidCaseMappingMode> {
        parse_optional_titlecase_mode(
            match value {
                Some(token) => Some(token@),
                None => None,
            },
        )
    }
}

impl<'a> TryFrom<&'a str> for TitlecaseMode {
    type Error = InvalidCaseMappingMode;

    /// Parses the token of a mode from the bytes of a string.
    fn try_from(value: &'a str) -> (r: Result<Self, InvalidCaseMappingMode>)
        ensures
            r == parse_titlecase_mode(value.spec_bytes()),
    {
        Self::from_token(value.as_bytes())
    }
}

impl<'a> vstd::std_specs::convert::TryFromSpecImpl<&'a str> for TitlecaseMode {
    open spec fn obeys_try_from_spec() -> bool {
        true
    }

    open spec fn try_from_spec(value: &'a str) -> Result<Self, InvalidCaseMappingMode> {
        parse_titlecase_mode(value.spec_bytes())
    }
}

impl<'a> TryFrom<Option<&'a str>> for TitlecaseMode {
    type Error = InvalidCaseMappingMode;

    /// Parses an optional token from the bytes of a string: without a token
    /// the mode is `Full`.
    fn try_from(value: Option<&'a str>) -> (r: Result<Self, InvalidCaseMappingMode>)
        ensures
            r == parse_optional_titlecase_mode(
                match value {
                    Some(token) => Some(token.spec_bytes()),
                    None => None,
                },
            ),
    {
        match value {
            None => Ok(TitlecaseMode::Full),
            Some(token) => Self::from_token(token.as_bytes()),
        }
    }
}

impl<'a> vstd::std_specs::convert::TryFromSpecImpl<Option<&'a str>> for TitlecaseMode {
    open spec fn obeys_try_from_spec() -> bool {
        true
    }

    open spec fn try_from_spec(value: Option<&'a str>) -> Result<Self, InvalidCaseMappingMode> {
        parse_optional_titlecase_mode(
            match value {
                Some(token) => Some(token.spec_bytes()),
                None => None,
            },
        )
    }
}

impl FromStr for TitlecaseMode {
    type Err = InvalidCaseMappingMode;

    /// Parses the token of a mode from the bytes of a string.
    fn from_str(s: &str) -> (r: Result<Self, InvalidCaseMappingMode>)
        ensures
            r == parse_titlecase_mode(s.spec_bytes()),
    {
        Self::from_token(s.as_bytes())
    }
}

/// What [`titlecase`] returns for a mode: the bytes that the iterator will
/// yield, or the error for a mode without a case mapping.
pub open spec fn titlecase_of(s: Seq<u8>, options: TitlecaseMode) -> Result<Seq<u8>, UnsupportedMode> {
    match options {
        TitlecaseMode::Full => Ok(titlecase_bytes(s)),
        TitlecaseMode::Lithuanian => Ok(titlecase_bytes(s)),
        TitlecaseMode::Ascii => Ok(title_bytes(s)),
        TitlecaseMode::Turkic => Err(UnsupportedMode::Turkic),
        TitlecaseMode::Fold => Err(UnsupportedMode::Fold),
    }
}

/// Returns an iterator that yields a copy of the bytes in the given slice with
/// the first letter replaced with its titlecase counterpart and every other
/// letter with its lowercase counterpart.
///
/// This function treats the given slice as a conventionally UTF-8 string.
/// UTF-8 byte sequences are converted to their Unicode titlecase equivalents.
/// Invalid UTF-8 byte sequences are yielded as is.
///
/// The case mapping mode is determined by the given [`TitlecaseMode`]: `Full`
/// and `Lithuanian` map by the full Unicode case mapping, `Ascii` maps ASCII
/// letters only.
///
/// # Errors
///
/// For `Turkic` and `Fold` there is no case mapping. The error comes at once, before
/// any byte is yielded.
pub fn titlecase(slice: &[u8], options: TitlecaseMode) -> (r: Result<Titlecase<'_>, UnsupportedMode>)
    ensures
        match r {
            Ok(iter) => titlecase_of(slice@, options) == Ok::<Seq<u8>, UnsupportedMode>(
                iter.remaining(),
            ) && iter.input() == slice@ && iter.is_ascii_mode() == (options == TitlecaseMode::Ascii),
            Err(e) => titlecase_of(slice@, options) == Err::<Seq<u8>, UnsupportedMode>(e),
        },
{
    match options {
        TitlecaseMode::Full | TitlecaseMode::Lithuanian => Ok(Titlecase::with_slice(slice)),
        TitlecaseMode::Ascii => Ok(Titlecase::with_ascii_slice(slice)),
        TitlecaseMode::Turkic => Err(UnsupportedMode::Turkic),
        TitlecaseMode::Fold => Err(UnsupportedMode::Fold),
    }
}

} // verus!
