//! Decides whether a base name satisfies a named naming convention.
//!
//! Each convention is an anchored, case-sensitive, ASCII-only structural
//! rule over the whole base name:
//!
//! * kebab:       `^[a-z][a-z-]*[a-z]$`
//! * snake:       `^[a-z][a-z_]*[a-z]$`
//! * upper_snake: `^[A-Z][A-Z_]*$`
//! * camel:       `^[a-z][A-Za-z]*$`
//! * pascal:      `^[A-Z][A-Za-z]*$`

use vstd::prelude::*;
use vstd::string::StrSliceExecFns;
use vstd::string::StringExecFns;
use crate::text::str_eq;

verus! {

/// The closed set of supported naming conventions.
#[derive(Clone, Copy, Debug, PartialEq, Eq, Structural)]
pub enum Convention {
    Kebab,
    Snake,
    UpperSnake,
    Camel,
    Pascal,
}

/// An unrecognized convention tag: a fatal configuration error, never a
/// per-file mismatch.
#[derive(Debug, PartialEq, Eq)]
pub struct UnknownConventionError {
    /// The unrecognized tag, as it stood in the configuration.
    pub convention: String,
}

pub open spec fn is_lowercase_letter(c: char) -> bool {
    'a' <= c && c <= 'z'
}

pub open spec fn is_uppercase_letter(c: char) -> bool {
    'A' <= c && c <= 'Z'
}

pub open spec fn is_letter(c: char) -> bool {
    is_lowercase_letter(c) || is_uppercase_letter(c)
}

/// A class of characters a position of a base name may hold.
#[derive(Clone, Copy)]
pub enum CharClass {
    Lower,
    Upper,
    Letter,
    LowerOrHyphen,
    LowerOrUnderscore,
    UpperOrUnderscore,
}

pub open spec fn in_class(cc: CharClass, c: char) -> bool {
    match cc {
        CharClass::Lower => is_lowercase_letter(c),
        CharClass::Upper => is_uppercase_letter(c),
        CharClass::Letter => is_letter(c),
        CharClass::LowerOrHyphen => is_lowercase_letter(c) || c == '-',
        CharClass::LowerOrUnderscore => is_lowercase_letter(c) || c == '_',
        CharClass::UpperOrUnderscore => is_uppercase_letter(c) || c == '_',
    }
}

fn char_in_class(cc: CharClass, c: char) -> (r: bool)
    ensures
        r == in_class(cc, c),
{
    match cc {
        CharClass::Lower => 'a' <= c && c <= 'z',
        CharClass::Upper => 'A' <= c && c <= 'Z',
        CharClass::Letter => ('a' <= c && c <= 'z') || ('A' <= c && c <= 'Z'),
        CharClass::LowerOrHyphen => ('a' <= c && c <= 'z') || c == '-',
        CharClass::LowerOrUnderscore => ('a' <= c && c <= 'z') || c == '_',
        CharClass::UpperOrUnderscore => ('A' <= c && c <= 'Z') || c == '_',
    }
}

/// Shape of kebab and snake: a first character of class `first` and a
/// distinct last character of class `last`, around interior characters of
/// class `interior`.
pub open spec fn spec_delimited(s: Seq<char>, first: CharClass, interior: CharClass, last: CharClass) -> bool {
    &&& s.len() >= 2
    &&& in_class(first, s[0])
    &&& in_class(last, s[s.len() - 1])
    &&& forall|i: int| 0 < i < s.len() - 1 ==> in_class(interior, #[trigger] s[i])
}

/// Shape of upper_snake, camel and pascal: a first character of class
/// `first`, every later character of class `rest`.
pub open spec fn spec_open_shape(s: Seq<char>, first: CharClass, rest: CharClass) -> bool {
    &&& s.len() >= 1
    &&& in_class(first, s[0])
    &&& forall|i: int| 1 <= i < s.len() ==> in_class(rest, #[trigger] s[i])
}

fn scan_delimited(name: &str, first: CharClass, interior: CharClass, last: CharClass) -> (r: bool)
    ensures
        r == spec_delimited(name@, first, interior, last),
{
    let len = name.unicode_len();
    if len < 2 {
        return false;
    }
    if !char_in_class(first, name.get_char(0)) {
        return false;
    }
    if !char_in_class(last, name.get_char(len - 1)) {
        return false;
    }
    for i in 1..len - 1
        invariant
            2 <= len == name@.len(),
            in_class(first, name@[0]),
            in_class(last, name@[len - 1]),
            forall|j: int| 0 < j < i ==> in_class(interior, #[trigger] name@[j]),
    {
        if !char_in_class(interior, name.get_char(i)) {
            return false;
        }
    }
    true
}

fn scan_open_shape(name: &str, first: CharClass, rest: CharClass) -> (r: bool)
    ensures
        r == spec_open_shape(name@, first, rest),
{
    let len = name.unicode_len();
    if len == 0 {
        return false;
    }
    if !char_in_class(first, name.get_char(0)) {
        return false;
    }
    for i in 1..len
        invariant
            1 <= len == name@.len(),
            in_class(first, name@[0]),
            forall|j: int| 1 <= j < i ==> in_class(rest, #[trigger] name@[j]),
    {
        if !char_in_class(rest, name.get_char(i)) {
            return false;
        }
    }
    true
}

/// The structural rule of each convention, per the pattern table above.
pub open spec fn spec_matches(c: Convention, s: Seq<char>) -> bool {
    match c {
        Convention::Kebab => spec_delimited(s, CharClass::Lower, CharClass::LowerOrHyphen, CharClass::Lower),
        Convention::Snake => spec_delimited(s, CharClass::Lower, CharClass::LowerOrUnderscore, CharClass::Lower),
        Convention::UpperSnake => spec_open_shape(s, CharClass::Upper, CharClass::UpperOrUnderscore),
        Convention::Camel => spec_open_shape(s, CharClass::Lower, CharClass::Letter),
        Convention::Pascal => spec_open_shape(s, CharClass::Upper, CharClass::Letter),
    }
}

/// Decides whether `name` satisfies the structural rule of convention `c`.
pub fn convention_matches(c: Convention, name: &str) -> (r: bool)
    ensures
        r == spec_matches(c, name@),
{
    match c {
        Convention::Kebab => scan_delimited(name, CharClass::Lower, CharClass::LowerOrHyphen, CharClass::Lower),
        Convention::Snake => scan_delimited(name, CharClass::Lower, CharClass::LowerOrUnderscore, CharClass::Lower),
        Convention::UpperSnake => scan_open_shape(name, CharClass::Upper, CharClass::UpperOrUnderscore),
        Convention::Camel => scan_open_shape(name, CharClass::Lower, CharClass::Letter),
        Convention::Pascal => scan_open_shape(name, CharClass::Upper, CharClass::Letter),
    }
}

/// The convention a tag names, if any; every tag outside the closed set
/// (the reserved underscore-affix tags included) maps to `None`.
pub open spec fn convention_of_tag(tag: Seq<char>) -> Option<Convention> {
    if tag == "kebab"@ {
        Some(Convention::Kebab)
    } else if tag == "snake"@ {
        Some(Convention::Snake)
    } else if tag == "upper_snake"@ {
        Some(Convention::UpperSnake)
    } else if tag == "camel"@ {
        Some(Convention::Camel)
    } else if tag == "pascal"@ {
        Some(Convention::Pascal)
    } else {
        None
    }
}

/// Parses a convention tag into the closed convention set.
pub fn parse_convention(tag: &str) -> (r: Option<Convention>)
    ensures
        r == convention_of_tag(tag@),
{
    if str_eq(tag, "kebab") {
        Some(Convention::Kebab)
    } else if str_eq(tag, "snake") {
        Some(Convention::Snake)
    } else if str_eq(tag, "upper_snake") {
        Some(Convention::UpperSnake)
    } else if str_eq(tag, "camel") {
        Some(Convention::Camel)
    } else if str_eq(tag, "pascal") {
        Some(Convention::Pascal)
    } else {
        None
    }
}

/// Decides whether `base_name` satisfies the convention named by
/// `convention`. An unrecognized tag always fails with
/// `UnknownConventionError` carrying that tag, never with a plain `false`:
/// it means the configuration itself is invalid.
pub fn matches(convention: &str, base_name: &str) -> (r: Result<bool, UnknownConventionError>)
    ensures
        match convention_of_tag(convention@) {
            Some(c) => r == Ok::<bool, UnknownConventionError>(spec_matches(c, base_name@)),
            None => r matches Err(e) && e.convention@ == convention@,
        },
{
    match parse_convention(convention) {
        Some(c) => Ok(convention_matches(c, base_name)),
        None => Err(UnknownConventionError { convention: String::from_str(convention) }),
    }
}

/// Law: a base name holding a decimal digit never matches any of the five
/// conventions; no convention's rule admits digits.
pub proof fn lemma_digit_never_matches(c: Convention, s: Seq<char>, i: int)
    requires
        0 <= i < s.len(),
        '0' <= s[i] && s[i] <= '9',
    ensures
        !spec_matches(c, s),
{
}

/// Law: a single-character base name never matches kebab or snake, and
/// matches upper_snake, camel or pascal exactly when that character has
/// the convention's case.
pub proof fn lemma_single_char(c: char)
    ensures
        !spec_matches(Convention::Kebab, seq![c]),
        !spec_matches(Convention::Snake, seq![c]),
        spec_matches(Convention::UpperSnake, seq![c]) == is_uppercase_letter(c),
        spec_matches(Convention::Camel, seq![c]) == is_lowercase_letter(c),
        spec_matches(Convention::Pascal, seq![c]) == is_uppercase_letter(c),
{
    assert(seq![c].len() == 1);
    assert(seq![c][0] == c);
}

} // verus!
