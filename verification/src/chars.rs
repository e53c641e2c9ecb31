use vstd::prelude::*;

verus! {

/// Whether a character has Unicode's `Alphabetic` property: the answer of
/// `char::is_alphabetic`, which is decided by the tables of the standard library.
pub uninterp spec fn unicode_alphabetic(c: char) -> bool;

/// Whether a character belongs to one of Unicode's number categories: the answer of
/// `char::is_numeric`, which is decided by the tables of the standard library.
pub uninterp spec fn unicode_numeric(c: char) -> bool;

/// `char::is_alphabetic` of the standard library. Nothing is claimed of it but that
/// its answer depends on the character alone.
pub assume_specification[ char::is_alphabetic ](c: char) -> (r: bool)
    ensures
        r == unicode_alphabetic(c),
;

/// `char::is_numeric` of the standard library. Nothing is claimed of it but that its
/// answer depends on the character alone.
pub assume_specification[ char::is_numeric ](c: char) -> (r: bool)
    ensures
        r == unicode_numeric(c),
;

/// The four characters that separate tokens without being one.
pub open spec fn is_space(c: char) -> bool {
    c == ' ' || c == '\n' || c == '\r' || c == '\t'
}

/// The ten decimal digits.
pub open spec fn is_digit(c: char) -> bool {
    '0' <= c && c <= '9'
}

/// A letter or a number of any script.
pub open spec fn is_alphanumeric(c: char) -> bool {
    unicode_alphabetic(c) || unicode_numeric(c)
}

/// A character that may stand inside an identifier or a keyword.
pub open spec fn is_word_char(c: char) -> bool {
    is_alphanumeric(c) || c == '_'
}

/// A character that may start an identifier or a keyword.
pub open spec fn is_word_start(c: char) -> bool {
    unicode_alphabetic(c) || c == '_'
}

/// The value of a decimal digit.
pub open spec fn digit_value(c: char) -> nat
    recommends
        is_digit(c),
{
    (c as u32 - '0' as u32) as nat
}

pub fn space(c: char) -> (r: bool)
    ensures
        r == is_space(c),
{
    c == ' ' || c == '\n' || c == '\r' || c == '\t'
}

pub fn digit(c: char) -> (r: bool)
    ensures
        r == is_digit(c),
{
    '0' <= c && c <= '9'
}

pub fn alphanumeric(c: char) -> (r: bool)
    ensures
        r == is_alphanumeric(c),
{
    c.is_alphabetic() || c.is_numeric()
}

pub fn word_char(c: char) -> (r: bool)
    ensures
        r == is_word_char(c),
{
    c == '_' || alphanumeric(c)
}

pub fn word_start(c: char) -> (r: bool)
    ensures
        r == is_word_start(c),
{
    c == '_' || c.is_alphabetic()
}

pub(crate) fn digit_to_u32(c: char) -> (r: u32)
    requires
        is_digit(c),
    ensures
        r == digit_value(c),
        r <= 9,
{
    c as u32 - '0' as u32
}

} // verus!
