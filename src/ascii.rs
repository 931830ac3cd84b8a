//! Character classes, and the checks that the `ascii_utils` crate performs.

use vstd::prelude::*;

verus! {

/// What is wrong with a string that is not printable ASCII.
#[derive(Debug, Clone, Copy, PartialEq, Eq, Structural)]
pub enum AsciiError {
    /// An ASCII control character, at this 1-based byte position.
    ControlChar(usize),
    /// A character outside US-ASCII.
    NonAscii(char),
}

/// An ASCII letter (`a`-`z`, `A`-`Z`).
pub open spec fn is_letter(c: char) -> bool {
    ('a' <= c && c <= 'z') || ('A' <= c && c <= 'Z')
}

/// An ASCII digit (`0`-`9`).
pub open spec fn is_digit(c: char) -> bool {
    '0' <= c && c <= '9'
}

/// A printable ASCII character: space through `~`.
pub open spec fn is_printable(c: char) -> bool {
    ' ' <= c && c <= '~'
}

/// The error reported for a character that is not printable ASCII and that
/// stands at this 1-based position.
pub open spec fn fault_at(c: char, pos: int) -> AsciiError {
    if (c as u32) < 0x80 {
        AsciiError::ControlChar(pos as usize)
    } else {
        AsciiError::NonAscii(c)
    }
}

/// The outcome of checking that every character is printable ASCII: the
/// first character that is not decides the error.
pub open spec fn printable_outcome(s: Seq<char>) -> Result<(), AsciiError>
    decreases s.len(),
{
    if s.len() == 0 {
        Ok(())
    } else {
        match printable_outcome(s.drop_last()) {
            Err(e) => Err(e),
            Ok(()) => if is_printable(s.last()) {
                Ok(())
            } else {
                Err(fault_at(s.last(), s.len() as int))
            },
        }
    }
}

/// Relies on `<char as ascii_utils::Check>::is_letter`: `a`-`z` or `A`-`Z`.
#[verifier::external_body]
pub(crate) fn letter(c: char) -> (r: bool)
    ensures
        r == is_letter(c),
{
    ascii_utils::Check::is_letter(c)
}

/// Relies on `<char as ascii_utils::Check>::is_digit`: `0`-`9`.
#[verifier::external_body]
pub(crate) fn digit(c: char) -> (r: bool)
    ensures
        r == is_digit(c),
{
    ascii_utils::Check::is_digit(c)
}

/// Relies on `ascii_utils::check_ascii_printable`: it walks the bytes and
/// stops at the first one outside printable ASCII, reporting a control byte
/// by its 1-based position and any other by the character that starts there.
/// Every byte before it is ASCII, so that position counts characters too.
#[verifier::external_body]
pub(crate) fn check_printable(s: &str) -> (r: Result<(), AsciiError>)
    ensures
        r == printable_outcome(s@),
{
    match ascii_utils::check_ascii_printable(s) {
        Ok(()) => Ok(()),
        Err(ascii_utils::AsciiError::ControlChar(p)) => Err(AsciiError::ControlChar(p)),
        Err(ascii_utils::AsciiError::NonAscii(c)) => Err(AsciiError::NonAscii(c)),
    }
}

/// The text that describes what is wrong with a string that is not printable ASCII.
pub open spec fn ascii_description(e: AsciiError) -> Seq<char> {
    match e {
        AsciiError::ControlChar(_) => "contain ASCII control character"@,
        AsciiError::NonAscii(_) => "contain non US-ASCII character"@,
    }
}

/// Relies on the `description` that `ascii_utils::AsciiError` gives as a
/// `std::error::Error`: one fixed text for each variant.
#[verifier::external_body]
#[allow(deprecated)]
pub(crate) fn ascii_error_description(e: AsciiError) -> (r: String)
    ensures
        r@ == ascii_description(e),
{
    let err = match e {
        AsciiError::ControlChar(p) => ascii_utils::AsciiError::ControlChar(p),
        AsciiError::NonAscii(c) => ascii_utils::AsciiError::NonAscii(c),
    };
    std::error::Error::description(&err).to_string()
}

} // verus!
