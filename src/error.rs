//! The reasons an address is rejected.

use vstd::prelude::*;

use crate::ascii::{ascii_description, ascii_error_description, AsciiError};

verus! {

/// The first rule that an address breaks.
#[derive(Debug, Clone, Copy, PartialEq, Eq, Structural)]
pub enum ParseError {
    /// The address starts with `@`.
    NoLocalPart,
    /// The address ends with `@`.
    NoDomainPart,
    /// The address holds no `@`.
    NoSignAt,
    /// The address holds more than one `@`.
    TooAt,
    /// The local part holds more than 64 octets.
    LocalTooLong,
    /// The domain part holds more than 255 octets.
    DomainTooLong,
    /// A domain label holds more than 63 octets.
    LabelTooLong,
    /// The local part starts with a period.
    LocalStartPeriod,
    /// The local part ends with a period.
    LocalEndPeriod,
    /// The domain part starts with a period.
    DomainStartPeriod,
    /// The domain part ends with a period.
    DomainEndPeriod,
    /// Two periods in a row, in the local part or the domain part.
    ConsecutivePeriod,
    /// The domain part holds no period.
    NoPeriodDomain,
    /// The address is not printable ASCII.
    Ascii(AsciiError),
    /// A character that the local part may not hold.
    WrongCharLocal(char),
    /// A character that a domain label may not hold.
    WrongCharDomain(char),
    /// A domain label that does not start with a letter.
    WrongStartLabel(char),
    /// A domain label that ends with neither a letter nor a digit.
    WrongEndLabel(char),
}

impl From<AsciiError> for ParseError {
    fn from(err: AsciiError) -> (r: ParseError)
        ensures
            r == ParseError::Ascii(err),
    {
        ParseError::Ascii(err)
    }
}

impl vstd::std_specs::convert::FromSpecImpl<AsciiError> for ParseError {
    open spec fn obeys_from_spec() -> bool {
        true
    }

    open spec fn from_spec(err: AsciiError) -> ParseError {
        ParseError::Ascii(err)
    }
}

/// The text that describes an error.
pub open spec fn description_of(e: ParseError) -> Seq<char> {
    match e {
        ParseError::NoLocalPart => "no local part"@,
        ParseError::NoDomainPart => "no domain part"@,
        ParseError::NoSignAt => "no at sign (@)"@,
        ParseError::TooAt => "wrong number of at sign (@)"@,
        ParseError::LocalTooLong => "the local part has more than 64 characters"@,
        ParseError::DomainTooLong => "the domain part has more than 255 characters"@,
        ParseError::LabelTooLong => "a domain label has more than 63 characters"@,
        ParseError::LocalStartPeriod => "the local part starts with a period"@,
        ParseError::LocalEndPeriod => "the local part ends with a period"@,
        ParseError::DomainStartPeriod => "the domain part starts with a period"@,
        ParseError::DomainEndPeriod => "the domain part ends with a period"@,
        ParseError::ConsecutivePeriod => "appear two or more consecutive periods"@,
        ParseError::NoPeriodDomain => "no period at domain part"@,
        ParseError::Ascii(a) => ascii_description(a),
        ParseError::WrongCharLocal(_) => "character not valid in local part"@,
        ParseError::WrongCharDomain(_) => "character not valid in domain part"@,
        ParseError::WrongStartLabel(_) => "character not valid at start of domain label"@,
        ParseError::WrongEndLabel(_) => "character not valid at end of domain label"@,
    }
}

/// The offending character that an error carries, if it carries one.
pub open spec fn offending_char(e: ParseError) -> Option<char> {
    match e {
        ParseError::WrongCharLocal(c) => Some(c),
        ParseError::WrongCharDomain(c) => Some(c),
        ParseError::WrongStartLabel(c) => Some(c),
        ParseError::WrongEndLabel(c) => Some(c),
        _ => None,
    }
}

/// The message of an error: `invalid email address: <description>`, followed
/// by ` (<char>)` where the error carries an offending character.
pub open spec fn message_of(e: ParseError) -> Seq<char> {
    let head = "invalid email address: "@ + description_of(e);
    match offending_char(e) {
        Some(c) => head + " ("@ + seq![c] + ")"@,
        None => head,
    }
}

/// Relies on `String::push`: appends one character.
#[verifier::external_body]
fn push_char(s: &mut String, c: char)
    ensures
        final(s)@ == old(s)@.push(c),
{
    s.push(c)
}

impl ParseError {
    /// The text that describes this error.
    pub fn description(&self) -> (r: String)
        ensures
            r@ == description_of(*self),
    {
        match *self {
            ParseError::NoLocalPart => String::from_str("no local part"),
            ParseError::NoDomainPart => String::from_str("no domain part"),
            ParseError::NoSignAt => String::from_str("no at sign (@)"),
            ParseError::TooAt => String::from_str("wrong number of at sign (@)"),
            ParseError::LocalTooLong => String::from_str(
                "the local part has more than 64 characters",
            ),
            ParseError::DomainTooLong => String::from_str(
                "the domain part has more than 255 characters",
            ),
            ParseError::LabelTooLong => String::from_str(
                "a domain label has more than 63 characters",
            ),
            ParseError::LocalStartPeriod => String::from_str("the local part starts with a period"),
            ParseError::LocalEndPeriod => String::from_str("the local part ends with a period"),
            ParseError::DomainStartPeriod => String::from_str(
                "the domain part starts with a period",
            ),
            ParseError::DomainEndPeriod => String::from_str("the domain part ends with a period"),
            ParseError::ConsecutivePeriod => String::from_str(
                "appear two or more consecutive periods",
            ),
            ParseError::NoPeriodDomain => String::from_str("no period at domain part"),
            ParseError::Ascii(a) => ascii_error_description(a),
            ParseError::WrongCharLocal(_) => String::from_str("character not valid in local part"),
            ParseError::WrongCharDomain(_) => String::from_str(
                "character not valid in domain part",
            ),
            ParseError::WrongStartLabel(_) => String::from_str(
                "character not valid at start of domain label",
            ),
            ParseError::WrongEndLabel(_) => String::from_str(
                "character not valid at end of domain label",
            ),
        }
    }

    /// The error of the printable-ASCII check that this error wraps, if any.
    pub fn cause(&self) -> (r: Option<AsciiError>)
        ensures
            r == (match *self {
                ParseError::Ascii(a) => Some(a),
                _ => None,
            }),
    {
        match *self {
            ParseError::Ascii(a) => Some(a),
            _ => None,
        }
    }

    /// The human-readable message of this error.
    pub fn to_string(&self) -> (r: String)
        ensures
            r@ == message_of(*self),
    {
        let mut m = String::from_str("invalid email address: ");
        let d = self.description();
        m.append(d.as_str());
        let c = match *self {
            ParseError::WrongCharLocal(c) => Some(c),
            ParseError::WrongCharDomain(c) => Some(c),
            ParseError::WrongStartLabel(c) => Some(c),
            ParseError::WrongEndLabel(c) => Some(c),
            _ => None,
        };
        match c {
            Some(ch) => {
                m.append(" (");
                push_char(&mut m, ch);
                m.append(")");
            },
            None => {},
        }
        m
    }
}

} // verus!
