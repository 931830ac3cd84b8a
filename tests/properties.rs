use fast_chemail::{is_valid_email, parse_email, AsciiError, ParseError};

#[test]
fn same_input_same_result() {
    for s in ["user+mailbox@example.com", "abc@def@example.com", "a\tbc@example.com", ""] {
        assert_eq!(parse_email(s), parse_email(s));
    }
}

#[test]
fn zero_at_signs() {
    assert_eq!(parse_email(""), Err(ParseError::NoSignAt));
    assert_eq!(parse_email("example.com"), Err(ParseError::NoSignAt));
}

#[test]
fn two_or_more_at_signs() {
    assert_eq!(parse_email("a@b@c.d"), Err(ParseError::TooAt));
    assert_eq!(parse_email("a@@c.d"), Err(ParseError::TooAt));
    assert_eq!(parse_email("a@b@c@d.e"), Err(ParseError::TooAt));
}

#[test]
fn leading_and_trailing_at() {
    assert_eq!(parse_email("@abc@"), Err(ParseError::NoLocalPart));
    assert_eq!(parse_email("@a@b.c"), Err(ParseError::NoLocalPart));
    assert_eq!(parse_email("a@b.c@"), Err(ParseError::NoDomainPart));
    assert_eq!(parse_email("abc€@"), Err(ParseError::NoDomainPart));
}

#[test]
fn local_part_periods() {
    assert_eq!(parse_email("a.b.c@x.y"), Ok(()));
    assert_eq!(parse_email("a...b@x.y"), Err(ParseError::ConsecutivePeriod));
    assert_eq!(parse_email(".@x.y"), Err(ParseError::LocalStartPeriod));
    assert_eq!(parse_email("ab.@x.y"), Err(ParseError::LocalEndPeriod));
}

#[test]
fn domain_label_rules() {
    assert_eq!(parse_email("a@x9.y-z9"), Ok(()));
    assert_eq!(parse_email("a@x.y-"), Err(ParseError::WrongEndLabel('-')));
    assert_eq!(parse_email("a@x.9y"), Err(ParseError::WrongStartLabel('9')));
    assert_eq!(parse_email("a@x.y!z"), Err(ParseError::WrongCharDomain('!')));
    // the character check of a label comes before its first and last characters
    assert_eq!(parse_email("a@-x_.y"), Err(ParseError::WrongCharDomain('_')));
    // labels are checked left to right
    assert_eq!(parse_email("a@-x.y_"), Err(ParseError::WrongStartLabel('-')));
}

#[test]
fn local_part_boundary() {
    let ok = format!("{}@x.y", "a".repeat(64));
    assert_eq!(parse_email(&ok), Ok(()));
    let long = format!("{}@x.y", "a".repeat(65));
    assert_eq!(parse_email(&long), Err(ParseError::LocalTooLong));
}

#[test]
fn domain_part_boundary() {
    let labels = format!("{}.", "x".repeat(63)).repeat(3);
    let ok = format!("a@{}{}", labels, "y".repeat(255 - 192));
    assert_eq!(parse_email(&ok), Ok(()));
    let long = format!("a@{}{}", labels, "y".repeat(256 - 192));
    assert_eq!(parse_email(&long), Err(ParseError::DomainTooLong));
}

#[test]
fn label_boundary() {
    let ok = format!("a@{}.com", "x".repeat(63));
    assert_eq!(parse_email(&ok), Ok(()));
    let long = format!("a@{}.com", "x".repeat(64));
    assert_eq!(parse_email(&long), Err(ParseError::LabelTooLong));
}

#[test]
fn concrete_cases() {
    assert_eq!(parse_email("user+mailbox@example.com"), Ok(()));
    assert_eq!(parse_email("abc@def@example.com"), Err(ParseError::TooAt));
    assert_eq!(parse_email(".abc@example.com"), Err(ParseError::LocalStartPeriod));
    assert_eq!(parse_email("ab..cd@example.com"), Err(ParseError::ConsecutivePeriod));
    assert_eq!(parse_email("abc@-example.com"), Err(ParseError::WrongStartLabel('-')));
    assert_eq!(parse_email("abc@x.123"), Err(ParseError::WrongStartLabel('1')));
    assert_eq!(
        parse_email("abcd€f@example.com"),
        Err(ParseError::Ascii(AsciiError::NonAscii('€')))
    );
    assert_eq!(
        parse_email("a\tbc@example.com"),
        Err(ParseError::Ascii(AsciiError::ControlChar(2)))
    );
}

#[test]
fn printable_check_comes_before_at_count() {
    assert_eq!(parse_email("ab\u{7f}c"), Err(ParseError::Ascii(AsciiError::ControlChar(3))));
    assert_eq!(parse_email("é@a@b"), Err(ParseError::Ascii(AsciiError::NonAscii('é'))));
    assert_eq!(parse_email("a@b.c~"), Err(ParseError::WrongCharDomain('~')));
}

#[test]
fn letters_and_digits() {
    assert!(is_valid_email("Z9@A.b0"));
    assert!(!is_valid_email("a@b.0"));
    assert!(!is_valid_email("a@0.b"));
    assert!(is_valid_email("09azAZ@q.r"));
}

#[test]
fn every_error_message() {
    assert_eq!(ParseError::NoLocalPart.to_string(), "invalid email address: no local part");
    assert_eq!(ParseError::NoDomainPart.to_string(), "invalid email address: no domain part");
    assert_eq!(ParseError::NoSignAt.to_string(), "invalid email address: no at sign (@)");
    assert_eq!(
        ParseError::TooAt.to_string(),
        "invalid email address: wrong number of at sign (@)"
    );
    assert_eq!(
        ParseError::LocalTooLong.description(),
        "the local part has more than 64 characters"
    );
    assert_eq!(
        ParseError::DomainTooLong.description(),
        "the domain part has more than 255 characters"
    );
    assert_eq!(
        ParseError::LabelTooLong.description(),
        "a domain label has more than 63 characters"
    );
    assert_eq!(
        ParseError::ConsecutivePeriod.to_string(),
        "invalid email address: appear two or more consecutive periods"
    );
    assert_eq!(
        ParseError::WrongCharLocal('"').to_string(),
        "invalid email address: character not valid in local part (\")"
    );
    assert_eq!(
        ParseError::WrongEndLabel('-').to_string(),
        "invalid email address: character not valid at end of domain label (-)"
    );
    assert_eq!(
        ParseError::Ascii(AsciiError::ControlChar(2)).to_string(),
        "invalid email address: contain ASCII control character"
    );
    assert_eq!(
        ParseError::Ascii(AsciiError::NonAscii('€')).description(),
        "contain non US-ASCII character"
    );
}

#[test]
fn cause_of_errors() {
    assert_eq!(
        ParseError::Ascii(AsciiError::NonAscii('á')).cause(),
        Some(AsciiError::NonAscii('á'))
    );
    assert_eq!(ParseError::TooAt.cause(), None);
    assert_eq!(ParseError::from(AsciiError::ControlChar(7)), ParseError::Ascii(AsciiError::ControlChar(7)));
}
