//! The grammar of an address as mathematics: what `parse_email` returns for
//! each sequence of characters.
//!
//! Every rule past the printable-ASCII check sees ASCII characters only, so a
//! count of characters there is a count of octets.

use vstd::prelude::*;

use crate::ascii::{is_digit, is_letter, printable_outcome};
use crate::error::ParseError;

verus! {

/// The most octets that a local part may hold.
pub const MAX_LOCAL_PART: usize = 64;

/// The most octets that a domain part may hold.
pub const MAX_DOMAIN_PART: usize = 255;

/// The most octets that a domain label may hold.
pub const MAX_LABEL: usize = 63;

/// The punctuation that an atom may hold besides letters and digits.
pub open spec fn is_atom_punct(c: char) -> bool {
    c == '!' || c == '#' || c == '$' || c == '%' || c == '&' || c == '\'' || c == '*' || c == '+'
        || c == '-' || c == '/' || c == '=' || c == '?' || c == '^' || c == '_' || c == '`'
        || c == '{' || c == '|' || c == '}' || c == '~'
}

/// A character that a local part may hold anywhere (a period has rules of its own).
pub open spec fn is_atom_char(c: char) -> bool {
    is_letter(c) || is_digit(c) || is_atom_punct(c)
}

/// A letter, a digit or a hyphen: what a domain label is made of.
pub open spec fn is_ldh(c: char) -> bool {
    is_letter(c) || is_digit(c) || c == '-'
}

/// How many characters stand from position `i` up to the next `c`, or up to the end.
pub open spec fn run_len(s: Seq<char>, i: int, c: char) -> nat
    decreases s.len() - i,
{
    if i < 0 || i >= s.len() || s[i] == c {
        0
    } else {
        1 + run_len(s, i + 1, c)
    }
}

/// Where the first `@` stands (the length, where there is none).
pub open spec fn at_index(s: Seq<char>) -> int {
    run_len(s, 0, '@') as int
}

/// What comes before the first `@`.
pub open spec fn local_part(s: Seq<char>) -> Seq<char> {
    s.subrange(0, at_index(s))
}

/// What comes after the first `@`.
pub open spec fn domain_part(s: Seq<char>) -> Seq<char> {
    s.subrange(at_index(s) + 1, s.len() as int)
}

/// The scan of a local part from position `i` on: the first character that is
/// neither an atom character nor a period, or the first period that follows a
/// period, decides the error.
pub open spec fn local_scan(l: Seq<char>, i: int) -> Result<(), ParseError>
    decreases l.len() - i,
{
    if i < 0 || i >= l.len() {
        Ok(())
    } else if is_atom_char(l[i]) {
        local_scan(l, i + 1)
    } else if l[i] == '.' {
        if i > 0 && l[i - 1] == '.' {
            Err(ParseError::ConsecutivePeriod)
        } else {
            local_scan(l, i + 1)
        }
    } else {
        Err(ParseError::WrongCharLocal(l[i]))
    }
}

/// The checks of a local part, in order.
pub open spec fn local_outcome(l: Seq<char>) -> Result<(), ParseError> {
    if l.len() > MAX_LOCAL_PART {
        Err(ParseError::LocalTooLong)
    } else if l.len() > 0 && l[0] == '.' {
        Err(ParseError::LocalStartPeriod)
    } else if l.len() > 0 && l.last() == '.' {
        Err(ParseError::LocalEndPeriod)
    } else {
        local_scan(l, 0)
    }
}

/// The first character of a label from position `i` on that is not a letter,
/// a digit or a hyphen.
pub open spec fn label_scan(lab: Seq<char>, i: int) -> Result<(), ParseError>
    decreases lab.len() - i,
{
    if i < 0 || i >= lab.len() {
        Ok(())
    } else if is_ldh(lab[i]) {
        label_scan(lab, i + 1)
    } else {
        Err(ParseError::WrongCharDomain(lab[i]))
    }
}

/// The checks of one domain label, in order.
pub open spec fn label_outcome(lab: Seq<char>) -> Result<(), ParseError> {
    if lab.len() == 0 {
        Err(ParseError::ConsecutivePeriod)
    } else if lab.len() > MAX_LABEL {
        Err(ParseError::LabelTooLong)
    } else {
        match label_scan(lab, 0) {
            Err(e) => Err(e),
            Ok(()) => if !is_letter(lab[0]) {
                Err(ParseError::WrongStartLabel(lab[0]))
            } else if !(is_letter(lab.last()) || is_digit(lab.last())) {
                Err(ParseError::WrongEndLabel(lab.last()))
            } else {
                Ok(())
            },
        }
    }
}

/// The label of a domain that starts at position `i`.
pub open spec fn label_at(d: Seq<char>, i: int) -> Seq<char> {
    d.subrange(i, i + run_len(d, i, '.'))
}

/// The checks of the labels of a domain, from the one that starts at `i` on,
/// left to right.
pub open spec fn labels_from(d: Seq<char>, i: int) -> Result<(), ParseError>
    decreases d.len() - i,
{
    if i < 0 || i > d.len() {
        Ok(())
    } else {
        match label_outcome(label_at(d, i)) {
            Err(e) => Err(e),
            Ok(()) => if i + run_len(d, i, '.') < d.len() {
                labels_from(d, i + run_len(d, i, '.') + 1)
            } else {
                Ok(())
            },
        }
    }
}

/// The checks of a domain part, in order.
pub open spec fn domain_outcome(d: Seq<char>) -> Result<(), ParseError> {
    if d.len() > MAX_DOMAIN_PART {
        Err(ParseError::DomainTooLong)
    } else if d.len() > 0 && d[0] == '.' {
        Err(ParseError::DomainStartPeriod)
    } else if d.len() > 0 && d.last() == '.' {
        Err(ParseError::DomainEndPeriod)
    } else if !d.contains('.') {
        Err(ParseError::NoPeriodDomain)
    } else {
        labels_from(d, 0)
    }
}

/// What checking an address gives: success, or the first rule it breaks.
pub open spec fn email_outcome(s: Seq<char>) -> Result<(), ParseError> {
    if s.len() > 0 && s[0] == '@' {
        Err(ParseError::NoLocalPart)
    } else if s.len() > 0 && s.last() == '@' {
        Err(ParseError::NoDomainPart)
    } else {
        match printable_outcome(s) {
            Err(e) => Err(ParseError::Ascii(e)),
            Ok(()) => if at_index(s) >= s.len() {
                Err(ParseError::NoSignAt)
            } else if at_index(s) + 1 + run_len(s, at_index(s) + 1, '@') < s.len() {
                Err(ParseError::TooAt)
            } else {
                match local_outcome(local_part(s)) {
                    Err(e) => Err(e),
                    Ok(()) => domain_outcome(domain_part(s)),
                }
            },
        }
    }
}

/// The characters from `i` to `k` hold no `c`, and `k` is the end or a `c`:
/// then the run from `i` is `k - i` long.
pub proof fn lemma_run_len(s: Seq<char>, i: int, k: int, c: char)
    requires
        0 <= i <= k <= s.len(),
        forall|j: int| i <= j < k ==> s[j] != c,
        k == s.len() || s[k] == c,
    ensures
        run_len(s, i, c) == k - i,
    decreases k - i,
{
    if i < k {
        lemma_run_len(s, i + 1, k, c);
    }
}

} // verus!
