//! What holds of every address, proved from the rules.

use vstd::prelude::*;

use crate::ascii::{is_digit, is_letter, printable_outcome};
use crate::error::ParseError;
use crate::rules::{
    at_index, domain_part, email_outcome, is_atom_char, is_ldh, label_at, label_outcome,
    label_scan, labels_from, local_outcome, local_part, local_scan, run_len, MAX_LABEL,
};

verus! {

/// The run of characters from `from` ends at the first `c`, which stands no
/// later than any `c` at or after `from`.
pub proof fn lemma_run_len_stops(s: Seq<char>, from: int, i: int, c: char)
    requires
        0 <= from <= i < s.len(),
        s[i] == c,
    ensures
        from + run_len(s, from, c) <= i,
        s[from + run_len(s, from, c)] == c,
    decreases i - from,
{
    if s[from] != c {
        lemma_run_len_stops(s, from + 1, i, c);
    }
}

/// Checking is a function of the characters alone: the same address checked
/// twice gives the same result.
pub proof fn lemma_check_is_deterministic(a: &str, b: &str)
    requires
        a@ == b@,
    ensures
        email_outcome(a@) == email_outcome(b@),
{
}

/// An address that starts with `@` has no local part.
pub proof fn lemma_leading_at(s: Seq<char>)
    requires
        s.len() > 0,
        s[0] == '@',
    ensures
        email_outcome(s) == Err::<(), ParseError>(ParseError::NoLocalPart),
{
}

/// An address that ends with `@`, and does not start with one, has no domain part.
pub proof fn lemma_trailing_at(s: Seq<char>)
    requires
        s.len() > 0,
        s.last() == '@',
        s[0] != '@',
    ensures
        email_outcome(s) == Err::<(), ParseError>(ParseError::NoDomainPart),
{
}

/// A printable address without `@` lacks the at sign.
pub proof fn lemma_no_at(s: Seq<char>)
    requires
        printable_outcome(s) is Ok,
        !s.contains('@'),
    ensures
        email_outcome(s) == Err::<(), ParseError>(ParseError::NoSignAt),
{
    if s.len() > 0 {
        assert(s[0] != '@');
        assert(s[s.len() - 1] != '@');
    }
    crate::rules::lemma_run_len(s, 0, s.len() as int, '@');
}

/// A printable address with two `@` or more, at neither end, has too many.
pub proof fn lemma_two_ats(s: Seq<char>, i: int, j: int)
    requires
        printable_outcome(s) is Ok,
        0 <= i < j < s.len(),
        s[i] == '@',
        s[j] == '@',
        s[0] != '@',
        s.last() != '@',
    ensures
        email_outcome(s) == Err::<(), ParseError>(ParseError::TooAt),
{
    lemma_run_len_stops(s, 0, i, '@');
    let k = at_index(s);
    lemma_run_len_stops(s, k + 1, j, '@');
}

/// The scan of a local part from `i` succeeds exactly where every character
/// from `i` on is an atom character or a period that does not follow a period.
pub proof fn lemma_local_scan(l: Seq<char>, i: int)
    requires
        0 <= i <= l.len(),
    ensures
        local_scan(l, i) is Ok <==> forall|j: int|
            i <= j < l.len() ==> is_atom_char(#[trigger] l[j]) || (l[j] == '.' && !(j > 0 && l[j
                - 1] == '.')),
    decreases l.len() - i,
{
    if i < l.len() {
        lemma_local_scan(l, i + 1);
    }
}

/// In a valid address the local part is not empty, holds at most 64 octets,
/// neither starts nor ends with a period, holds no two periods in a row, and
/// holds only atom characters and periods.
pub proof fn lemma_valid_local_part(s: Seq<char>)
    requires
        email_outcome(s) is Ok,
    ensures
        0 < local_part(s).len() <= crate::rules::MAX_LOCAL_PART,
        local_part(s)[0] != '.',
        local_part(s).last() != '.',
        forall|j: int|
            0 <= j < local_part(s).len() - 1 ==> !(#[trigger] local_part(s)[j] == '.'
                && local_part(s)[j + 1] == '.'),
        forall|j: int|
            0 <= j < local_part(s).len() ==> is_atom_char(#[trigger] local_part(s)[j])
                || local_part(s)[j] == '.',
{
    let l = local_part(s);
    lemma_local_scan(l, 0);
    assert forall|j: int| 0 <= j < l.len() - 1 implies !(#[trigger] l[j] == '.' && l[j + 1] == '.') by {
        if l[j] == '.' && l[j + 1] == '.' {
            assert(is_atom_char(l[j + 1]) || (l[j + 1] == '.' && !(j + 1 > 0 && l[j] == '.')));
        }
    }
}

/// A domain label that passes its checks: 1 to 63 octets of letters, digits
/// and hyphens, starting with a letter and ending with a letter or digit.
pub open spec fn is_valid_label(lab: Seq<char>) -> bool {
    &&& 1 <= lab.len() <= MAX_LABEL
    &&& is_letter(lab[0])
    &&& is_letter(lab.last()) || is_digit(lab.last())
    &&& forall|j: int| 0 <= j < lab.len() ==> is_ldh(#[trigger] lab[j])
}

/// The scan of a label from `i` succeeds exactly where every character from
/// `i` on is a letter, a digit or a hyphen.
pub proof fn lemma_label_scan(lab: Seq<char>, i: int)
    requires
        0 <= i <= lab.len(),
    ensures
        label_scan(lab, i) is Ok <==> forall|j: int| i <= j < lab.len() ==> is_ldh(#[trigger] lab[j]),
    decreases lab.len() - i,
{
    if i < lab.len() {
        lemma_label_scan(lab, i + 1);
    }
}

/// A label passes its checks exactly when it is a valid label.
pub proof fn lemma_label_rules(lab: Seq<char>)
    ensures
        label_outcome(lab) is Ok <==> is_valid_label(lab),
{
    lemma_label_scan(lab, 0);
}

/// Where the labels from `i` on pass, so does every label that starts at or
/// after `i`.
proof fn lemma_labels_from_ok(d: Seq<char>, i: int, p: int)
    requires
        0 <= i <= p <= d.len(),
        labels_from(d, i) is Ok,
        p == i || d[p - 1] == '.',
    ensures
        label_outcome(label_at(d, p)) is Ok,
    decreases d.len() - i,
{
    if p > i {
        lemma_run_len_stops(d, i, p - 1, '.');
        let j = i + run_len(d, i, '.');
        lemma_labels_from_ok(d, j + 1, p);
    }
}

/// In a valid address every label of the domain part, the one at its start
/// and each one after a period, is a valid label.
pub proof fn lemma_valid_domain_labels(s: Seq<char>)
    requires
        email_outcome(s) is Ok,
    ensures
        forall|p: int|
            0 <= p <= domain_part(s).len() && (p == 0 || domain_part(s)[p - 1] == '.')
                ==> is_valid_label(#[trigger] label_at(domain_part(s), p)),
{
    let d = domain_part(s);
    assert forall|p: int| 0 <= p <= d.len() && (p == 0 || d[p - 1] == '.') implies is_valid_label(
        #[trigger] label_at(d, p),
    ) by {
        lemma_labels_from_ok(d, 0, p);
        lemma_label_rules(label_at(d, p));
    }
}

} // verus!
