//! The scan of an address.

use vstd::prelude::*;

use crate::ascii::{check_printable, digit, letter};
use crate::error::ParseError;
use crate::rules::{
    at_index, domain_outcome, domain_part, email_outcome, is_atom_punct, label_at, label_outcome,
    label_scan, labels_from, lemma_run_len, local_outcome, local_part, local_scan, run_len,
    MAX_DOMAIN_PART, MAX_LABEL, MAX_LOCAL_PART,
};

verus! {

/// The characters of `s`, in order.
fn chars_of(s: &str) -> (v: Vec<char>)
    ensures
        v@ == s@,
{
    let mut v: Vec<char> = Vec::new();
    for c in it: s.chars()
        invariant
            v@ == it.seq().take(it.index() as int),
    {
        v.push(c);
    }
    v
}

/// The first position at or after `from` that holds `c`, or the length.
fn find_char(v: &Vec<char>, from: usize, c: char) -> (k: usize)
    requires
        from <= v.len(),
    ensures
        from <= k <= v.len(),
        k == from + run_len(v@, from as int, c),
        forall|j: int| from <= j < k ==> v@[j] != c,
        k < v.len() ==> v@[k as int] == c,
{
    let mut k = from;
    while k < v.len() && v[k] != c
        invariant
            from <= k <= v.len(),
            forall|j: int| from <= j < k ==> v@[j] != c,
        decreases v.len() - k,
    {
        k = k + 1;
    }
    proof {
        lemma_run_len(v@, from as int, k as int, c);
    }
    k
}

/// Whether `c` is one of the punctuation characters of an atom.
fn atom_punct(c: char) -> (r: bool)
    ensures
        r == is_atom_punct(c),
{
    c == '!' || c == '#' || c == '$' || c == '%' || c == '&' || c == '\'' || c == '*' || c == '+'
        || c == '-' || c == '/' || c == '=' || c == '?' || c == '^' || c == '_' || c == '`'
        || c == '{' || c == '|' || c == '}' || c == '~'
}

/// Checks the local part, the first `end` characters of `v`.
fn check_local(v: &Vec<char>, end: usize) -> (r: Result<(), ParseError>)
    requires
        end <= v.len(),
    ensures
        r == local_outcome(v@.subrange(0, end as int)),
{
    let ghost l = v@.subrange(0, end as int);
    if end > MAX_LOCAL_PART {
        return Err(ParseError::LocalTooLong);
    }
    if end > 0 && v[0] == '.' {
        return Err(ParseError::LocalStartPeriod);
    }
    if end > 0 && v[end - 1] == '.' {
        return Err(ParseError::LocalEndPeriod);
    }
    let mut last_period = false;
    let mut i: usize = 0;
    while i < end
        invariant
            i <= end <= v.len(),
            l == v@.subrange(0, end as int),
            local_outcome(l) == local_scan(l, 0),
            local_scan(l, 0) == local_scan(l, i as int),
            last_period == (i > 0 && l[i - 1] == '.'),
        decreases end - i,
    {
        let ch = v[i];
        assert(l[i as int] == ch);
        if letter(ch) || digit(ch) || atom_punct(ch) {
            last_period = false;
        } else if ch == '.' {
            if last_period {
                return Err(ParseError::ConsecutivePeriod);
            }
            last_period = true;
        } else {
            return Err(ParseError::WrongCharLocal(ch));
        }
        i = i + 1;
    }
    Ok(())
}

/// Checks the domain label that stands from `lo` to `hi` in `v`.
fn check_label(v: &Vec<char>, lo: usize, hi: usize) -> (r: Result<(), ParseError>)
    requires
        lo <= hi <= v.len(),
    ensures
        r == label_outcome(v@.subrange(lo as int, hi as int)),
{
    let ghost lab = v@.subrange(lo as int, hi as int);
    if hi == lo {
        return Err(ParseError::ConsecutivePeriod);
    }
    if hi - lo > MAX_LABEL {
        return Err(ParseError::LabelTooLong);
    }
    let mut j = lo;
    while j < hi
        invariant
            lo <= j <= hi <= v.len(),
            lo < hi && hi - lo <= MAX_LABEL,
            lab == v@.subrange(lo as int, hi as int),
            label_scan(lab, 0) == label_scan(lab, j - lo),
        decreases hi - j,
    {
        let ch = v[j];
        assert(lab[j - lo] == ch);
        if !(letter(ch) || digit(ch) || ch == '-') {
            return Err(ParseError::WrongCharDomain(ch));
        }
        j = j + 1;
    }
    let first = v[lo];
    let last = v[hi - 1];
    assert(lab[0] == first && lab.last() == last);
    if !letter(first) {
        return Err(ParseError::WrongStartLabel(first));
    }
    if !(letter(last) || digit(last)) {
        return Err(ParseError::WrongEndLabel(last));
    }
    Ok(())
}

/// Checks the domain part, the characters of `v` from `lo` on.
fn check_domain(v: &Vec<char>, lo: usize) -> (r: Result<(), ParseError>)
    requires
        lo <= v.len(),
    ensures
        r == domain_outcome(v@.subrange(lo as int, v.len() as int)),
{
    let n = v.len();
    let ghost d = v@.subrange(lo as int, n as int);
    if n - lo > MAX_DOMAIN_PART {
        return Err(ParseError::DomainTooLong);
    }
    if n > lo && v[lo] == '.' {
        return Err(ParseError::DomainStartPeriod);
    }
    if n > lo && v[n - 1] == '.' {
        return Err(ParseError::DomainEndPeriod);
    }
    let p = find_char(v, lo, '.');
    if p == n {
        assert(!d.contains('.'));
        return Err(ParseError::NoPeriodDomain);
    }
    assert(d[p - lo] == '.');
    let mut start = lo;
    let mut i = lo;
    while i < n
        invariant
            lo <= start <= i <= n == v.len(),
            d == v@.subrange(lo as int, n as int),
            domain_outcome(d) == labels_from(d, 0),
            labels_from(d, 0) == labels_from(d, start - lo),
            forall|j: int| start <= j < i ==> v@[j] != '.',
        decreases n - i,
    {
        if v[i] == '.' {
            proof {
                lemma_run_len(d, start - lo, i - lo, '.');
                assert(label_at(d, start - lo) =~= v@.subrange(start as int, i as int));
            }
            match check_label(v, start, i) {
                Err(e) => {
                    return Err(e);
                },
                Ok(()) => {},
            }
            start = i + 1;
        }
        i = i + 1;
    }
    proof {
        lemma_run_len(d, start - lo, n - lo, '.');
        assert(label_at(d, start - lo) =~= v@.subrange(start as int, n as int));
    }
    check_label(v, start, n)
}

/// Checks an address: `Ok(())` where it is well formed, else the first rule
/// that it breaks, in the order that `email_outcome` gives.
pub fn parse_email(address: &str) -> (r: Result<(), ParseError>)
    ensures
        r == email_outcome(address@),
{
    let v = chars_of(address);
    let n = v.len();
    if n > 0 && v[0] == '@' {
        return Err(ParseError::NoLocalPart);
    }
    if n > 0 && v[n - 1] == '@' {
        return Err(ParseError::NoDomainPart);
    }
    match check_printable(address) {
        Err(e) => {
            return Err(ParseError::from(e));
        },
        Ok(()) => {},
    }
    let k = find_char(&v, 0, '@');
    if k == n {
        return Err(ParseError::NoSignAt);
    }
    let k2 = find_char(&v, k + 1, '@');
    if k2 < n {
        return Err(ParseError::TooAt);
    }
    match check_local(&v, k) {
        Err(e) => {
            return Err(e);
        },
        Ok(()) => {},
    }
    check_domain(&v, k + 1)
}

/// Whether an address is well formed.
pub fn is_valid_email(address: &str) -> (r: bool)
    ensures
        r == email_outcome(address@) is Ok,
{
    parse_email(address).is_ok()
}

} // verus!
