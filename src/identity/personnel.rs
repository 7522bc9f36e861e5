//! Personnel numbers as the login form writes them.
use vstd::prelude::*;
use vstd::string::StrSliceExecFns;
use crate::errors::AuthError;

verus! {

/// The character is an ASCII decimal digit.
pub open spec fn is_digit(c: char) -> bool {
    48 <= (c as u32) && (c as u32) <= 57
}

/// The value of a string of decimal digits, most significant first.
pub open spec fn decimal_value(s: Seq<char>) -> int
    decreases s.len(),
{
    if s.len() == 0 {
        0
    } else {
        decimal_value(s.drop_last()) * 10 + ((s.last() as u32) - 48)
    }
}

/// The length of the sign that a number's text starts with: 0 or 1.
pub open spec fn sign_len(text: Seq<char>) -> int {
    if text.len() > 0 && (text[0] == '-' || text[0] == '+') {
        1
    } else {
        0
    }
}

/// The personnel number that a text writes in decimal: an optional `+` or `-`,
/// then at least one digit, with a value that fits in 16 signed bits.
pub open spec fn personnel_nr_of(text: Seq<char>) -> Option<i16> {
    let negative = text.len() > 0 && text[0] == '-';
    let digits = text.subrange(sign_len(text), text.len() as int);
    if digits.len() > 0 && (forall|i: int| 0 <= i < digits.len() ==> is_digit(#[trigger] digits[i])) {
        let v = if negative {
            -decimal_value(digits)
        } else {
            decimal_value(digits)
        };
        if -32768 <= v <= 32767 {
            Some(v as i16)
        } else {
            None
        }
    } else {
        None
    }
}

proof fn lemma_decimal_prefix(s: Seq<char>, k: int)
    requires
        0 <= k <= s.len(),
        forall|i: int| 0 <= i < s.len() ==> is_digit(#[trigger] s[i]),
    ensures
        0 <= decimal_value(s.subrange(0, k)) <= decimal_value(s),
    decreases s.len(),
{
    if s.len() > 0 {
        let init = s.drop_last();
        assert(forall|i: int| 0 <= i < init.len() ==> init[i] == s[i]);
        if k == s.len() {
            assert(s.subrange(0, k) =~= s);
            lemma_decimal_prefix(init, init.len() as int);
            assert(init.subrange(0, init.len() as int) =~= init);
        } else {
            lemma_decimal_prefix(init, k);
            assert(init.subrange(0, k) =~= s.subrange(0, k));
            lemma_decimal_prefix(init, init.len() as int);
            assert(init.subrange(0, init.len() as int) =~= init);
        }
    } else {
        assert(s.subrange(0, k) =~= s);
    }
}

/// Reads a personnel number written in decimal, as the login form sends it.
pub fn parse_personnel_nr(text: &str) -> (r: Result<i16, AuthError>)
    ensures
        r == (match personnel_nr_of(text@) {
            Some(v) => Ok::<i16, AuthError>(v),
            None => Err(AuthError::MalformedPersonnelNumber),
        }),
{
    let n = text.unicode_len();
    let mut start: usize = 0;
    let mut negative = false;
    if n > 0 {
        let c = text.get_char(0);
        if c == '-' {
            negative = true;
            start = 1;
        } else if c == '+' {
            start = 1;
        }
    }
    let ghost digits = text@.subrange(start as int, n as int);
    if start == n {
        return Err(AuthError::MalformedPersonnelNumber);
    }
    let mut acc: i64 = 0;
    let mut i: usize = start;
    while i < n
        invariant
            n == text@.len(),
            start <= i <= n,
            start < n,
            digits == text@.subrange(start as int, n as int),
            negative == (text@[0] == '-'),
            start == sign_len(text@),
            forall|j: int| start <= j < i ==> is_digit(#[trigger] text@[j]),
            acc == decimal_value(text@.subrange(start as int, i as int)),
            0 <= acc <= 32768,
        decreases n - i,
    {
        let c = text.get_char(i);
        let d = c as u32;
        if d < 48 || d > 57 {
            assert(!is_digit(digits[i - start]));
            return Err(AuthError::MalformedPersonnelNumber);
        }
        let ghost prev = text@.subrange(start as int, i as int);
        let ghost next = text@.subrange(start as int, i + 1);
        assert(next.drop_last() =~= prev);
        acc = acc * 10 + (d as i64 - 48);
        i = i + 1;
        if acc > 32768 {
            proof {
                if forall|j: int| 0 <= j < digits.len() ==> is_digit(#[trigger] digits[j]) {
                    lemma_decimal_prefix(digits, i - start);
                    assert(digits.subrange(0, i - start) =~= next);
                }
            }
            return Err(AuthError::MalformedPersonnelNumber);
        }
    }
    assert(text@.subrange(start as int, n as int) =~= digits);
    assert(forall|j: int| 0 <= j < digits.len() ==> is_digit(#[trigger] digits[j])) by {
        assert(forall|j: int| 0 <= j < digits.len() ==> digits[j] == text@[j + start]);
    }
    if negative {
        Ok((-acc) as i16)
    } else if acc > 32767 {
        Err(AuthError::MalformedPersonnelNumber)
    } else {
        Ok(acc as i16)
    }
}

} // verus!
