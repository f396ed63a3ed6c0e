//! Identifier sanitization: a raw mobile number or national ID is cleaned and
//! validated into a canonical fixed-width digit string.
//!
//! A mobile number is trimmed, stripped of `'-'` and `'+'` characters, has a
//! leading country-code prefix `"66"` removed (anchored at the start, never an
//! interior occurrence), then leading zeros; the result must be exactly nine
//! digits. A national ID is trimmed and stripped of `'-'` characters and must
//! be exactly thirteen digits.

use vstd::prelude::*;
use vstd::string::*;

use crate::text::{
    all_digits, check_all_digits, drop_leading_zeros, lemma_drop_leading_zeros_skip, push_char,
    trim_spec, trim_str,
};
use crate::{ErrorKind, PayloadError, Utils};

verus! {

/// Characters removed from anywhere inside a raw mobile number.
pub open spec fn is_phone_punct(c: char) -> bool {
    c == '-' || c == '+'
}

/// `s` with every `'-'` and `'+'` removed.
pub open spec fn strip_phone_punct(s: Seq<char>) -> Seq<char> {
    s.filter(|c: char| !is_phone_punct(c))
}

/// `s` with every `'-'` removed.
pub open spec fn strip_dashes(s: Seq<char>) -> Seq<char> {
    s.filter(|c: char| c != '-')
}

/// `s` with a single leading `"66"` country-code prefix removed.
pub open spec fn drop_country_code(s: Seq<char>) -> Seq<char> {
    if s.len() >= 2 && s[0] == '6' && s[1] == '6' {
        s.skip(2)
    } else {
        s
    }
}

/// The complete sanitization pipeline for a raw mobile number.
pub open spec fn sanitize_phone_spec(s: Seq<char>) -> Seq<char> {
    drop_leading_zeros(drop_country_code(strip_phone_punct(trim_spec(s))))
}

/// A sanitized mobile number is valid when it is exactly nine digits.
pub open spec fn phone_valid(d: Seq<char>) -> bool {
    d.len() == 9 && all_digits(d)
}

/// The raw mobile number `s` sanitizes to a valid nine-digit number.
pub open spec fn phone_ok(s: Seq<char>) -> bool {
    phone_valid(sanitize_phone_spec(s))
}

/// The complete sanitization pipeline for a raw national ID.
pub open spec fn sanitize_id_spec(s: Seq<char>) -> Seq<char> {
    strip_dashes(trim_spec(s))
}

/// A sanitized national ID is valid when it is exactly thirteen digits.
pub open spec fn natid_valid(d: Seq<char>) -> bool {
    d.len() == 13 && all_digits(d)
}

/// The raw national ID `s` sanitizes to a valid thirteen-digit ID.
pub open spec fn natid_ok(s: Seq<char>) -> bool {
    natid_valid(sanitize_id_spec(s))
}

/// Copies the characters of `s` that are not `'-'` or `'+'` into a new string.
fn strip_phone_punct_exec(s: &str) -> (r: String)
    ensures
        r@ == strip_phone_punct(s@),
{
    let n = s.unicode_len();
    let mut out = String::new();
    let mut i: usize = 0;
    while i < n
        invariant
            i <= n,
            n == s@.len(),
            out@ == strip_phone_punct(s@.subrange(0, i as int)),
        decreases n - i,
    {
        let c = s.get_char(i);
        proof {
            reveal(Seq::filter);
            assert(s@.subrange(0, i + 1 as int).drop_last() =~= s@.subrange(0, i as int));
            assert(s@.subrange(0, i + 1 as int).last() == c);
        }
        if !(c == '-' || c == '+') {
            push_char(&mut out, c);
        }
        i = i + 1;
    }
    proof {
        assert(s@.subrange(0, n as int) =~= s@);
    }
    out
}

/// Copies the characters of `s` that are not `'-'` into a new string.
fn strip_dashes_exec(s: &str) -> (r: String)
    ensures
        r@ == strip_dashes(s@),
{
    let n = s.unicode_len();
    let mut out = String::new();
    let mut i: usize = 0;
    while i < n
        invariant
            i <= n,
            n == s@.len(),
            out@ == strip_dashes(s@.subrange(0, i as int)),
        decreases n - i,
    {
        let c = s.get_char(i);
        proof {
            reveal(Seq::filter);
            assert(s@.subrange(0, i + 1 as int).drop_last() =~= s@.subrange(0, i as int));
            assert(s@.subrange(0, i + 1 as int).last() == c);
        }
        if !(c == '-') {
            push_char(&mut out, c);
        }
        i = i + 1;
    }
    proof {
        assert(s@.subrange(0, n as int) =~= s@);
    }
    out
}

fn invalid_phone_error() -> (e: PayloadError)
    ensures
        e.kind == ErrorKind::InvalidIdentifierFormat,
        e.message@ == "Invalid phone number format"@,
{
    PayloadError {
        kind: ErrorKind::InvalidIdentifierFormat,
        message: String::from_str("Invalid phone number format"),
    }
}

fn invalid_natid_error() -> (e: PayloadError)
    ensures
        e.kind == ErrorKind::InvalidIdentifierFormat,
        e.message@ == "Invalid national ID format"@,
{
    PayloadError {
        kind: ErrorKind::InvalidIdentifierFormat,
        message: String::from_str("Invalid national ID format"),
    }
}

impl Utils {
    /// Sanitize a raw mobile number into its canonical nine-digit form, or
    /// fail when the cleaned text is not exactly nine digits.
    pub fn sanitize_phone_number(phone_number: String) -> (r: Result<String, PayloadError>)
        ensures
            r is Ok <==> phone_ok(phone_number@),
            r is Ok ==> r.unwrap()@ == sanitize_phone_spec(phone_number@),
            r is Err ==> r.unwrap_err().kind == ErrorKind::InvalidIdentifierFormat
                && r.unwrap_err().message@ == "Invalid phone number format"@,
    {
        let trimmed = trim_str(phone_number.as_str());
        let stripped = strip_phone_punct_exec(trimmed);
        let n = stripped.as_str().unicode_len();
        let has_cc = n >= 2 && stripped.as_str().get_char(0) == '6' && stripped.as_str().get_char(
            1,
        ) == '6';
        let after_cc: &str = if has_cc {
            stripped.as_str().substring_char(2, n)
        } else {
            stripped.as_str()
        };
        proof {
            if has_cc {
                assert(after_cc@ =~= drop_country_code(stripped@));
            }
        }
        let m = after_cc.unicode_len();
        let mut k: usize = 0;
        while k < m && after_cc.get_char(k) == '0'
            invariant
                k <= m,
                m == after_cc@.len(),
                forall|i: int| 0 <= i < k ==> #[trigger] after_cc@[i] == '0',
            decreases m - k,
        {
            k = k + 1;
        }
        let digits = after_cc.substring_char(k, m);
        proof {
            lemma_drop_leading_zeros_skip(after_cc@, k as int);
            assert(after_cc@.skip(k as int) =~= after_cc@.subrange(k as int, m as int));
        }
        if digits.unicode_len() != 9 || !check_all_digits(digits) {
            return Err(invalid_phone_error());
        }
        Ok(String::from_str(digits))
    }

    /// Sanitize a raw national ID into its canonical thirteen-digit form, or
    /// fail when the cleaned text is not exactly thirteen digits.
    pub fn sanitize_national_id(national_id: String) -> (r: Result<String, PayloadError>)
        ensures
            r is Ok <==> natid_ok(national_id@),
            r is Ok ==> r.unwrap()@ == sanitize_id_spec(national_id@),
            r is Err ==> r.unwrap_err().kind == ErrorKind::InvalidIdentifierFormat
                && r.unwrap_err().message@ == "Invalid national ID format"@,
    {
        let trimmed = trim_str(national_id.as_str());
        let stripped = strip_dashes_exec(trimmed);
        if stripped.as_str().unicode_len() != 13 || !check_all_digits(stripped.as_str()) {
            return Err(invalid_natid_error());
        }
        Ok(stripped)
    }
}

} // verus!
