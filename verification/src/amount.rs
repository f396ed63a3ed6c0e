//! Amount formatting: a non-negative amount given in satang (the minor
//! currency unit, one hundredth of a baht) is rendered as the fixed
//! nine-character field of the payload: six zero-padded integer digits, a
//! decimal point, and two fraction digits.

use vstd::prelude::*;
use vstd::string::*;

use crate::text::push_char;
use crate::{ErrorKind, PayloadError, Utils};

verus! {

/// The largest amount the nine-character field can carry: 999999.99 baht.
pub const MAX_AMOUNT_SATANG: u64 = 99999999;

/// The decimal digit character for `n % 10`.
pub open spec fn dec_digit_char(n: int) -> char {
    (((n % 10) + 0x30) as u8) as char
}

/// The amount fits the fixed nine-character field.
pub open spec fn amount_ok(amount_satang: u64) -> bool {
    amount_satang <= MAX_AMOUNT_SATANG
}

/// The nine-character amount field for an amount in satang.
pub open spec fn amount_field_spec(amount_satang: u64) -> Seq<char> {
    let baht = amount_satang as int / 100;
    let satang = amount_satang as int % 100;
    seq![
        dec_digit_char(baht / 100000),
        dec_digit_char(baht / 10000),
        dec_digit_char(baht / 1000),
        dec_digit_char(baht / 100),
        dec_digit_char(baht / 10),
        dec_digit_char(baht),
        '.',
        dec_digit_char(satang / 10),
        dec_digit_char(satang),
    ]
}

/// Appends the decimal digit character for `d`.
fn push_dec_digit(s: &mut String, d: u64)
    requires
        d < 10,
    ensures
        final(s)@ == old(s)@.push(dec_digit_char(d as int)),
{
    let c = ((d as u8) + 0x30) as char;
    push_char(s, c);
}

fn invalid_amount_error() -> (e: PayloadError)
    ensures
        e.kind == ErrorKind::InvalidAmount,
        e.message@ == "Invalid amount"@,
{
    PayloadError { kind: ErrorKind::InvalidAmount, message: String::from_str("Invalid amount") }
}

impl Utils {
    /// Render an amount in satang as the fixed nine-character amount field,
    /// or fail when the amount is too large for the field.
    pub fn format_amount(amount_satang: u64) -> (r: Result<String, PayloadError>)
        ensures
            r is Ok <==> amount_ok(amount_satang),
            r is Ok ==> r.unwrap()@ == amount_field_spec(amount_satang),
            r is Err ==> r.unwrap_err().kind == ErrorKind::InvalidAmount && r.unwrap_err().message@
                == "Invalid amount"@,
    {
        if amount_satang > MAX_AMOUNT_SATANG {
            return Err(invalid_amount_error());
        }
        let baht = amount_satang / 100;
        let satang = amount_satang % 100;
        let mut s = String::new();
        push_dec_digit(&mut s, (baht / 100000) % 10);
        push_dec_digit(&mut s, (baht / 10000) % 10);
        push_dec_digit(&mut s, (baht / 1000) % 10);
        push_dec_digit(&mut s, (baht / 100) % 10);
        push_dec_digit(&mut s, (baht / 10) % 10);
        push_dec_digit(&mut s, baht % 10);
        push_char(&mut s, '.');
        push_dec_digit(&mut s, satang / 10);
        push_dec_digit(&mut s, satang % 10);
        proof {
            assert(s@ =~= amount_field_spec(amount_satang));
        }
        Ok(s)
    }
}

} // verus!
