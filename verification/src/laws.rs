//! Properties that relate the pipeline's stages to one another, stated and
//! proved over the same specification functions the contracts use.

use vstd::prelude::*;
use vstd::utf8::encode_utf8;

use crate::amount::{amount_field_spec, amount_ok};
use crate::checksum::{
    crc16_of, hex_digit_char, is_upper_hex_char, lemma_hex_digit_is_upper_hex,
};
use crate::identifier::{
    drop_country_code, is_phone_punct, phone_ok, sanitize_phone_spec, strip_phone_punct,
};
use crate::payload::{final_payload_spec, input_ok, normalized_field_spec, payload_prefix_spec};
use crate::text::{
    all_digits, drop_leading_zeros, lemma_drop_leading_spaces_skip, lemma_drop_leading_zeros_head,
    lemma_drop_trailing_spaces_take, trim_spec,
};
use crate::InputType;

verus! {

/// Filtering out phone punctuation leaves a sequence without any unchanged.
proof fn lemma_strip_phone_punct_all_kept(s: Seq<char>)
    requires
        forall|i: int| 0 <= i < s.len() ==> !is_phone_punct(#[trigger] s[i]),
    ensures
        strip_phone_punct(s) == s,
    decreases s.len(),
{
    reveal(Seq::filter);
    if s.len() == 0 {
        assert(strip_phone_punct(s) =~= s);
    } else {
        lemma_strip_phone_punct_all_kept(s.drop_last());
        assert(strip_phone_punct(s) =~= s);
    }
}

/// A plain digit string that neither starts with `'0'` nor with the country
/// code `"66"` passes through the whole phone sanitization pipeline unchanged.
proof fn lemma_sanitize_phone_fixed(d: Seq<char>)
    requires
        all_digits(d),
        d.len() > 0 ==> d[0] != '0',
        !(d.len() >= 2 && d[0] == '6' && d[1] == '6'),
    ensures
        sanitize_phone_spec(d) == d,
{
    lemma_drop_leading_spaces_skip(d, 0);
    assert(d.skip(0) =~= d);
    lemma_drop_trailing_spaces_take(d, d.len() as int);
    assert(d.take(d.len() as int) =~= d);
    assert(trim_spec(d) == d);
    lemma_strip_phone_punct_all_kept(d);
    assert(drop_country_code(d) == d);
    assert(drop_leading_zeros(d) == d);
}

/// Sanitizing a mobile number is idempotent: re-applying the pipeline to the
/// nine digits it produced returns them unchanged. The digits never start
/// with `'0'` (leading zeros were dropped), but a sanitized number that
/// itself begins with the country code `"66"` would lose that prefix to the
/// anchored country-code removal, so such results are excluded.
pub proof fn lemma_sanitize_phone_idempotent(s: Seq<char>)
    requires
        phone_ok(s),
        !(sanitize_phone_spec(s)[0] == '6' && sanitize_phone_spec(s)[1] == '6'),
    ensures
        sanitize_phone_spec(sanitize_phone_spec(s)) == sanitize_phone_spec(s),
        phone_ok(sanitize_phone_spec(s)),
{
    let d = sanitize_phone_spec(s);
    lemma_drop_leading_zeros_head(drop_country_code(strip_phone_punct(trim_spec(s))));
    assert(d[0] != '0');
    lemma_sanitize_phone_fixed(d);
}

/// Every payload generated from a valid identifier and amount has the fixed
/// total length, ends with exactly four uppercase hexadecimal checksum
/// characters, and carries the sanitized identifier digits verbatim at the
/// identifier field's fixed offset.
pub proof fn lemma_final_payload_structure(input: InputType, amount_satang: u64)
    requires
        input_ok(input),
        amount_ok(amount_satang),
    ensures
        ({
            let digits = match input {
                InputType::PhoneNumber(p) => sanitize_phone_spec(p@),
                InputType::NationalID(i) => crate::identifier::sanitize_id_spec(i@),
            };
            let off: int = match input {
                InputType::PhoneNumber(_) => 44,
                InputType::NationalID(_) => 40,
            };
            let p = final_payload_spec(
                normalized_field_spec(input),
                amount_field_spec(amount_satang),
            );
            &&& p.len() == 87
            &&& forall|i: int| 83 <= i < 87 ==> is_upper_hex_char(#[trigger] p[i])
            &&& p.subrange(off, off + digits.len()) == digits
        }),
{
    reveal_strlit("00020101021129370016A000000677010111");
    reveal_strlit("5802TH53037645409");
    reveal_strlit("6304");
    reveal_strlit("01130066");
    reveal_strlit("0213");
    let id_field = normalized_field_spec(input);
    let amount_field = amount_field_spec(amount_satang);
    let prefix = payload_prefix_spec(id_field, amount_field);
    let c = crc16_of(encode_utf8(prefix));
    let p = final_payload_spec(id_field, amount_field);
    assert(id_field.len() == 17);
    assert(prefix.len() == 83);
    assert(p.len() == 87);
    lemma_hex_digit_is_upper_hex(c as int / 4096);
    lemma_hex_digit_is_upper_hex(c as int / 256);
    lemma_hex_digit_is_upper_hex(c as int / 16);
    lemma_hex_digit_is_upper_hex(c as int);
    assert(p[83] == hex_digit_char(c as int / 4096));
    assert(p[84] == hex_digit_char(c as int / 256));
    assert(p[85] == hex_digit_char(c as int / 16));
    assert(p[86] == hex_digit_char(c as int));
    match input {
        InputType::PhoneNumber(raw) => {
            let digits = sanitize_phone_spec(raw@);
            assert(p.subrange(44, 44 + digits.len() as int) =~= digits);
        },
        InputType::NationalID(raw) => {
            let digits = crate::identifier::sanitize_id_spec(raw@);
            assert(p.subrange(40, 40 + digits.len() as int) =~= digits);
        },
    }
}

} // verus!
