//! Payload assembly: the static template fields, the normalized identifier
//! field and the amount field are concatenated into the EMV-style
//! tag-length-value string, the checksum tag `6304` is left open, and the
//! CRC-16 checksum is appended as four uppercase hexadecimal digits.

use vstd::prelude::*;
use vstd::string::*;
use vstd::utf8::encode_utf8;

use crate::amount::{amount_field_spec, amount_ok};
use crate::checksum::{crc16_of, crc_hex_spec};
use crate::identifier::{natid_ok, phone_ok, sanitize_id_spec, sanitize_phone_spec};
use crate::{ErrorKind, InputType, PayloadError, Utils};

verus! {

/// The identifier field of the payload for a sanitized mobile number: the
/// proxy-type tag `01`, the length `13`, and the value `0066` followed by the
/// nine digits.
pub open spec fn phone_field_spec(digits: Seq<char>) -> Seq<char> {
    "01130066"@ + digits
}

/// The identifier field of the payload for a sanitized national ID: the
/// proxy-type tag `02`, the length `13`, and the thirteen digits.
pub open spec fn natid_field_spec(digits: Seq<char>) -> Seq<char> {
    "0213"@ + digits
}

/// The raw identifier sanitizes to a valid fixed-width digit string.
pub open spec fn input_ok(input: InputType) -> bool {
    match input {
        InputType::PhoneNumber(p) => phone_ok(p@),
        InputType::NationalID(i) => natid_ok(i@),
    }
}

/// The canonical identifier field produced by normalization.
pub open spec fn normalized_field_spec(input: InputType) -> Seq<char> {
    match input {
        InputType::PhoneNumber(p) => phone_field_spec(sanitize_phone_spec(p@)),
        InputType::NationalID(i) => natid_field_spec(sanitize_id_spec(i@)),
    }
}

/// The assembled payload before the checksum value: payload-format indicator,
/// point-of-initiation method, merchant account information block with the
/// application identifier and the identifier field, country code, currency
/// code, the amount field, and the open checksum tag and length `6304`.
pub open spec fn payload_prefix_spec(id_field: Seq<char>, amount_field: Seq<char>) -> Seq<char> {
    "00020101021129370016A000000677010111"@ + id_field + "5802TH53037645409"@ + amount_field
        + "6304"@
}

/// The complete payload: the assembled prefix followed by the four
/// hexadecimal characters of its own CRC-16 checksum.
pub open spec fn final_payload_spec(id_field: Seq<char>, amount_field: Seq<char>) -> Seq<char> {
    let prefix = payload_prefix_spec(id_field, amount_field);
    prefix + crc_hex_spec(crc16_of(encode_utf8(prefix)))
}

impl Utils {
    /// Sanitize the identifier and prefix it with its proxy-type marker,
    /// yielding the value of the merchant-account identifier field.
    pub fn normalize(input: InputType) -> (r: Result<String, PayloadError>)
        ensures
            r is Ok <==> input_ok(input),
            r is Ok ==> r.unwrap()@ == normalized_field_spec(input),
            r is Err ==> r.unwrap_err().kind == ErrorKind::InvalidIdentifierFormat
                && r.unwrap_err().message@ == (match input {
                InputType::PhoneNumber(_) => "Invalid phone number format"@,
                InputType::NationalID(_) => "Invalid national ID format"@,
            }),
    {
        match input {
            InputType::PhoneNumber(phone) => {
                let digits = match Utils::sanitize_phone_number(phone) {
                    Ok(d) => d,
                    Err(e) => {
                        return Err(e);
                    },
                };
                let mut field = String::from_str("01130066");
                field.append(digits.as_str());
                Ok(field)
            },
            InputType::NationalID(id) => {
                let digits = match Utils::sanitize_national_id(id) {
                    Ok(d) => d,
                    Err(e) => {
                        return Err(e);
                    },
                };
                let mut field = String::from_str("0213");
                field.append(digits.as_str());
                Ok(field)
            },
        }
    }

    /// Concatenate the static template fields with the normalized identifier
    /// field and the formatted amount, leaving the checksum tag open.
    pub fn assemble(normalized_identifier: &str, formatted_amount: &str) -> (r: String)
        ensures
            r@ == payload_prefix_spec(normalized_identifier@, formatted_amount@),
    {
        let mut payload = String::from_str("00020101021129370016A000000677010111");
        payload.append(normalized_identifier);
        payload.append("5802TH53037645409");
        payload.append(formatted_amount);
        payload.append("6304");
        proof {
            assert(payload@ =~= payload_prefix_spec(normalized_identifier@, formatted_amount@));
        }
        payload
    }

    /// Generate the complete PromptPay payload for the given identifier and
    /// an amount in satang: sanitize, format, assemble, then append the
    /// checksum. Fails on an invalid identifier before looking at the amount,
    /// and on an amount too large for the fixed-width field.
    pub fn generate_payload(input: InputType, amount_satang: u64) -> (r: Result<
        String,
        PayloadError,
    >)
        ensures
            r is Ok <==> input_ok(input) && amount_ok(amount_satang),
            r is Ok ==> r.unwrap()@ == final_payload_spec(
                normalized_field_spec(input),
                amount_field_spec(amount_satang),
            ),
            !input_ok(input) ==> r is Err && r.unwrap_err().kind
                == ErrorKind::InvalidIdentifierFormat && r.unwrap_err().message@ == (match input {
                InputType::PhoneNumber(_) => "Invalid phone number format"@,
                InputType::NationalID(_) => "Invalid national ID format"@,
            }),
            input_ok(input) && !amount_ok(amount_satang) ==> r is Err && r.unwrap_err().kind
                == ErrorKind::InvalidAmount && r.unwrap_err().message@ == "Invalid amount"@,
    {
        let formatted_id = match Utils::normalize(input) {
            Ok(f) => f,
            Err(e) => {
                return Err(e);
            },
        };
        let formatted_amount = match Utils::format_amount(amount_satang) {
            Ok(a) => a,
            Err(e) => {
                return Err(e);
            },
        };
        let payload = Utils::assemble(formatted_id.as_str(), formatted_amount.as_str());
        let crc = Utils::calculate_precise_crc(payload.as_str());
        let final_payload = payload.concat(crc.as_str());
        Ok(final_payload)
    }
}

} // verus!
