use promptpay::{ErrorKind, InputType, Utils};

#[test]
fn test_sanitize_phone_number_valid() {
    let input = "+66-812345678".to_string();
    let expected = "812345678".to_string();
    let result = Utils::sanitize_phone_number(input).unwrap();
    assert_eq!(result, expected);
}

#[test]
fn test_sanitize_phone_number_invalid() {
    let input = "+66-81234".to_string();
    let result = Utils::sanitize_phone_number(input);
    assert!(result.is_err());
    assert_eq!(result.err().unwrap().message, "Invalid phone number format");
}

#[test]
fn test_sanitize_national_id_valid() {
    let input = "1234567890123".to_string();
    let expected = "1234567890123".to_string();
    let result = Utils::sanitize_national_id(input).unwrap();
    assert_eq!(result, expected);
}

#[test]
fn test_sanitize_national_id_invalid() {
    let input = "1234-5678".to_string();
    let result = Utils::sanitize_national_id(input);
    assert!(result.is_err());
    assert_eq!(result.err().unwrap().message, "Invalid national ID format");
}

#[test]
fn test_calculate_precise_crc() {
    let payload = "00020101021129370016A000000677010111011300668123456785802TH53037645408";
    let crc = Utils::calculate_precise_crc(payload);
    assert_eq!(crc, "8242");
}

#[test]
fn test_generate_payload_phone_number() {
    let input = InputType::PhoneNumber("+66-812345678".to_string());
    let amount = 123.45;
    let amount_satang = (amount * 100.0_f64).round() as u64;
    let result = Utils::generate_payload(input, amount_satang).unwrap();
    assert!(result.contains("812345678"));
}

#[test]
fn test_generate_payload_national_id() {
    let input = InputType::NationalID("1234567890123".to_string());
    let amount = 123.45;
    let amount_satang = (amount * 100.0_f64).round() as u64;
    let result = Utils::generate_payload(input, amount_satang).unwrap();
    assert!(result.contains("1234567890123"));
}

#[test]
fn sanitize_phone_number_is_idempotent_on_its_output() {
    let once = Utils::sanitize_phone_number("+66-812345678".to_string()).unwrap();
    let twice = Utils::sanitize_phone_number(once.clone()).unwrap();
    assert_eq!(once, twice);
}

#[test]
fn sanitize_phone_number_keeps_interior_country_code_digits() {
    // The "66" removal is anchored to the start: a number that merely
    // contains the digits 66 elsewhere must not be corrupted.
    let result = Utils::sanitize_phone_number("0899660123".to_string()).unwrap();
    assert_eq!(result, "899660123");
}

#[test]
fn sanitize_phone_number_trims_whitespace_and_leading_zero() {
    let result = Utils::sanitize_phone_number("  0812345678  ".to_string()).unwrap();
    assert_eq!(result, "812345678");
}

#[test]
fn sanitize_phone_number_rejects_non_digit_content() {
    let result = Utils::sanitize_phone_number("+66-81234567x".to_string());
    let err = result.err().unwrap();
    assert_eq!(err.kind, ErrorKind::InvalidIdentifierFormat);
    assert_eq!(err.message, "Invalid phone number format");
}

#[test]
fn sanitize_phone_number_rejects_empty_input() {
    let result = Utils::sanitize_phone_number("".to_string());
    assert_eq!(result.err().unwrap().kind, ErrorKind::InvalidIdentifierFormat);
}

#[test]
fn sanitize_national_id_rejects_too_long_input() {
    let result = Utils::sanitize_national_id("12345678901234".to_string());
    assert_eq!(result.err().unwrap().kind, ErrorKind::InvalidIdentifierFormat);
}

#[test]
fn format_amount_zero_renders_all_zero_with_fraction() {
    let field = Utils::format_amount(0).unwrap();
    assert_eq!(field, "000000.00");
    assert!(field.ends_with(".00"));
}

#[test]
fn format_amount_renders_satang_exactly() {
    assert_eq!(Utils::format_amount(12345).unwrap(), "000123.45");
    assert_eq!(Utils::format_amount(7).unwrap(), "000000.07");
    assert_eq!(Utils::format_amount(99999999).unwrap(), "999999.99");
}

#[test]
fn format_amount_rejects_amount_over_field_width() {
    let result = Utils::format_amount(100000000);
    let err = result.err().unwrap();
    assert_eq!(err.kind, ErrorKind::InvalidAmount);
    assert_eq!(err.message, "Invalid amount");
}

#[test]
fn normalize_prefixes_proxy_type_markers() {
    let phone = InputType::PhoneNumber("+66-812345678".to_string());
    assert_eq!(Utils::normalize(phone).unwrap(), "01130066812345678");
    let natid = InputType::NationalID("1234567890123".to_string());
    assert_eq!(Utils::normalize(natid).unwrap(), "02131234567890123");
}

#[test]
fn assemble_concatenates_template_fields() {
    let payload = Utils::assemble("01130066812345678", "000123.45");
    assert_eq!(
        payload,
        "00020101021129370016A000000677010111011300668123456785802TH53037645409000123.456304"
    );
}

#[test]
fn generate_payload_has_fixed_length_and_hex_checksum() {
    let input = InputType::PhoneNumber("+66-812345678".to_string());
    let result = Utils::generate_payload(input, 12345).unwrap();
    assert_eq!(result.len(), 87);
    assert!(result.starts_with(
        "00020101021129370016A000000677010111011300668123456785802TH53037645409000123.456304"
    ));
    let checksum = &result[83..];
    assert_eq!(checksum.len(), 4);
    assert!(checksum
        .chars()
        .all(|c| c.is_ascii_digit() || ('A'..='F').contains(&c)));
    let expected = Utils::calculate_precise_crc(&result[..83]);
    assert_eq!(checksum, expected);
}

#[test]
fn generate_payload_rejects_short_national_id() {
    let input = InputType::NationalID("1234-5678".to_string());
    let result = Utils::generate_payload(input, 12345);
    let err = result.err().unwrap();
    assert_eq!(err.kind, ErrorKind::InvalidIdentifierFormat);
    assert_eq!(err.message, "Invalid national ID format");
}

#[test]
fn generate_payload_rejects_invalid_identifier_before_amount() {
    let input = InputType::NationalID("1234-5678".to_string());
    let result = Utils::generate_payload(input, 100000000);
    let err = result.err().unwrap();
    assert_eq!(err.kind, ErrorKind::InvalidIdentifierFormat);
}

#[test]
fn generate_payload_rejects_oversized_amount() {
    let input = InputType::PhoneNumber("+66-812345678".to_string());
    let result = Utils::generate_payload(input, 100000000);
    let err = result.err().unwrap();
    assert_eq!(err.kind, ErrorKind::InvalidAmount);
    assert_eq!(err.message, "Invalid amount");
}
