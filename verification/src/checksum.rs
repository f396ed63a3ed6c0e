//! Checksum engine: a CRC-16 in the CCITT-FALSE parameterization (16-bit
//! width, polynomial 0x1021, initial register 0xFFFF, no bit reflection, no
//! output xor) is computed over the UTF-8 bytes of the assembled payload and
//! rendered as four uppercase hexadecimal digits.

use vstd::prelude::*;
use vstd::string::*;

use crate::text::push_char;
use crate::Utils;

verus! {

/// The CRC-16 (polynomial 0x1021, initial value 0xFFFF, no reflection, no
/// output xor) of a byte sequence; a function of the bytes alone.
pub uninterp spec fn crc16_of(bytes: Seq<u8>) -> u16;

/// The uppercase hexadecimal digit character for `n % 16`.
pub open spec fn hex_digit_char(n: int) -> char {
    let v = n % 16;
    if v < 10 {
        ((v + 0x30) as u8) as char
    } else {
        ((v + 0x37) as u8) as char
    }
}

/// The four-character, zero-padded, uppercase hexadecimal rendering of a
/// 16-bit value, most significant digit first.
pub open spec fn crc_hex_spec(c: u16) -> Seq<char> {
    seq![
        hex_digit_char(c as int / 4096),
        hex_digit_char(c as int / 256),
        hex_digit_char(c as int / 16),
        hex_digit_char(c as int),
    ]
}

/// An uppercase hexadecimal digit character.
pub open spec fn is_upper_hex_char(c: char) -> bool {
    (0x30 <= c as u32 && c as u32 <= 0x39) || (0x41 <= c as u32 && c as u32 <= 0x46)
}

pub proof fn lemma_hex_digit_is_upper_hex(n: int)
    ensures
        is_upper_hex_char(hex_digit_char(n)),
{
}

/// Relies on `crc::Crc::<u16>::checksum` with the `crc::CRC_16_IBM_3740`
/// algorithm (width 16, polynomial 0x1021, initial value 0xFFFF, `refin` and
/// `refout` false, `xorout` 0): the checksum depends on the input bytes alone.
#[verifier::external_body]
fn crc16_ccitt_false(payload: &str) -> (r: u16)
    ensures
        r == crc16_of(payload.spec_bytes()),
{
    crc::Crc::<u16>::new(&crc::CRC_16_IBM_3740).checksum(payload.as_bytes())
}

/// Appends the uppercase hexadecimal digit character for `d`.
fn push_hex_digit(s: &mut String, d: u16)
    requires
        d < 16,
    ensures
        final(s)@ == old(s)@.push(hex_digit_char(d as int)),
{
    let c = if d < 10 {
        ((d as u8) + 0x30) as char
    } else {
        ((d as u8) + 0x37) as char
    };
    push_char(s, c);
}

impl Utils {
    /// Compute the CRC-16 checksum of the payload text and render it as four
    /// uppercase hexadecimal characters, zero-padded.
    pub fn calculate_precise_crc(payload: &str) -> (r: String)
        ensures
            r@ == crc_hex_spec(crc16_of(payload.spec_bytes())),
            r@.len() == 4,
            forall|i: int| 0 <= i < 4 ==> is_upper_hex_char(#[trigger] r@[i]),
    {
        let c = crc16_ccitt_false(payload);
        let mut s = String::new();
        push_hex_digit(&mut s, c / 4096);
        push_hex_digit(&mut s, (c / 256) % 16);
        push_hex_digit(&mut s, (c / 16) % 16);
        push_hex_digit(&mut s, c % 16);
        proof {
            assert(s@ =~= crc_hex_spec(c));
        }
        s
    }
}

} // verus!
