//! Generation of PromptPay QR payment payloads.
//!
//! The crate turns a payee identifier (a Thai mobile number or a national ID)
//! and a transfer amount into the fixed tag-length-value text payload used by
//! the PromptPay instant-payment scheme, terminated by a CRC-16 checksum.

use vstd::prelude::*;

pub mod amount;
pub mod checksum;
pub mod identifier;
pub mod laws;
pub mod payload;
pub mod text;

verus! {

/// The kinds of failure the payload pipeline can report.
#[derive(Clone, Copy, Debug, PartialEq, Eq, Structural)]
pub enum ErrorKind {
    /// The identifier has the wrong length or non-digit content after sanitization.
    InvalidIdentifierFormat,
    /// The amount is out of the range the fixed-width amount field can carry.
    InvalidAmount,
}

/// A typed failure together with the human-readable reason the caller is
/// expected to surface.
#[derive(Debug)]
pub struct PayloadError {
    pub kind: ErrorKind,
    pub message: String,
}

/// The payee identifier: a mobile number or a national ID, as raw text.
pub enum InputType {
    PhoneNumber(String),
    NationalID(String),
}

/// Stateless entry points of the payload pipeline.
pub struct Utils;

} // verus!
