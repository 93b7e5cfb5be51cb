//! The settings of the service in their flat form, one value per environment
//! variable.

use vstd::prelude::*;

verus! {

/// Whether the character is a decimal digit.
pub open spec fn is_digit(c: char) -> bool {
    48 <= c as u32 <= 57
}

/// The number that a run of decimal digits denotes; the empty run denotes 0.
pub open spec fn digits_value(digits: Seq<char>) -> nat
    decreases digits.len(),
{
    if digits.len() == 0 {
        0
    } else {
        digits_value(digits.drop_last()) * 10 + (digits.last() as u32 - 48) as nat
    }
}

/// The number that a text is read as: an optional plus sign, then at least one
/// decimal digit and nothing else, denoting a number that a `u64` holds.
/// Every other text is read as none.
pub open spec fn parsed_u64(s: Seq<char>) -> Option<u64> {
    let digits = if s.len() > 0 && s[0] == '+' {
        s.skip(1)
    } else {
        s
    };
    if digits.len() > 0 && (forall|i: int| 0 <= i < digits.len() ==> is_digit(#[trigger] digits[i]))
        && digits_value(digits) <= u64::MAX {
        Some(digits_value(digits) as u64)
    } else {
        None
    }
}

/// Calls `str::parse::<u64>`. Claimed: it reads a number exactly from the
/// texts that its documentation admits, an optional plus sign followed by
/// digits only, and fails on every other text and on a number too large.
#[verifier::external_body]
fn parse_u64(s: &str) -> (r: Option<u64>)
    ensures
        r == parsed_u64(s@),
{
    s.parse::<u64>().ok()
}

/// The settings of the service.
#[derive(Debug, Clone)]
pub struct Config {
    pub database_url: String,
    pub aws_region: String,
    pub s3_input_bucket: String,
    pub s3_upload_url_expiry_secs: u64,
    pub s3_max_upload_size_bytes: u64,
    pub sqs_media_queue_url: String,
    pub sqs_media_dlq_url: String,
    pub cloudfront_domain: String,
    pub cloudfront_key_pair_id: String,
    pub cloudfront_private_key_pem: String,
    pub cloudfront_signed_url_expiry_secs: u64,
}

/// How long an upload URL is valid where nothing else is set, in seconds.
pub const DEFAULT_UPLOAD_URL_EXPIRY_SECS: u64 = 300;

/// The largest upload that is accepted where nothing else is set, in bytes.
pub const DEFAULT_MAX_UPLOAD_SIZE_BYTES: u64 = 10_485_760;

/// How long a signed read URL is valid where nothing else is set, in seconds.
pub const DEFAULT_SIGNED_URL_EXPIRY_SECS: u64 = 600;

/// The value of an optional numeric setting: the default where the variable
/// is not set, the number it holds where it is, and `None` where it holds
/// something else.
pub fn optional_u64(raw: Option<&str>, default: u64) -> (r: Option<u64>)
    ensures
        r == match raw {
            None => Some(default),
            Some(text) => parsed_u64(text@),
        },
{
    match raw {
        None => Some(default),
        Some(text) => parse_u64(text),
    }
}

} // verus!
