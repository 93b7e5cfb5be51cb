//! Signed, time-boxed read URLs for objects behind the content-delivery
//! front end.

use std::borrow::Cow;
use vstd::prelude::*;
use vstd::string::StringExecFns;
use crate::shared::text::join;
use crate::shared::time::Timestamp;

verus! {

/// `cloudfront_sign::EncodingError`, of which only the text is used.
#[verifier::external_type_specification]
#[verifier::external_body]
pub struct ExEncodingError(cloudfront_sign::EncodingError);

/// What `cloudfront_sign::get_signed_url` returns for `url` with options that
/// hold the given key-pair id, private key and expiry time and nothing else:
/// the signed URL, or `None` where it fails.
pub uninterp spec fn cloudfront_signed_url(
    url: Seq<char>,
    key_pair_id: Seq<char>,
    private_key: Seq<char>,
    date_less_than: u64,
) -> Option<Seq<char>>;

/// Calls `cloudfront_sign::get_signed_url` on `url`, with options made of the
/// three values given and nothing for the rest. Claimed: the outcome is
/// the named one, and a signed URL begins with `url`, to which the function
/// only appends its query.
#[verifier::external_body]
fn get_signed_url(url: &str, key_pair_id: &str, private_key: &str, date_less_than: u64) -> (r:
    Result<String, cloudfront_sign::EncodingError>)
    ensures
        match r {
            Ok(signed) => cloudfront_signed_url(url@, key_pair_id@, private_key@, date_less_than)
                == Some(signed@) && url@.is_prefix_of(signed@),
            Err(_) => cloudfront_signed_url(url@, key_pair_id@, private_key@, date_less_than)
                is None,
        },
{
    let options = cloudfront_sign::SignedOptions {
        key_pair_id: Cow::Borrowed(key_pair_id),
        private_key: Cow::Borrowed(private_key),
        date_less_than,
        date_greater_than: None,
        ip_address: None,
        resource: None,
    };
    cloudfront_sign::get_signed_url(url, &options)
}

/// Whether `text` is one of the texts that `cloudfront_sign::EncodingError` is
/// written as.
pub open spec fn is_encoding_error_text(text: Seq<char>) -> bool {
    ||| text == "invalid key provided"@
    ||| text == "failed to sign sha1 digest with rsa"@
    ||| text == "unknown error"@
}

/// Calls `to_string` on a `cloudfront_sign::EncodingError`, which writes it
/// through its `Display` impl. Claimed: the text is one of the three that the
/// error's variants are declared with.
#[verifier::external_body]
fn encoding_error_text(e: &cloudfront_sign::EncodingError) -> (r: String)
    ensures
        is_encoding_error_text(r@),
{
    e.to_string()
}

/// Why a URL could not be signed. Its view is the reason.
#[derive(Debug)]
pub struct CdnSigningError(String);

impl View for CdnSigningError {
    type V = Seq<char>;

    closed spec fn view(&self) -> Seq<char> {
        self.0@
    }
}

impl CdnSigningError {
    /// The error in words.
    pub fn message(&self) -> (r: String)
        ensures
            r@ == "CDN signing failed: "@ + self@,
    {
        join("CDN signing failed: ", self.0.as_str())
    }
}

impl vstd::std_specs::convert::FromSpecImpl<cloudfront_sign::EncodingError> for CdnSigningError {
    open spec fn obeys_from_spec() -> bool {
        false
    }

    open spec fn from_spec(e: cloudfront_sign::EncodingError) -> CdnSigningError {
        arbitrary()
    }
}

impl From<cloudfront_sign::EncodingError> for CdnSigningError {
    fn from(e: cloudfront_sign::EncodingError) -> (r: CdnSigningError)
        ensures
            is_encoding_error_text(r@),
    {
        CdnSigningError(encoding_error_text(&e))
    }
}

/// The reason given where the expiry time is beyond what a `u64` holds.
pub open spec fn expiry_overflow_text() -> Seq<char> {
    "expiry time is out of range"@
}

/// Issues signed read URLs.
///
/// What a signer answers is its own affair: `signs` says which answers it may
/// give to which request.
pub trait CdnSigner {
    /// Whether `outcome` is an answer of this signer to a request for a URL
    /// that lets `object_key` be read for `expiry_secs` seconds from now.
    open spec fn signs(
        &self,
        object_key: Seq<char>,
        expiry_secs: u64,
        outcome: Result<String, CdnSigningError>,
    ) -> bool {
        true
    }

    fn generate_signed_url(&self, object_key: &str, expiry_secs: u64) -> (r: Result<
        String,
        CdnSigningError,
    >)
        ensures
            self.signs(object_key@, expiry_secs, r),
    ;
}

/// The address of an object behind the front end at `domain`.
pub open spec fn resource_url(domain: Seq<char>, object_key: Seq<char>) -> Seq<char> {
    "https://"@ + domain + "/"@ + object_key
}

/// A signer for CloudFront: it signs with the private key of a key pair that
/// the distribution at `domain` trusts.
pub struct CloudFrontSigner {
    domain: String,
    key_pair_id: String,
    private_key_pem: String,
}

impl CloudFrontSigner {
    pub closed spec fn domain(&self) -> Seq<char> {
        self.domain@
    }

    pub closed spec fn key_pair_id(&self) -> Seq<char> {
        self.key_pair_id@
    }

    pub closed spec fn private_key_pem(&self) -> Seq<char> {
        self.private_key_pem@
    }

    pub fn new(domain: String, key_pair_id: String, private_key_pem: String) -> (r: Self)
        ensures
            r.domain() == domain@,
            r.key_pair_id() == key_pair_id@,
            r.private_key_pem() == private_key_pem@,
    {
        Self { domain, key_pair_id, private_key_pem }
    }

    /// Whether `outcome` is what signing the address of `object_key` gives for
    /// a URL that expires at `expires_at`, in seconds since the Unix epoch.
    pub open spec fn signs_until(
        &self,
        object_key: Seq<char>,
        expires_at: u64,
        outcome: Result<String, CdnSigningError>,
    ) -> bool {
        let signed = cloudfront_signed_url(
            resource_url(self.domain(), object_key),
            self.key_pair_id(),
            self.private_key_pem(),
            expires_at,
        );
        match outcome {
            Ok(url) => signed == Some(url@) && resource_url(self.domain(), object_key).is_prefix_of(
                url@,
            ),
            Err(e) => signed is None && is_encoding_error_text(e@),
        }
    }

    /// Whether `outcome` is what a request made at `now`, in seconds since the
    /// Unix epoch, gives: a URL that expires `expiry_secs` later, or a refusal
    /// where that time is beyond what a `u64` holds.
    pub open spec fn signs_at(
        &self,
        object_key: Seq<char>,
        expiry_secs: u64,
        now: u64,
        outcome: Result<String, CdnSigningError>,
    ) -> bool {
        if now + expiry_secs <= u64::MAX {
            self.signs_until(object_key, (now + expiry_secs) as u64, outcome)
        } else {
            outcome matches Err(e) && e@ == expiry_overflow_text()
        }
    }

    /// Signs the address of `object_key` for reading until `expires_at`, in
    /// seconds since the Unix epoch.
    pub fn sign_until(&self, object_key: &str, expires_at: u64) -> (r: Result<
        String,
        CdnSigningError,
    >)
        ensures
            self.signs_until(object_key@, expires_at, r),
    {
        let url = String::from_str("https://").concat(self.domain.as_str()).concat("/").concat(
            object_key,
        );
        match get_signed_url(
            url.as_str(),
            self.key_pair_id.as_str(),
            self.private_key_pem.as_str(),
            expires_at,
        ) {
            Ok(signed) => Ok(signed),
            Err(e) => Err(CdnSigningError::from(e)),
        }
    }

    /// Signs the address of `object_key` for reading during the `expiry_secs`
    /// seconds that follow `now`.
    pub fn sign_at(&self, object_key: &str, expiry_secs: u64, now: u64) -> (r: Result<
        String,
        CdnSigningError,
    >)
        ensures
            self.signs_at(object_key@, expiry_secs, now, r),
    {
        if expiry_secs > u64::MAX - now {
            return Err(CdnSigningError(String::from_str("expiry time is out of range")));
        }
        self.sign_until(object_key, now + expiry_secs)
    }
}

impl CdnSigner for CloudFrontSigner {
    /// The request may have been made at any instant since the Unix epoch
    /// that the clock can give.
    open spec fn signs(
        &self,
        object_key: Seq<char>,
        expiry_secs: u64,
        outcome: Result<String, CdnSigningError>,
    ) -> bool {
        exists|now: u64|
            now <= i64::MAX && #[trigger] self.signs_at(object_key, expiry_secs, now, outcome)
    }

    fn generate_signed_url(&self, object_key: &str, expiry_secs: u64) -> (r: Result<
        String,
        CdnSigningError,
    >) {
        let now = Timestamp::now().secs() as u64;
        self.sign_at(object_key, expiry_secs, now)
    }
}

} // verus!
