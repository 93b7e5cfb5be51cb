//! What an adapter for an S3 bucket computes around its requests: the signing
//! parameters before the request, and the library's values from the answer.

use vstd::prelude::*;
use vstd::string::StringExecFns;
use crate::feature::image::ingest::error::StorageError;
use crate::feature::image::ingest::model::ObjectMetadata;
use crate::feature::image::ingest::model::PresignedUploadUrl;
use crate::shared::time;
use crate::shared::time::Timestamp;

verus! {

/// `aws_sdk_s3::presigning::PresigningConfig`, handed on to the request that
/// is signed with it. Nothing of its inside is read.
#[verifier::external_type_specification]
#[verifier::external_body]
pub struct ExPresigningConfig(aws_sdk_s3::presigning::PresigningConfig);

/// `aws_sdk_s3::presigning::PresigningConfigError`, of which only the text is
/// used.
#[verifier::external_type_specification]
#[verifier::external_body]
pub struct ExPresigningConfigError(aws_sdk_s3::presigning::PresigningConfigError);

/// The longest time for which S3 lets a presigned request be valid: one week.
pub const MAX_PRESIGN_EXPIRY_SECS: u64 = 604800;

/// For how many whole seconds a request signed with the parameters is valid:
/// what `aws_sdk_s3::presigning::PresigningConfig::expires` returns for them.
pub uninterp spec fn presign_expiry_secs(config: aws_sdk_s3::presigning::PresigningConfig) -> u64;

/// Calls `aws_sdk_s3::presigning::PresigningConfig::builder`, sets `expires_in`
/// to the given number of seconds and calls `build`. Claimed: `build` succeeds
/// exactly when the time is no longer than one week, the only condition it
/// tests once `expires_in` is set, and the parameters it builds hold the time
/// that was set.
#[verifier::external_body]
fn build_presigning_config(expiry_secs: u64) -> (r: Result<
    aws_sdk_s3::presigning::PresigningConfig,
    aws_sdk_s3::presigning::PresigningConfigError,
>)
    ensures
        r is Ok <==> expiry_secs <= MAX_PRESIGN_EXPIRY_SECS,
        r matches Ok(config) ==> presign_expiry_secs(config) == expiry_secs,
{
    aws_sdk_s3::presigning::PresigningConfig::builder().expires_in(
        std::time::Duration::from_secs(expiry_secs),
    ).build()
}

/// Calls `to_string` on a `PresigningConfigError`, which writes it through its
/// `Display` impl. Claimed: the text is one of the two that this impl writes.
#[verifier::external_body]
fn presigning_config_error_text(e: &aws_sdk_s3::presigning::PresigningConfigError) -> (r: String)
    ensures
        r@ == "`expires_in` must be no longer than one week"@ || r@ == "`expires_in` is required"@,
{
    e.to_string()
}

/// The signing parameters for a URL that is valid for `expiry_secs` seconds.
/// S3 signs for a week at most; a longer time is refused.
pub fn presigning_config(expiry_secs: u64) -> (r: Result<
    aws_sdk_s3::presigning::PresigningConfig,
    StorageError,
>)
    ensures
        r is Ok <==> expiry_secs <= MAX_PRESIGN_EXPIRY_SECS,
        r matches Ok(config) ==> presign_expiry_secs(config) == expiry_secs,
        r matches Err(e) ==> e matches StorageError::PresignFailed(detail) && (detail@
            == "`expires_in` must be no longer than one week"@ || detail@
            == "`expires_in` is required"@),
{
    match build_presigning_config(expiry_secs) {
        Ok(config) => Ok(config),
        Err(e) => Err(StorageError::PresignFailed(presigning_config_error_text(&e))),
    }
}

/// When a URL signed at `now` for `expiry_secs` seconds expires, or `None`
/// where the calendar has no such instant.
pub open spec fn expiry_of(now: (i64, u32), expiry_secs: u64) -> Option<(i64, u32)> {
    if expiry_secs <= i64::MAX {
        time::utc_plus_seconds(now.0, now.1, expiry_secs as i64)
    } else {
        None
    }
}

/// The presigned upload URL that was signed at `now` for `expiry_secs`
/// seconds and reads `uri`, or `None` where the calendar ends before it would
/// expire.
pub fn presigned_upload_url(uri: &str, now: Timestamp, expiry_secs: u64) -> (r: Option<
    PresignedUploadUrl,
>)
    ensures
        match r {
            Some(presigned) => presigned.upload_url@ == uri@ && expiry_of(now@, expiry_secs)
                == Some(presigned.expires_at@),
            None => expiry_of(now@, expiry_secs) is None,
        },
{
    if expiry_secs > i64::MAX as u64 {
        return None;
    }
    match now.plus_seconds(expiry_secs as i64) {
        Some(expires_at) => Some(PresignedUploadUrl { upload_url: String::from_str(uri), expires_at }),
        None => None,
    }
}

/// The metadata of an object from the content length that S3 reported for it.
/// An answer without a content length is a failure.
pub fn object_metadata(content_length: Option<i64>) -> (r: Result<ObjectMetadata, StorageError>)
    ensures
        match r {
            Ok(metadata) => content_length == Some(metadata.size_bytes),
            Err(StorageError::MetadataFailed(detail)) => content_length is None && detail@
                == "missing content-length"@,
            Err(_) => false,
        },
{
    match content_length {
        Some(size_bytes) => Ok(ObjectMetadata { size_bytes }),
        None => Err(StorageError::MetadataFailed(String::from_str("missing content-length"))),
    }
}

} // verus!
