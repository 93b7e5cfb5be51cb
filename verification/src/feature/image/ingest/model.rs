//! What ingestion hands out, and the object storage it asks.

use vstd::prelude::*;
use crate::feature::image::ingest::error::StorageError;
use crate::shared::record::image_record::ImageId;
use crate::shared::time::Timestamp;

verus! {

/// The credential returned to the caller of the command.
#[derive(Debug)]
pub struct PresignedIngestUrl {
    pub image_id: ImageId,
    pub upload_url: String,
    pub expires_at: Timestamp,
}

/// A presigned upload URL as the object storage issues it.
#[derive(Debug)]
pub struct PresignedUploadUrl {
    pub upload_url: String,
    pub expires_at: Timestamp,
}

/// What the object storage knows about a stored object.
#[derive(Debug)]
pub struct ObjectMetadata {
    pub size_bytes: i64,
}

/// The object storage behind ingestion.
///
/// What a storage answers is its own affair: each operation has a relation
/// that says which answers it may give to which request, and promises no more
/// than that its answer is one of them.
pub trait ImageStorage {
    /// Whether `outcome` is an answer of this storage to a request for a URL
    /// that authorizes one upload of `content_type` to `object_key` in
    /// `bucket`, valid for `expiry_secs` seconds.
    open spec fn presigns(
        &self,
        bucket: Seq<char>,
        object_key: Seq<char>,
        content_type: Seq<char>,
        expiry_secs: u64,
        outcome: Result<PresignedUploadUrl, StorageError>,
    ) -> bool {
        true
    }

    /// Whether `outcome` is an answer of this storage to a request for the
    /// metadata of `object_key` in `bucket`.
    open spec fn describes(
        &self,
        bucket: Seq<char>,
        object_key: Seq<char>,
        outcome: Result<ObjectMetadata, StorageError>,
    ) -> bool {
        true
    }

    /// Whether `outcome` is an answer of this storage to a request to delete
    /// `object_key` from `bucket`.
    open spec fn deletes(
        &self,
        bucket: Seq<char>,
        object_key: Seq<char>,
        outcome: Result<(), StorageError>,
    ) -> bool {
        true
    }

    fn generate_presigned_ingest_url(
        &self,
        bucket: &str,
        object_key: &str,
        content_type: &str,
        expiry_secs: u64,
    ) -> (r: Result<PresignedUploadUrl, StorageError>)
        ensures
            self.presigns(bucket@, object_key@, content_type@, expiry_secs, r),
    ;

    fn get_object_metadata(&self, bucket: &str, object_key: &str) -> (r: Result<
        ObjectMetadata,
        StorageError,
    >)
        ensures
            self.describes(bucket@, object_key@, r),
    ;

    fn delete_object(&self, bucket: &str, object_key: &str) -> (r: Result<(), StorageError>)
        ensures
            self.deletes(bucket@, object_key@, r),
    ;
}

} // verus!
