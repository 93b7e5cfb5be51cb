//! Why an ingestion failed.

use vstd::prelude::*;
use crate::shared::record::image_record::RepositoryError;
use crate::shared::text::join;

verus! {

/// A failure of the object storage, by the operation that failed.
#[derive(Debug)]
pub enum StorageError {
    PresignFailed(String),
    MetadataFailed(String),
    DeleteFailed(String),
}

impl StorageError {
    /// The error in words.
    pub open spec fn text(self) -> Seq<char> {
        match self {
            StorageError::PresignFailed(detail) => "presign failed: "@ + detail@,
            StorageError::MetadataFailed(detail) => "metadata failed: "@ + detail@,
            StorageError::DeleteFailed(detail) => "delete failed: "@ + detail@,
        }
    }

    /// The error in words.
    pub fn message(&self) -> (r: String)
        ensures
            r@ == self.text(),
    {
        match self {
            StorageError::PresignFailed(detail) => join("presign failed: ", detail.as_str()),
            StorageError::MetadataFailed(detail) => join("metadata failed: ", detail.as_str()),
            StorageError::DeleteFailed(detail) => join("delete failed: ", detail.as_str()),
        }
    }
}

/// Why a command to issue an upload URL failed. The first two are faults of
/// the input; the others come from a collaborator.
#[derive(Debug)]
pub enum IngestError {
    /// The content type is not on the allowlist; holds the offending value.
    UnsupportedContentType(String),
    /// The file name was refused; holds the reason.
    InvalidFileName(String),
    Repository(RepositoryError),
    Storage(StorageError),
}

impl IngestError {
    /// Whether the caller's input is at fault.
    pub open spec fn is_input_fault(self) -> bool {
        self is UnsupportedContentType || self is InvalidFileName
    }

    /// The error in words.
    pub open spec fn text(self) -> Seq<char> {
        match self {
            IngestError::UnsupportedContentType(value) => "unsupported content type: "@ + value@,
            IngestError::InvalidFileName(reason) => "invalid file name: "@ + reason@,
            IngestError::Repository(e) => "repository error: "@ + e.text(),
            IngestError::Storage(e) => "storage error: "@ + e.text(),
        }
    }

    /// The error in words.
    pub fn message(&self) -> (r: String)
        ensures
            r@ == self.text(),
    {
        match self {
            IngestError::UnsupportedContentType(value) => join(
                "unsupported content type: ",
                value.as_str(),
            ),
            IngestError::InvalidFileName(reason) => join("invalid file name: ", reason.as_str()),
            IngestError::Repository(e) => {
                let inner = e.message();
                join("repository error: ", inner.as_str())
            },
            IngestError::Storage(e) => {
                let inner = e.message();
                join("storage error: ", inner.as_str())
            },
        }
    }
}

impl vstd::std_specs::convert::FromSpecImpl<RepositoryError> for IngestError {
    open spec fn obeys_from_spec() -> bool {
        true
    }

    open spec fn from_spec(e: RepositoryError) -> IngestError {
        IngestError::Repository(e)
    }
}

impl From<RepositoryError> for IngestError {
    fn from(e: RepositoryError) -> (r: IngestError) {
        IngestError::Repository(e)
    }
}

impl vstd::std_specs::convert::FromSpecImpl<StorageError> for IngestError {
    open spec fn obeys_from_spec() -> bool {
        true
    }

    open spec fn from_spec(e: StorageError) -> IngestError {
        IngestError::Storage(e)
    }
}

impl From<StorageError> for IngestError {
    fn from(e: StorageError) -> (r: IngestError) {
        IngestError::Storage(e)
    }
}

} // verus!
