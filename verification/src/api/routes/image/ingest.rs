//! The route that issues a presigned upload URL.

use vstd::prelude::*;
use vstd::string::StringExecFns;
use crate::api::container::AppState;
use crate::feature::image::ingest::command;
use crate::feature::image::ingest::command::CreateImageIngestPresignedUrlCommand;
use crate::feature::image::ingest::error::IngestError;
use crate::feature::image::ingest::model::ImageStorage;
use crate::feature::image::ingest::model::PresignedIngestUrl;
use crate::feature::image::ingest::model::PresignedUploadUrl;
use crate::shared::record::image_record::ImageContentType;
use crate::shared::record::image_record::ImageRecordRepository;
use crate::shared::identifier;
use crate::shared::text::join;
use crate::shared::time;

verus! {

/// The status of an answer that reports a created resource.
pub const STATUS_CREATED: u16 = 201;

/// The status of an answer to a request that is at fault.
pub const STATUS_BAD_REQUEST: u16 = 400;

/// The status of an answer where the service is at fault.
pub const STATUS_INTERNAL_SERVER_ERROR: u16 = 500;

/// The body of the request.
#[derive(Debug)]
pub struct CreatePresignedUrlRequest {
    pub content_type: String,
    pub file_name: String,
}

/// The body of the answer to a request that succeeded.
#[derive(Debug)]
pub struct CreatePresignedUrlResponse {
    pub image_id: String,
    pub upload_url: String,
    pub expires_at: String,
}

/// A failed request.
#[derive(Debug)]
pub struct ApiError(pub IngestError);

impl vstd::std_specs::convert::FromSpecImpl<IngestError> for ApiError {
    open spec fn obeys_from_spec() -> bool {
        true
    }

    open spec fn from_spec(e: IngestError) -> ApiError {
        ApiError(e)
    }
}

impl From<IngestError> for ApiError {
    fn from(e: IngestError) -> (r: ApiError) {
        ApiError(e)
    }
}

impl ApiError {
    /// The status that the failure is answered with: the request's fault
    /// where the input was refused, the service's otherwise.
    pub open spec fn status(self) -> u16 {
        if self.0.is_input_fault() {
            STATUS_BAD_REQUEST
        } else {
            STATUS_INTERNAL_SERVER_ERROR
        }
    }

    /// The message that the failure is answered with. A fault of the input is
    /// named with the offending value or the reason; of any other failure the
    /// caller learns only that there was one.
    pub open spec fn message(self) -> Seq<char> {
        match self.0 {
            IngestError::UnsupportedContentType(value) => "unsupported content type: "@ + value@,
            IngestError::InvalidFileName(reason) => "invalid file name: "@ + reason@,
            IngestError::Repository(_) => "internal error"@,
            IngestError::Storage(_) => "internal error"@,
        }
    }

    /// The status and the message that the failure is answered with.
    pub fn status_and_message(&self) -> (r: (u16, String))
        ensures
            r.0 == self.status(),
            r.1@ == self.message(),
    {
        match &self.0 {
            IngestError::UnsupportedContentType(value) => (
                STATUS_BAD_REQUEST,
                join("unsupported content type: ", value.as_str()),
            ),
            IngestError::InvalidFileName(reason) => (
                STATUS_BAD_REQUEST,
                join("invalid file name: ", reason.as_str()),
            ),
            IngestError::Repository(_) => (
                STATUS_INTERNAL_SERVER_ERROR,
                String::from_str("internal error"),
            ),
            IngestError::Storage(_) => (
                STATUS_INTERNAL_SERVER_ERROR,
                String::from_str("internal error"),
            ),
        }
    }
}

/// The body that answers a request for which `issued` was issued.
pub fn response_of(issued: PresignedIngestUrl) -> (r: CreatePresignedUrlResponse)
    ensures
        r.image_id@ == issued.image_id@,
        r.upload_url == issued.upload_url,
        r.expires_at@ == time::rfc3339_text(issued.expires_at@.0, issued.expires_at@.1),
{
    let expires_at = issued.expires_at.to_rfc3339();
    CreatePresignedUrlResponse {
        image_id: String::from(issued.image_id),
        upload_url: issued.upload_url,
        expires_at,
    }
}

/// Answers a request for a presigned upload URL: runs the command that the
/// request spells out and, where it succeeds, reports the created credential.
pub fn create_presigned_url<R: ImageRecordRepository, S: ImageStorage>(
    state: &mut AppState<R, S>,
    payload: CreatePresignedUrlRequest,
) -> (r: Result<(u16, CreatePresignedUrlResponse), ApiError>)
    ensures
        final(state).create_image_ingest_presigned_url.image_storage == old(
            state,
        ).create_image_ingest_presigned_url.image_storage,
        final(state).create_image_ingest_presigned_url.bucket == old(
            state,
        ).create_image_ingest_presigned_url.bucket,
        final(state).create_image_ingest_presigned_url.expiry_secs == old(
            state,
        ).create_image_ingest_presigned_url.expiry_secs,
        final(state).create_image_ingest_presigned_url.image_repository.infallible() == old(
            state,
        ).create_image_ingest_presigned_url.image_repository.infallible(),
        match r {
            Ok((status, body)) => {
                &&& status == STATUS_CREATED
                &&& identifier::is_ulid(body.image_id@)
                &&& identifier::is_ulid_text(body.image_id@)
                &&& ImageContentType::parse(payload.content_type@) is Some
                &&& command::file_name_fault(payload.file_name@) is None
                &&& exists|expires_at: time::Timestamp|
                    {
                        &&& body.expires_at@ == time::rfc3339_text(expires_at@.0, expires_at@.1)
                        &&& #[trigger] old(state).create_image_ingest_presigned_url.asked(
                            body.image_id@,
                            payload.content_type@,
                            Ok(PresignedUploadUrl { upload_url: body.upload_url, expires_at }),
                        )
                    }
                &&& command::recorded(
                    old(state).create_image_ingest_presigned_url.image_repository.records(),
                    final(state).create_image_ingest_presigned_url.image_repository.records(),
                    body.image_id@,
                    CreateImageIngestPresignedUrlCommand {
                        content_type: payload.content_type,
                        file_name: payload.file_name,
                    },
                )
            },
            Err(ApiError(IngestError::UnsupportedContentType(value))) => {
                &&& ImageContentType::parse(payload.content_type@) is None
                &&& value@ == payload.content_type@
                &&& final(state).create_image_ingest_presigned_url.image_repository == old(
                    state,
                ).create_image_ingest_presigned_url.image_repository
            },
            Err(ApiError(IngestError::InvalidFileName(reason))) => {
                &&& ImageContentType::parse(payload.content_type@) is Some
                &&& command::file_name_fault(payload.file_name@) == Some(reason@)
                &&& final(state).create_image_ingest_presigned_url.image_repository == old(
                    state,
                ).create_image_ingest_presigned_url.image_repository
            },
            Err(ApiError(IngestError::Repository(e))) => {
                &&& ImageContentType::parse(payload.content_type@) is Some
                &&& command::file_name_fault(payload.file_name@) is None
                &&& !old(state).create_image_ingest_presigned_url.image_repository.infallible()
                &&& old(state).create_image_ingest_presigned_url.refused(
                    CreateImageIngestPresignedUrlCommand {
                        content_type: payload.content_type,
                        file_name: payload.file_name,
                    },
                    e,
                )
            },
            Err(ApiError(IngestError::Storage(e))) => {
                &&& ImageContentType::parse(payload.content_type@) is Some
                &&& command::file_name_fault(payload.file_name@) is None
                &&& exists|id: Seq<char>|
                    {
                        &&& identifier::is_ulid_text(id)
                        &&& #[trigger] old(state).create_image_ingest_presigned_url.asked(
                            id,
                            payload.content_type@,
                            Err(e),
                        )
                        &&& command::recorded(
                            old(state).create_image_ingest_presigned_url.image_repository.records(),
                            final(state).create_image_ingest_presigned_url.image_repository.records(),
                            id,
                            CreateImageIngestPresignedUrlCommand {
                                content_type: payload.content_type,
                                file_name: payload.file_name,
                            },
                        )
                    }
            },
        },
{
    let command = CreateImageIngestPresignedUrlCommand {
        content_type: payload.content_type,
        file_name: payload.file_name,
    };
    match state.create_image_ingest_presigned_url.execute(command) {
        Ok(issued) => Ok((STATUS_CREATED, response_of(issued))),
        Err(e) => Err(ApiError::from(e)),
    }
}

} // verus!
