use foundation::api::container::AppState;
use foundation::api::routes::image::ingest::create_presigned_url;
use foundation::api::routes::image::ingest::response_of;
use foundation::api::routes::image::ingest::ApiError;
use foundation::api::routes::image::ingest::CreatePresignedUrlRequest;
use foundation::feature::image::ingest::command::CreateImageIngestPresignedUrlCommandExecutor;
use foundation::feature::image::ingest::error::IngestError;
use foundation::feature::image::ingest::error::StorageError;
use foundation::feature::image::ingest::model::ImageStorage;
use foundation::feature::image::ingest::model::ObjectMetadata;
use foundation::feature::image::ingest::model::PresignedIngestUrl;
use foundation::feature::image::ingest::model::PresignedUploadUrl;
use foundation::shared::record::image_record::ImageId;
use foundation::shared::record::image_record::RepositoryError;
use foundation::shared::record::image_record_repository::InMemoryImageRecordRepository;
use foundation::shared::time::Timestamp;

struct FixedImageStorage {
    fails: bool,
}

impl ImageStorage for FixedImageStorage {
    fn generate_presigned_ingest_url(
        &self,
        bucket: &str,
        object_key: &str,
        _content_type: &str,
        _expiry_secs: u64,
    ) -> Result<PresignedUploadUrl, StorageError> {
        if self.fails {
            return Err(StorageError::PresignFailed("backend detail".to_string()));
        }
        Ok(PresignedUploadUrl {
            upload_url: format!("https://{bucket}.example.com/{object_key}"),
            expires_at: Timestamp::from_parts(1_431_648_300, 0).unwrap(),
        })
    }

    fn get_object_metadata(
        &self,
        _bucket: &str,
        _object_key: &str,
    ) -> Result<ObjectMetadata, StorageError> {
        Ok(ObjectMetadata { size_bytes: 1 })
    }

    fn delete_object(&self, _bucket: &str, _object_key: &str) -> Result<(), StorageError> {
        Ok(())
    }
}

fn arrange_state(fails: bool) -> AppState<InMemoryImageRecordRepository, FixedImageStorage> {
    AppState {
        create_image_ingest_presigned_url: CreateImageIngestPresignedUrlCommandExecutor::new(
            InMemoryImageRecordRepository::new(),
            FixedImageStorage { fails },
            "uploads".to_string(),
            300,
        ),
    }
}

fn arrange_request(content_type: &str, file_name: &str) -> CreatePresignedUrlRequest {
    CreatePresignedUrlRequest {
        content_type: content_type.to_string(),
        file_name: file_name.to_string(),
    }
}

#[test]
fn valid_request_is_answered_with_the_created_credential() {
    let mut state = arrange_state(false);

    let (status, body) =
        create_presigned_url(&mut state, arrange_request("image/jpeg", "photo.jpg")).unwrap();

    assert_eq!(status, 201);
    assert_eq!(body.image_id.len(), 26);
    assert_eq!(
        body.upload_url,
        format!("https://uploads.example.com/ingest/{}", body.image_id)
    );
    assert_eq!(body.expires_at, "2015-05-15T00:05:00+00:00");
    assert_eq!(state.create_image_ingest_presigned_url.image_repository.len(), 1);
}

#[test]
fn unsupported_content_type_is_the_fault_of_the_request() {
    let mut state = arrange_state(false);

    let error =
        create_presigned_url(&mut state, arrange_request("image/bmp", "photo.jpg")).unwrap_err();

    assert!(matches!(error.0, IngestError::UnsupportedContentType(_)));
    assert_eq!(
        error.status_and_message(),
        (400, "unsupported content type: image/bmp".to_string())
    );
    assert_eq!(state.create_image_ingest_presigned_url.image_repository.len(), 0);
}

#[test]
fn invalid_file_name_is_the_fault_of_the_request() {
    let mut state = arrange_state(false);

    let error = create_presigned_url(&mut state, arrange_request("image/jpeg", "")).unwrap_err();

    assert_eq!(
        error.status_and_message(),
        (400, "invalid file name: file name must not be empty".to_string())
    );
    assert_eq!(state.create_image_ingest_presigned_url.image_repository.len(), 0);
}

#[test]
fn failure_of_the_storage_is_answered_without_its_detail() {
    let mut state = arrange_state(true);

    let error =
        create_presigned_url(&mut state, arrange_request("image/jpeg", "photo.jpg")).unwrap_err();

    assert!(matches!(error.0, IngestError::Storage(_)));
    assert_eq!(error.status_and_message(), (500, "internal error".to_string()));
}

#[test]
fn failure_of_the_store_is_answered_without_its_detail() {
    let error = ApiError::from(IngestError::Repository(RepositoryError::DataMapping(
        "unknown image status: X".to_string(),
    )));

    assert_eq!(error.status_and_message(), (500, "internal error".to_string()));
}

#[test]
fn response_spells_out_what_was_issued() {
    let issued = PresignedIngestUrl {
        image_id: ImageId::new("01D39ZY06FGSCTVN4T2V9PKHFZ".to_string()),
        upload_url: "https://uploads.example.com/ingest/01D39ZY06FGSCTVN4T2V9PKHFZ".to_string(),
        expires_at: Timestamp::from_parts(1_700_000_000, 0).unwrap(),
    };

    let body = response_of(issued);

    assert_eq!(body.image_id, "01D39ZY06FGSCTVN4T2V9PKHFZ");
    assert_eq!(
        body.upload_url,
        "https://uploads.example.com/ingest/01D39ZY06FGSCTVN4T2V9PKHFZ"
    );
    assert_eq!(body.expires_at, "2023-11-14T22:13:20+00:00");
}
