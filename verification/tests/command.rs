use foundation::feature::image::ingest::command::new_image_id;
use foundation::feature::image::ingest::command::new_pending_record;
use foundation::feature::image::ingest::command::object_key_for;
use foundation::feature::image::ingest::command::validate;
use foundation::feature::image::ingest::command::validate_file_name;
use foundation::feature::image::ingest::command::CreateImageIngestPresignedUrlCommand;
use foundation::feature::image::ingest::command::CreateImageIngestPresignedUrlCommandExecutor;
use foundation::feature::image::ingest::error::IngestError;
use foundation::feature::image::ingest::error::StorageError;
use foundation::feature::image::ingest::model::ImageStorage;
use foundation::feature::image::ingest::model::ObjectMetadata;
use foundation::feature::image::ingest::model::PresignedUploadUrl;
use foundation::shared::identifier::fresh_ulid_text;
use foundation::shared::identifier::ulid_text_of;
use foundation::shared::record::image_record::ImageContentType;
use foundation::shared::record::image_record::ImageId;
use foundation::shared::record::image_record::ImageRecord;
use foundation::shared::record::image_record::ImageRecordRepository;
use foundation::shared::record::image_record::ImageStatus;
use foundation::shared::record::image_record::RepositoryError;
use foundation::shared::record::image_record_repository::InMemoryImageRecordRepository;
use foundation::shared::time::Timestamp;

const CROCKFORD: &str = "0123456789ABCDEFGHJKMNPQRSTVWXYZ";

struct StubImageRecordRepository;

impl ImageRecordRepository for StubImageRecordRepository {
    fn save(&mut self, _image: ImageRecord) -> Result<(), RepositoryError> {
        Ok(())
    }

    fn find_by_id(&self, _id: &ImageId) -> Result<Option<ImageRecord>, RepositoryError> {
        Ok(None)
    }

    fn find_by_ids(&self, _ids: &[ImageId]) -> Result<Vec<ImageRecord>, RepositoryError> {
        Ok(vec![])
    }
}

struct FailingImageRecordRepository {
    saves: usize,
}

impl ImageRecordRepository for FailingImageRecordRepository {
    fn save(&mut self, _image: ImageRecord) -> Result<(), RepositoryError> {
        self.saves += 1;
        Err(RepositoryError::DataMapping("store is down".to_string()))
    }

    fn find_by_id(&self, _id: &ImageId) -> Result<Option<ImageRecord>, RepositoryError> {
        Err(RepositoryError::DataMapping("store is down".to_string()))
    }

    fn find_by_ids(&self, _ids: &[ImageId]) -> Result<Vec<ImageRecord>, RepositoryError> {
        Err(RepositoryError::DataMapping("store is down".to_string()))
    }
}

struct StubImageStorage;

impl ImageStorage for StubImageStorage {
    fn generate_presigned_ingest_url(
        &self,
        _bucket: &str,
        object_key: &str,
        _content_type: &str,
        _expiry_secs: u64,
    ) -> Result<PresignedUploadUrl, StorageError> {
        Ok(PresignedUploadUrl {
            upload_url: format!("https://s3.example.com/{object_key}"),
            expires_at: Timestamp::now(),
        })
    }

    fn get_object_metadata(
        &self,
        _bucket: &str,
        _object_key: &str,
    ) -> Result<ObjectMetadata, StorageError> {
        Ok(ObjectMetadata { size_bytes: 1024 })
    }

    fn delete_object(&self, _bucket: &str, _object_key: &str) -> Result<(), StorageError> {
        Ok(())
    }
}

/// Answers with a URL that spells out everything it was asked with.
struct EchoImageStorage;

impl ImageStorage for EchoImageStorage {
    fn generate_presigned_ingest_url(
        &self,
        bucket: &str,
        object_key: &str,
        content_type: &str,
        expiry_secs: u64,
    ) -> Result<PresignedUploadUrl, StorageError> {
        Ok(PresignedUploadUrl {
            upload_url: format!("{bucket}|{object_key}|{content_type}|{expiry_secs}"),
            expires_at: Timestamp::from_parts(1_431_648_300, 0).unwrap(),
        })
    }

    fn get_object_metadata(
        &self,
        _bucket: &str,
        _object_key: &str,
    ) -> Result<ObjectMetadata, StorageError> {
        Err(StorageError::MetadataFailed("not asked".to_string()))
    }

    fn delete_object(&self, _bucket: &str, _object_key: &str) -> Result<(), StorageError> {
        Err(StorageError::DeleteFailed("not asked".to_string()))
    }
}

struct FailingImageStorage;

impl ImageStorage for FailingImageStorage {
    fn generate_presigned_ingest_url(
        &self,
        _bucket: &str,
        _object_key: &str,
        _content_type: &str,
        _expiry_secs: u64,
    ) -> Result<PresignedUploadUrl, StorageError> {
        Err(StorageError::PresignFailed("no credentials".to_string()))
    }

    fn get_object_metadata(
        &self,
        _bucket: &str,
        _object_key: &str,
    ) -> Result<ObjectMetadata, StorageError> {
        Err(StorageError::MetadataFailed("no credentials".to_string()))
    }

    fn delete_object(&self, _bucket: &str, _object_key: &str) -> Result<(), StorageError> {
        Err(StorageError::DeleteFailed("no credentials".to_string()))
    }
}

fn arrange_executor(
) -> CreateImageIngestPresignedUrlCommandExecutor<StubImageRecordRepository, StubImageStorage> {
    CreateImageIngestPresignedUrlCommandExecutor::new(
        StubImageRecordRepository,
        StubImageStorage,
        "test-bucket".to_string(),
        300,
    )
}

fn arrange_recording_executor(
) -> CreateImageIngestPresignedUrlCommandExecutor<InMemoryImageRecordRepository, EchoImageStorage>
{
    CreateImageIngestPresignedUrlCommandExecutor::new(
        InMemoryImageRecordRepository::new(),
        EchoImageStorage,
        "test-bucket".to_string(),
        300,
    )
}

fn arrange_command() -> CreateImageIngestPresignedUrlCommand {
    CreateImageIngestPresignedUrlCommand {
        content_type: "image/jpeg".to_string(),
        file_name: "photo.jpg".to_string(),
    }
}

#[test]
fn sut_returns_presigned_url_when_command_is_valid() {
    // Arrange
    let mut sut = arrange_executor();
    let command = arrange_command();

    // Act
    let result = sut.execute(command);

    // Assert
    assert!(result.is_ok());
    let url = result.unwrap();
    assert!(!url.upload_url.is_empty());
    assert!(!url.image_id.as_ref().is_empty());
}

#[test]
fn sut_returns_error_when_content_type_is_not_in_allowlist() {
    // Arrange
    let mut sut = arrange_executor();
    let mut command = arrange_command();
    command.content_type = "image/bmp".to_string();

    // Act
    let result = sut.execute(command);

    // Assert
    assert!(matches!(
        result,
        Err(IngestError::UnsupportedContentType(_))
    ));
}

#[test]
fn sut_returns_error_when_content_type_is_wildcard() {
    // Arrange
    let mut sut = arrange_executor();
    let mut command = arrange_command();
    command.content_type = "image/*".to_string();

    // Act
    let result = sut.execute(command);

    // Assert
    assert!(matches!(
        result,
        Err(IngestError::UnsupportedContentType(_))
    ));
}

#[test]
fn sut_returns_error_when_content_type_is_parameterized() {
    // Arrange
    let mut sut = arrange_executor();
    let mut command = arrange_command();
    command.content_type = "image/jpeg;charset=utf-8".to_string();

    // Act
    let result = sut.execute(command);

    // Assert
    assert!(matches!(
        result,
        Err(IngestError::UnsupportedContentType(_))
    ));
}

#[test]
fn sut_returns_error_when_file_name_is_empty() {
    // Arrange
    let mut sut = arrange_executor();
    let mut command = arrange_command();
    command.file_name = String::new();

    // Act
    let result = sut.execute(command);

    // Assert
    assert!(matches!(result, Err(IngestError::InvalidFileName(_))));
}

#[test]
fn sut_returns_error_when_file_name_exceeds_max_length() {
    // Arrange
    let mut sut = arrange_executor();
    let mut command = arrange_command();
    // 256 characters exceeds the 255 character limit
    command.file_name = "a".repeat(256);

    // Act
    let result = sut.execute(command);

    // Assert
    assert!(matches!(result, Err(IngestError::InvalidFileName(_))));
}

#[test]
fn sut_returns_error_when_file_name_contains_control_character() {
    // Arrange
    let mut sut = arrange_executor();
    let mut command = arrange_command();
    // ASCII 0x01 is a control character (falls in range 0-31)
    command.file_name = "photo\x01.jpg".to_string();

    // Act
    let result = sut.execute(command);

    // Assert
    assert!(matches!(result, Err(IngestError::InvalidFileName(_))));
}

#[test]
fn sut_accepts_gif_content_type() {
    // Arrange
    let mut sut = arrange_executor();
    let mut command = arrange_command();
    command.content_type = "image/gif".to_string();

    // Act
    let result = sut.execute(command);

    // Assert
    assert!(result.is_ok());
}

#[test]
fn unsupported_content_type_carries_the_value_and_writes_nothing() {
    for value in ["image/bmp", "image/*", "image/jpeg;charset=utf-8", "IMAGE/JPEG", " image/png", ""] {
        let mut sut = arrange_recording_executor();
        let mut command = arrange_command();
        command.content_type = value.to_string();

        let result = sut.execute(command);

        match result {
            Err(IngestError::UnsupportedContentType(carried)) => assert_eq!(carried, value),
            other => panic!("expected UnsupportedContentType, got {other:?}"),
        }
        assert_eq!(sut.image_repository.len(), 0);
    }
}

#[test]
fn content_type_is_checked_before_the_file_name() {
    let mut sut = arrange_recording_executor();
    let command = CreateImageIngestPresignedUrlCommand {
        content_type: "image/bmp".to_string(),
        file_name: String::new(),
    };

    let result = sut.execute(command);

    assert!(matches!(
        result,
        Err(IngestError::UnsupportedContentType(_))
    ));
}

#[test]
fn invalid_file_name_carries_the_reason_and_writes_nothing() {
    let cases = [
        (String::new(), "file name must not be empty"),
        ("a".repeat(256), "file name must not exceed 255 characters"),
        ("photo\x01.jpg".to_string(), "file name must not contain control characters"),
        ("\x1f".to_string(), "file name must not contain control characters"),
        ("tab\there".to_string(), "file name must not contain control characters"),
        ("\x00".repeat(256), "file name must not exceed 255 characters"),
    ];
    for (file_name, reason) in cases {
        let mut sut = arrange_recording_executor();
        let mut command = arrange_command();
        command.file_name = file_name;

        let result = sut.execute(command);

        match result {
            Err(IngestError::InvalidFileName(carried)) => assert_eq!(carried, reason),
            other => panic!("expected InvalidFileName, got {other:?}"),
        }
        assert_eq!(sut.image_repository.len(), 0);
    }
}

#[test]
fn file_name_length_is_counted_in_code_points() {
    assert!(validate_file_name(&"a".repeat(255)).is_ok());
    assert!(validate_file_name(&"\u{e9}".repeat(255)).is_ok());
    assert!(matches!(
        validate_file_name(&"\u{e9}".repeat(256)),
        Err(IngestError::InvalidFileName(_))
    ));
}

#[test]
fn file_name_may_hold_a_space_but_no_control_character() {
    assert!(validate_file_name(" ").is_ok());
    assert!(validate_file_name("my photo (1).jpg").is_ok());
    assert!(validate_file_name("\u{7f}").is_ok());
    assert!(matches!(
        validate_file_name("line\nbreak"),
        Err(IngestError::InvalidFileName(_))
    ));
}

#[test]
fn valid_command_records_a_pending_upload_before_the_url_is_issued() {
    let mut sut = arrange_recording_executor();

    let issued = sut.execute(arrange_command()).unwrap();

    let id = issued.image_id.as_ref().to_string();
    assert_eq!(id.chars().count(), 26);
    assert!(id.chars().all(|c| CROCKFORD.contains(c)));
    assert_eq!(
        issued.upload_url,
        format!("test-bucket|ingest/{id}|image/jpeg|300")
    );
    assert_eq!(issued.expires_at.secs(), 1_431_648_300);
    assert_eq!(issued.expires_at.nanos(), 0);

    assert_eq!(sut.image_repository.len(), 1);
    let stored = sut
        .image_repository
        .find_by_id(&issued.image_id)
        .unwrap()
        .unwrap();
    assert_eq!(stored.id.as_ref(), id);
    assert_eq!(stored.status, ImageStatus::Pending);
    assert_eq!(stored.content_type, ImageContentType::Jpeg);
    assert_eq!(stored.file_name, "photo.jpg");
    assert_eq!(stored.size_bytes, None);
    assert_eq!(stored.object_key, format!("ingest/{id}"));
    assert_eq!(stored.created_at.secs(), stored.updated_at.secs());
    assert_eq!(stored.created_at.nanos(), stored.updated_at.nanos());
}

#[test]
fn every_allowed_content_type_is_accepted() {
    let cases = [
        ("image/jpeg", ImageContentType::Jpeg),
        ("image/png", ImageContentType::Png),
        ("image/webp", ImageContentType::WebP),
        ("image/avif", ImageContentType::Avif),
        ("image/gif", ImageContentType::Gif),
    ];
    for (value, content_type) in cases {
        let mut sut = arrange_recording_executor();
        let mut command = arrange_command();
        command.content_type = value.to_string();

        let issued = sut.execute(command).unwrap();

        let stored = sut
            .image_repository
            .find_by_id(&issued.image_id)
            .unwrap()
            .unwrap();
        assert_eq!(stored.content_type, content_type);
    }
}

#[test]
fn two_commands_with_the_same_input_get_different_ids_and_keys() {
    let mut sut = arrange_recording_executor();

    let first = sut.execute(arrange_command()).unwrap();
    let second = sut.execute(arrange_command()).unwrap();

    assert_ne!(first.image_id.as_ref(), second.image_id.as_ref());
    assert_ne!(
        object_key_for(&first.image_id),
        object_key_for(&second.image_id)
    );
    assert_eq!(sut.image_repository.len(), 2);
}

#[test]
fn failure_of_the_store_is_reported_and_the_storage_is_not_asked() {
    let mut sut = CreateImageIngestPresignedUrlCommandExecutor::new(
        FailingImageRecordRepository { saves: 0 },
        EchoImageStorage,
        "test-bucket".to_string(),
        300,
    );

    let result = sut.execute(arrange_command());

    assert!(matches!(
        result,
        Err(IngestError::Repository(RepositoryError::DataMapping(_)))
    ));
    assert_eq!(sut.image_repository.saves, 1);
}

#[test]
fn failure_of_the_storage_leaves_the_pending_record() {
    let mut sut = CreateImageIngestPresignedUrlCommandExecutor::new(
        InMemoryImageRecordRepository::new(),
        FailingImageStorage,
        "test-bucket".to_string(),
        300,
    );

    let result = sut.execute(arrange_command());

    match result {
        Err(IngestError::Storage(StorageError::PresignFailed(detail))) => {
            assert_eq!(detail, "no credentials")
        }
        other => panic!("expected a storage error, got {other:?}"),
    }
    assert_eq!(sut.image_repository.len(), 1);
}

#[test]
fn invalid_input_does_not_reach_a_failing_store() {
    let mut sut = CreateImageIngestPresignedUrlCommandExecutor::new(
        FailingImageRecordRepository { saves: 0 },
        FailingImageStorage,
        "test-bucket".to_string(),
        300,
    );
    let mut command = arrange_command();
    command.file_name = String::new();

    let result = sut.execute(command);

    assert!(matches!(result, Err(IngestError::InvalidFileName(_))));
    assert_eq!(sut.image_repository.saves, 0);
}

#[test]
fn fresh_ids_are_ulid_texts() {
    let first = new_image_id();
    let second = new_image_id();

    for id in [&first, &second] {
        assert_eq!(id.as_ref().len(), 26);
        assert!(id.as_ref().chars().all(|c| CROCKFORD.contains(c)));
        // The first digit holds the three highest bits of the 128 only.
        assert!(("0"..="7").contains(&&id.as_ref()[0..1]));
    }
    assert_ne!(first.as_ref(), second.as_ref());
    // The leading digits are the time in milliseconds, which has not reached 2^45 yet.
    assert!(first.as_ref().starts_with('0'));
}

#[test]
fn object_key_is_the_id_under_the_ingest_prefix() {
    let id = ImageId::new("01D39ZY06FGSCTVN4T2V9PKHFZ".to_string());

    assert_eq!(object_key_for(&id), "ingest/01D39ZY06FGSCTVN4T2V9PKHFZ");
    assert_eq!(object_key_for(&ImageId::new(String::new())), "ingest/");
}

#[test]
fn pending_record_holds_what_it_was_made_from() {
    let now = Timestamp::from_parts(1_431_648_000, 5).unwrap();

    let record = new_pending_record(
        ImageId::new("01D39ZY06FGSCTVN4T2V9PKHFZ".to_string()),
        ImageContentType::WebP,
        "a.webp".to_string(),
        now,
    );

    assert_eq!(record.id.as_ref(), "01D39ZY06FGSCTVN4T2V9PKHFZ");
    assert_eq!(record.status, ImageStatus::Pending);
    assert_eq!(record.content_type, ImageContentType::WebP);
    assert_eq!(record.file_name, "a.webp");
    assert_eq!(record.size_bytes, None);
    assert_eq!(record.object_key, "ingest/01D39ZY06FGSCTVN4T2V9PKHFZ");
    assert_eq!(record.created_at.secs(), 1_431_648_000);
    assert_eq!(record.created_at.nanos(), 5);
    assert_eq!(record.updated_at.secs(), 1_431_648_000);
    assert_eq!(record.updated_at.nanos(), 5);
}

#[test]
fn ingest_error_messages() {
    assert_eq!(
        IngestError::UnsupportedContentType("image/bmp".to_string()).message(),
        "unsupported content type: image/bmp"
    );
    assert_eq!(
        IngestError::InvalidFileName("file name must not be empty".to_string()).message(),
        "invalid file name: file name must not be empty"
    );
    assert_eq!(
        IngestError::from(RepositoryError::DataMapping("unknown image status: X".to_string()))
            .message(),
        "repository error: data mapping error: unknown image status: X"
    );
    assert_eq!(
        IngestError::from(StorageError::DeleteFailed("gone".to_string())).message(),
        "storage error: delete failed: gone"
    );
    assert_eq!(
        StorageError::PresignFailed("a".to_string()).message(),
        "presign failed: a"
    );
    assert_eq!(
        StorageError::MetadataFailed("b".to_string()).message(),
        "metadata failed: b"
    );
}

#[test]
fn validate_yields_the_content_type_of_a_command_without_fault() {
    let result = validate(&arrange_command());

    assert!(matches!(result, Ok(ImageContentType::Jpeg)));
}

#[test]
fn validate_reports_the_first_fault() {
    let both = CreateImageIngestPresignedUrlCommand {
        content_type: "image/tiff".to_string(),
        file_name: "\x00".to_string(),
    };
    let name_only = CreateImageIngestPresignedUrlCommand {
        content_type: "image/avif".to_string(),
        file_name: "\x00".to_string(),
    };

    match validate(&both) {
        Err(IngestError::UnsupportedContentType(value)) => assert_eq!(value, "image/tiff"),
        other => panic!("expected UnsupportedContentType, got {other:?}"),
    }
    match validate(&name_only) {
        Err(IngestError::InvalidFileName(reason)) => {
            assert_eq!(reason, "file name must not contain control characters")
        }
        other => panic!("expected InvalidFileName, got {other:?}"),
    }
}

#[test]
fn issue_records_the_upload_under_the_given_id_at_the_given_instant() {
    let mut sut = arrange_recording_executor();
    let now = Timestamp::from_parts(1_700_000_000, 42).unwrap();

    let issued = sut
        .issue(
            ImageId::new("01D39ZY06FGSCTVN4T2V9PKHFZ".to_string()),
            ImageContentType::Avif,
            "cat.avif".to_string(),
            now,
        )
        .unwrap();

    assert_eq!(issued.image_id.as_ref(), "01D39ZY06FGSCTVN4T2V9PKHFZ");
    assert_eq!(
        issued.upload_url,
        "test-bucket|ingest/01D39ZY06FGSCTVN4T2V9PKHFZ|image/avif|300"
    );
    assert_eq!(issued.expires_at.secs(), 1_431_648_300);
    let stored = sut
        .image_repository
        .find_by_id(&issued.image_id)
        .unwrap()
        .unwrap();
    assert_eq!(stored.id.as_ref(), "01D39ZY06FGSCTVN4T2V9PKHFZ");
    assert_eq!(stored.status, ImageStatus::Pending);
    assert_eq!(stored.content_type, ImageContentType::Avif);
    assert_eq!(stored.file_name, "cat.avif");
    assert_eq!(stored.size_bytes, None);
    assert_eq!(stored.object_key, "ingest/01D39ZY06FGSCTVN4T2V9PKHFZ");
    assert_eq!(stored.created_at.secs(), 1_700_000_000);
    assert_eq!(stored.created_at.nanos(), 42);
    assert_eq!(stored.updated_at.secs(), 1_700_000_000);
    assert_eq!(stored.updated_at.nanos(), 42);
}

#[test]
fn issue_under_an_id_that_is_taken_overwrites_the_record() {
    let mut sut = arrange_recording_executor();
    let id = "01D39ZY06FGSCTVN4T2V9PKHFZ";
    sut.issue(
        ImageId::new(id.to_string()),
        ImageContentType::Png,
        "first.png".to_string(),
        Timestamp::from_parts(1_700_000_000, 0).unwrap(),
    )
    .unwrap();

    sut.issue(
        ImageId::new(id.to_string()),
        ImageContentType::Gif,
        "second.gif".to_string(),
        Timestamp::from_parts(1_700_000_001, 0).unwrap(),
    )
    .unwrap();

    assert_eq!(sut.image_repository.len(), 1);
    let stored = sut
        .image_repository
        .find_by_id(&ImageId::new(id.to_string()))
        .unwrap()
        .unwrap();
    assert_eq!(stored.content_type, ImageContentType::Gif);
    assert_eq!(stored.file_name, "second.gif");
    assert_eq!(stored.created_at.secs(), 1_700_000_001);
}

#[test]
fn ulid_is_written_in_26_digits_of_base_32() {
    assert_eq!(ulid_text_of(0), "00000000000000000000000000");
    assert_eq!(ulid_text_of(1), "00000000000000000000000001");
    assert_eq!(ulid_text_of(31), "0000000000000000000000000Z");
    assert_eq!(ulid_text_of(32), "00000000000000000000000010");
    assert_eq!(ulid_text_of(u128::MAX), "7ZZZZZZZZZZZZZZZZZZZZZZZZZ");
    assert_eq!(
        ulid_text_of(1_873_526_660_931_231_682_191_479_120_471_901_695),
        "01D39ZY06FGSCTVN4T2V9PKHFZ"
    );
}

#[test]
fn fresh_ulid_texts_differ() {
    let first = fresh_ulid_text();
    let second = fresh_ulid_text();

    assert_eq!(first.len(), 26);
    assert!(first.chars().all(|c| CROCKFORD.contains(c)));
    assert_ne!(first, second);
}
