//! The command that issues a presigned upload URL.
//!
//! The command validates its input, draws a fresh identifier, records the
//! intended upload as pending, and only then asks the object storage for the
//! URL. Nothing is written before the input has passed validation.

use vstd::prelude::*;
use vstd::string::StrSliceExecFns;
use vstd::string::StringExecFns;
use crate::feature::image::ingest::error::IngestError;
use crate::feature::image::ingest::error::StorageError;
use crate::feature::image::ingest::model::ImageStorage;
use crate::feature::image::ingest::model::PresignedIngestUrl;
use crate::feature::image::ingest::model::PresignedUploadUrl;
use crate::shared::identifier;
use crate::shared::record::image_record;
use crate::shared::record::image_record::ImageContentType;
use crate::shared::record::image_record::ImageId;
use crate::shared::record::image_record::ImageRecord;
use crate::shared::record::image_record::ImageRecordRepository;
use crate::shared::record::image_record::ImageRecordView;
use crate::shared::record::image_record::RepositoryError;
use crate::shared::record::image_record::ImageStatus;
use crate::shared::text::join;
use crate::shared::time::Timestamp;

verus! {

/// The longest file name that is accepted, in code points.
pub const MAX_FILE_NAME_CHARS: usize = 255;

/// The last of the control characters, none of which a file name may hold.
pub const LAST_CONTROL_CHAR: u32 = 31;

/// A fresh identifier for an upload record.
pub fn new_image_id() -> (id: ImageId)
    ensures
        identifier::is_ulid(id@),
        identifier::is_ulid_text(id@),
{
    ImageId::new(identifier::fresh_ulid_text())
}

/// Where the object of the record with the given id is stored.
pub open spec fn object_key(id: Seq<char>) -> Seq<char> {
    "ingest/"@ + id
}

/// Records with different ids have different object keys.
pub proof fn lemma_object_key_injective(a: Seq<char>, b: Seq<char>)
    requires
        object_key(a) == object_key(b),
    ensures
        a == b,
{
    let prefix = "ingest/"@;
    assert(a =~= (prefix + a).subrange(prefix.len() as int, (prefix + a).len() as int));
    assert(b =~= (prefix + b).subrange(prefix.len() as int, (prefix + b).len() as int));
}

/// Two identifiers that differ are written as different ids, and these have
/// different object keys. Whether two draws differ is the random source's
/// affair; whenever they do, so do the ids and the keys issued for them.
pub proof fn lemma_distinct_identifiers_distinct_keys(a: u128, b: u128)
    requires
        a != b,
    ensures
        identifier::ulid_text(a) != identifier::ulid_text(b),
        object_key(identifier::ulid_text(a)) != object_key(identifier::ulid_text(b)),
{
    if identifier::ulid_text(a) == identifier::ulid_text(b) {
        identifier::lemma_ulid_text_injective(a, b);
    }
    if object_key(identifier::ulid_text(a)) == object_key(identifier::ulid_text(b)) {
        lemma_object_key_injective(identifier::ulid_text(a), identifier::ulid_text(b));
    }
}

/// The object key of the record with the given id.
pub fn object_key_for(id: &ImageId) -> (key: String)
    ensures
        key@ == object_key(id@),
{
    join("ingest/", id.as_ref())
}

/// Whether the name holds a control character.
pub open spec fn has_control_char(name: Seq<char>) -> bool {
    exists|i: int| 0 <= i < name.len() && (#[trigger] name[i]) as u32 <= LAST_CONTROL_CHAR
}

/// Why a file name is refused, or `None` where it is accepted. A name must
/// not be empty, nor longer than 255 code points, nor hold a control
/// character; the first of these that fails is the one reported.
pub open spec fn file_name_fault(name: Seq<char>) -> Option<Seq<char>> {
    if name.len() == 0 {
        Some("file name must not be empty"@)
    } else if name.len() > MAX_FILE_NAME_CHARS {
        Some("file name must not exceed 255 characters"@)
    } else if has_control_char(name) {
        Some("file name must not contain control characters"@)
    } else {
        None
    }
}

/// Checks a file name, and says why where it is refused.
pub fn validate_file_name(file_name: &str) -> (r: Result<(), IngestError>)
    ensures
        match r {
            Ok(_) => file_name_fault(file_name@) is None,
            Err(IngestError::InvalidFileName(reason)) => file_name_fault(file_name@) == Some(
                reason@,
            ),
            Err(_) => false,
        },
{
    if file_name.is_empty() {
        return Err(IngestError::InvalidFileName(String::from_str("file name must not be empty")));
    }
    if file_name.unicode_len() > MAX_FILE_NAME_CHARS {
        return Err(
            IngestError::InvalidFileName(
                String::from_str("file name must not exceed 255 characters"),
            ),
        );
    }
    let mut found = false;
    for c in it: file_name.chars()
        invariant
            it.seq() == file_name@,
            found == exists|i: int|
                0 <= i < it.index() && (#[trigger] file_name@[i]) as u32 <= LAST_CONTROL_CHAR,
    {
        if (c as u32) <= LAST_CONTROL_CHAR {
            found = true;
        }
    }
    if found {
        return Err(
            IngestError::InvalidFileName(
                String::from_str("file name must not contain control characters"),
            ),
        );
    }
    Ok(())
}

/// The request to issue an upload URL for one image.
#[derive(Debug)]
pub struct CreateImageIngestPresignedUrlCommand {
    pub content_type: String,
    pub file_name: String,
}

impl CreateImageIngestPresignedUrlCommand {
    /// Whether the command passes validation.
    pub open spec fn is_valid(self) -> bool {
        ImageContentType::parse(self.content_type@) is Some && file_name_fault(self.file_name@)
            is None
    }
}

/// Validates a command: first the content type, which must be on the
/// allowlist letter for letter, then the file name. The first fault found is
/// the one reported; a command without fault yields its content type.
pub fn validate(command: &CreateImageIngestPresignedUrlCommand) -> (r: Result<
    ImageContentType,
    IngestError,
>)
    ensures
        match r {
            Ok(content_type) => {
                &&& command.is_valid()
                &&& ImageContentType::parse(command.content_type@) == Some(content_type)
            },
            Err(IngestError::UnsupportedContentType(value)) => {
                &&& ImageContentType::parse(command.content_type@) is None
                &&& value@ == command.content_type@
            },
            Err(IngestError::InvalidFileName(reason)) => {
                &&& ImageContentType::parse(command.content_type@) is Some
                &&& file_name_fault(command.file_name@) == Some(reason@)
            },
            Err(_) => false,
        },
{
    let content_type = match ImageContentType::try_from(command.content_type.as_str()) {
        Ok(content_type) => content_type,
        Err(_) => {
            return Err(IngestError::UnsupportedContentType(command.content_type.clone()));
        },
    };
    match validate_file_name(command.file_name.as_str()) {
        Ok(_) => Ok(content_type),
        Err(e) => Err(e),
    }
}

/// The record of an upload that was announced at `now` and has not arrived.
pub open spec fn pending_record(
    id: Seq<char>,
    content_type: ImageContentType,
    file_name: Seq<char>,
    now: (i64, u32),
) -> ImageRecordView {
    ImageRecordView {
        id,
        status: ImageStatus::Pending,
        content_type,
        file_name,
        size_bytes: None,
        object_key: object_key(id),
        created_at: now,
        updated_at: now,
    }
}

/// Makes the record of an upload that was announced at `now`.
pub fn new_pending_record(
    id: ImageId,
    content_type: ImageContentType,
    file_name: String,
    now: Timestamp,
) -> (record: ImageRecord)
    ensures
        record@ == pending_record(id@, content_type, file_name@, now@),
{
    let object_key = object_key_for(&id);
    ImageRecord {
        id,
        status: ImageStatus::Pending,
        content_type,
        file_name,
        size_bytes: None,
        object_key,
        created_at: now,
        updated_at: now,
    }
}

/// Whether the store holds exactly what it held before plus the pending
/// record of the command under the given id, written at some instant.
pub open spec fn recorded(
    before: Map<Seq<char>, ImageRecordView>,
    after: Map<Seq<char>, ImageRecordView>,
    id: Seq<char>,
    command: CreateImageIngestPresignedUrlCommand,
) -> bool {
    exists|now: (i64, u32)|
        after == image_record::saved(
            before,
            #[trigger] pending_record(
                id,
                ImageContentType::parse(command.content_type@)->Some_0,
                command.file_name@,
                now,
            ),
        )
}

/// Once a valid command is recorded under an id, the store holds under that id a
/// pending record of unknown size with the command's content type and file
/// name, whose object key is the id under the ingest prefix, and holds under
/// every other id what it held before.
pub proof fn lemma_recorded_is_stored(
    before: Map<Seq<char>, ImageRecordView>,
    after: Map<Seq<char>, ImageRecordView>,
    id: Seq<char>,
    command: CreateImageIngestPresignedUrlCommand,
)
    requires
        command.is_valid(),
        recorded(before, after, id, command),
    ensures
        image_record::stored(after, id) matches Some(record) && {
            &&& record.id == id
            &&& record.status == ImageStatus::Pending
            &&& Some(record.content_type) == ImageContentType::parse(command.content_type@)
            &&& record.file_name == command.file_name@
            &&& record.size_bytes is None
            &&& record.object_key == "ingest/"@ + id
            &&& record.created_at == record.updated_at
        },
        forall|other: Seq<char>|
            other != id ==> image_record::stored(after, other) == image_record::stored(
                before,
                other,
            ),
{
    let now = choose|now: (i64, u32)|
        after == image_record::saved(
            before,
            #[trigger] pending_record(
                id,
                ImageContentType::parse(command.content_type@)->Some_0,
                command.file_name@,
                now,
            ),
        );
    let record = pending_record(
        id,
        ImageContentType::parse(command.content_type@)->Some_0,
        command.file_name@,
        now,
    );
    image_record::lemma_saved_then_stored(before, record);
    assert forall|other: Seq<char>| other != id implies image_record::stored(after, other)
        == image_record::stored(before, other) by {
        image_record::lemma_saved_keeps_others(before, record, other);
    }
}

/// Issues presigned upload URLs against one bucket, recording each intended
/// upload in the store before the URL is asked for.
pub struct CreateImageIngestPresignedUrlCommandExecutor<R: ImageRecordRepository, S: ImageStorage> {
    pub image_repository: R,
    pub image_storage: S,
    pub bucket: String,
    pub expiry_secs: u64,
}

impl<R: ImageRecordRepository, S: ImageStorage> CreateImageIngestPresignedUrlCommandExecutor<R, S> {
    pub fn new(image_repository: R, image_storage: S, bucket: String, expiry_secs: u64) -> (r: Self)
        ensures
            r.image_repository == image_repository,
            r.image_storage == image_storage,
            r.bucket == bucket,
            r.expiry_secs == expiry_secs,
    {
        Self { image_repository, image_storage, bucket, expiry_secs }
    }

    /// Whether the store gave the error `e` when it was asked to save the
    /// pending record of the command under some fresh id, written at some
    /// instant.
    pub open spec fn refused(
        self,
        command: CreateImageIngestPresignedUrlCommand,
        e: RepositoryError,
    ) -> bool {
        exists|id: Seq<char>, now: (i64, u32)|
            identifier::is_ulid_text(id) && self.image_repository.saves(
                #[trigger] pending_record(
                    id,
                    ImageContentType::parse(command.content_type@)->Some_0,
                    command.file_name@,
                    now,
                ),
                Err(e),
            )
    }

    /// Whether the storage gave `outcome` when it was asked for an upload URL
    /// for the record with the given id, with this executor's bucket and
    /// expiry and the given content type.
    pub open spec fn asked(
        self,
        id: Seq<char>,
        content_type: Seq<char>,
        outcome: Result<PresignedUploadUrl, StorageError>,
    ) -> bool {
        self.image_storage.presigns(
            self.bucket@,
            object_key(id),
            content_type,
            self.expiry_secs,
            outcome,
        )
    }

    /// Records the upload of `file_name` as pending under `image_id`, written
    /// at `now`, and then asks the storage for the URL to upload it to.
    ///
    /// If the store fails, that is the outcome and the storage is not asked.
    /// Otherwise the record is kept whatever the storage answers, and the
    /// outcome is the storage's: its URL, or its failure.
    pub fn issue(
        &mut self,
        image_id: ImageId,
        content_type: ImageContentType,
        file_name: String,
        now: Timestamp,
    ) -> (r: Result<PresignedIngestUrl, IngestError>)
        ensures
            final(self).image_storage == old(self).image_storage,
            final(self).bucket == old(self).bucket,
            final(self).expiry_secs == old(self).expiry_secs,
            final(self).image_repository.infallible() == old(self).image_repository.infallible(),
            !(r matches Err(IngestError::Repository(_))) ==> final(self).image_repository.records()
                == image_record::saved(
                old(self).image_repository.records(),
                pending_record(image_id@, content_type, file_name@, now@),
            ),
            match r {
                Ok(issued) => {
                    &&& issued.image_id@ == image_id@
                    &&& old(self).asked(
                        image_id@,
                        content_type.text(),
                        Ok(
                            PresignedUploadUrl {
                                upload_url: issued.upload_url,
                                expires_at: issued.expires_at,
                            },
                        ),
                    )
                },
                Err(IngestError::Repository(e)) => {
                    &&& !old(self).image_repository.infallible()
                    &&& old(self).image_repository.saves(
                        pending_record(image_id@, content_type, file_name@, now@),
                        Err(e),
                    )
                },
                Err(IngestError::Storage(e)) => old(self).asked(
                    image_id@,
                    content_type.text(),
                    Err(e),
                ),
                Err(_) => false,
            },
    {
        let object_key = object_key_for(&image_id);
        let record = new_pending_record(image_id.clone(), content_type, file_name, now);
        match self.image_repository.save(record) {
            Ok(_) => {},
            Err(e) => {
                return Err(IngestError::Repository(e));
            },
        }
        let presigned = self.image_storage.generate_presigned_ingest_url(
            self.bucket.as_str(),
            object_key.as_str(),
            content_type.as_ref(),
            self.expiry_secs,
        );
        match presigned {
            Err(e) => Err(IngestError::Storage(e)),
            Ok(presigned_upload) => Ok(
                PresignedIngestUrl {
                    image_id,
                    upload_url: presigned_upload.upload_url,
                    expires_at: presigned_upload.expires_at,
                },
            ),
        }
    }

    /// Validates the command, records the intended upload and issues the URL.
    ///
    /// A command that fails validation is refused before anything is written.
    /// A valid one is recorded as pending under a fresh id; if the store
    /// fails, that is the outcome and the storage is not asked. Otherwise the
    /// outcome is the storage's: its URL under the fresh id, or its failure,
    /// which leaves the pending record behind.
    pub fn execute(&mut self, command: CreateImageIngestPresignedUrlCommand) -> (r: Result<
        PresignedIngestUrl,
        IngestError,
    >)
        ensures
            final(self).image_storage == old(self).image_storage,
            final(self).bucket == old(self).bucket,
            final(self).expiry_secs == old(self).expiry_secs,
            final(self).image_repository.infallible() == old(self).image_repository.infallible(),
            match r {
                Err(IngestError::UnsupportedContentType(value)) => {
                    &&& ImageContentType::parse(command.content_type@) is None
                    &&& value@ == command.content_type@
                    &&& final(self).image_repository == old(self).image_repository
                },
                Err(IngestError::InvalidFileName(reason)) => {
                    &&& ImageContentType::parse(command.content_type@) is Some
                    &&& file_name_fault(command.file_name@) == Some(reason@)
                    &&& final(self).image_repository == old(self).image_repository
                },
                Err(IngestError::Repository(e)) => {
                    &&& command.is_valid()
                    &&& !old(self).image_repository.infallible()
                    &&& old(self).refused(command, e)
                },
                Err(IngestError::Storage(e)) => {
                    &&& command.is_valid()
                    &&& exists|id: Seq<char>|
                        {
                            &&& identifier::is_ulid_text(id)
                            &&& #[trigger] old(self).asked(id, command.content_type@, Err(e))
                            &&& recorded(
                                old(self).image_repository.records(),
                                final(self).image_repository.records(),
                                id,
                                command,
                            )
                        }
                },
                Ok(issued) => {
                    &&& command.is_valid()
                    &&& identifier::is_ulid(issued.image_id@)
                    &&& identifier::is_ulid_text(issued.image_id@)
                    &&& issued.image_id@.len() > 0
                    &&& recorded(
                        old(self).image_repository.records(),
                        final(self).image_repository.records(),
                        issued.image_id@,
                        command,
                    )
                    &&& old(self).asked(
                        issued.image_id@,
                        command.content_type@,
                        Ok(
                            PresignedUploadUrl {
                                upload_url: issued.upload_url,
                                expires_at: issued.expires_at,
                            },
                        ),
                    )
                },
            },
    {
        let content_type = match validate(&command) {
            Ok(content_type) => content_type,
            Err(e) => {
                return Err(e);
            },
        };
        let image_id = new_image_id();
        let now = Timestamp::now();
        proof {
            ImageContentType::lemma_text_parse(command.content_type@);
        }
        let ghost id = image_id@;
        let r = self.issue(image_id, content_type, command.file_name, now);
        proof {
            if !(r matches Err(IngestError::Repository(_))) {
                assert(recorded(
                    old(self).image_repository.records(),
                    self.image_repository.records(),
                    id,
                    command,
                )) by {
                    assert(self.image_repository.records() == image_record::saved(
                        old(self).image_repository.records(),
                        pending_record(id, content_type, command.file_name@, now@),
                    ));
                }
            }
            assert(r matches Err(IngestError::Storage(e)) ==> old(self).asked(
                id,
                command.content_type@,
                Err(e),
            ));
        }
        r
    }
}

} // verus!
