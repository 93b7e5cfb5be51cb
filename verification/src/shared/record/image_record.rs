//! The record of one intended upload, its closed enumerations, and the store
//! that keeps such records.

use vstd::prelude::*;
use crate::shared::text::{join, str_eq};
use crate::shared::time::Timestamp;

verus! {

/// The identifier of an upload record: an opaque text, assigned once.
#[derive(Debug)]
pub struct ImageId(String);

impl View for ImageId {
    type V = Seq<char>;

    closed spec fn view(&self) -> Seq<char> {
        self.0@
    }
}

impl ImageId {
    pub fn new(id: String) -> (r: Self)
        ensures
            r@ == id@,
    {
        Self(id)
    }
}

impl Clone for ImageId {
    fn clone(&self) -> (r: Self)
        ensures
            r@ == self@,
    {
        Self(self.0.clone())
    }
}

impl AsRef<str> for ImageId {
    fn as_ref(&self) -> (r: &str)
        ensures
            r@ == self@,
    {
        self.0.as_str()
    }
}

impl vstd::std_specs::convert::FromSpecImpl<ImageId> for String {
    open spec fn obeys_from_spec() -> bool {
        false
    }

    open spec fn from_spec(id: ImageId) -> String {
        arbitrary()
    }
}

impl From<ImageId> for String {
    fn from(id: ImageId) -> (r: String)
        ensures
            r@ == id@,
    {
        id.0
    }
}

/// Where an upload stands. `Pending` is the state at creation; `Ready` and
/// `Failed` are final.
#[derive(Debug, Clone, Copy, PartialEq, Eq, Structural)]
pub enum ImageStatus {
    Pending,
    Ready,
    Failed,
}

impl ImageStatus {
    /// The stored form of the status.
    pub open spec fn text(self) -> Seq<char> {
        match self {
            ImageStatus::Pending => "Pending"@,
            ImageStatus::Ready => "Ready"@,
            ImageStatus::Failed => "Failed"@,
        }
    }

    /// The status whose stored form is `s`, if there is one.
    pub open spec fn parse(s: Seq<char>) -> Option<ImageStatus> {
        if s == "Pending"@ {
            Some(ImageStatus::Pending)
        } else if s == "Ready"@ {
            Some(ImageStatus::Ready)
        } else if s == "Failed"@ {
            Some(ImageStatus::Failed)
        } else {
            None
        }
    }

    /// Each status is the one that its stored form names.
    pub proof fn lemma_parse_text(self)
        ensures
            ImageStatus::parse(self.text()) == Some(self),
    {
        reveal_strlit("Pending");
        reveal_strlit("Ready");
        reveal_strlit("Failed");
        assert("Pending"@[0] == 'P');
        assert("Ready"@[0] == 'R');
        assert("Failed"@[0] == 'F');
    }

    /// A text names at most one status: what it parses to is written as that
    /// same text.
    pub proof fn lemma_text_parse(s: Seq<char>)
        ensures
            ImageStatus::parse(s) matches Some(v) ==> v.text() == s,
    {
    }
}

impl AsRef<str> for ImageStatus {
    fn as_ref(&self) -> (r: &str)
        ensures
            r@ == self.text(),
    {
        match self {
            ImageStatus::Pending => "Pending",
            ImageStatus::Ready => "Ready",
            ImageStatus::Failed => "Failed",
        }
    }
}

impl vstd::std_specs::convert::TryFromSpecImpl<&str> for ImageStatus {
    open spec fn obeys_try_from_spec() -> bool {
        false
    }

    open spec fn try_from_spec(s: &str) -> Result<Self, String> {
        arbitrary()
    }
}

impl TryFrom<&str> for ImageStatus {
    type Error = String;

    fn try_from(s: &str) -> (r: Result<Self, String>)
        ensures
            match r {
                Ok(v) => ImageStatus::parse(s@) == Some(v),
                Err(m) => ImageStatus::parse(s@) is None && m@ == "unknown image status: "@ + s@,
            },
    {
        if str_eq(s, "Pending") {
            Ok(ImageStatus::Pending)
        } else if str_eq(s, "Ready") {
            Ok(ImageStatus::Ready)
        } else if str_eq(s, "Failed") {
            Ok(ImageStatus::Failed)
        } else {
            Err(join("unknown image status: ", s))
        }
    }
}

/// The content types that can be ingested, each a canonical MIME string.
#[derive(Debug, Clone, Copy, PartialEq, Eq, Structural)]
pub enum ImageContentType {
    Jpeg,
    Png,
    WebP,
    Avif,
    Gif,
}

impl ImageContentType {
    /// The MIME string of the content type.
    pub open spec fn text(self) -> Seq<char> {
        match self {
            ImageContentType::Jpeg => "image/jpeg"@,
            ImageContentType::Png => "image/png"@,
            ImageContentType::WebP => "image/webp"@,
            ImageContentType::Avif => "image/avif"@,
            ImageContentType::Gif => "image/gif"@,
        }
    }

    /// The content type whose MIME string is exactly `s`, if there is one.
    pub open spec fn parse(s: Seq<char>) -> Option<ImageContentType> {
        if s == "image/jpeg"@ {
            Some(ImageContentType::Jpeg)
        } else if s == "image/png"@ {
            Some(ImageContentType::Png)
        } else if s == "image/webp"@ {
            Some(ImageContentType::WebP)
        } else if s == "image/avif"@ {
            Some(ImageContentType::Avif)
        } else if s == "image/gif"@ {
            Some(ImageContentType::Gif)
        } else {
            None
        }
    }

    /// Each content type is the one that its MIME string names.
    pub proof fn lemma_parse_text(self)
        ensures
            ImageContentType::parse(self.text()) == Some(self),
    {
        reveal_strlit("image/jpeg");
        reveal_strlit("image/png");
        reveal_strlit("image/webp");
        reveal_strlit("image/avif");
        reveal_strlit("image/gif");
        assert("image/jpeg"@[6] == 'j');
        assert("image/png"@[6] == 'p');
        assert("image/webp"@[6] == 'w');
        assert("image/avif"@[6] == 'a');
        assert("image/gif"@[6] == 'g');
    }

    /// A text names at most one content type: what it parses to is written as
    /// that same text.
    pub proof fn lemma_text_parse(s: Seq<char>)
        ensures
            ImageContentType::parse(s) matches Some(v) ==> v.text() == s,
    {
    }
}

impl AsRef<str> for ImageContentType {
    fn as_ref(&self) -> (r: &str)
        ensures
            r@ == self.text(),
    {
        match self {
            ImageContentType::Jpeg => "image/jpeg",
            ImageContentType::Png => "image/png",
            ImageContentType::WebP => "image/webp",
            ImageContentType::Avif => "image/avif",
            ImageContentType::Gif => "image/gif",
        }
    }
}

impl vstd::std_specs::convert::TryFromSpecImpl<&str> for ImageContentType {
    open spec fn obeys_try_from_spec() -> bool {
        false
    }

    open spec fn try_from_spec(s: &str) -> Result<Self, String> {
        arbitrary()
    }
}

impl TryFrom<&str> for ImageContentType {
    type Error = String;

    fn try_from(s: &str) -> (r: Result<Self, String>)
        ensures
            match r {
                Ok(v) => ImageContentType::parse(s@) == Some(v),
                Err(m) => ImageContentType::parse(s@) is None && m@
                    == "unknown image content type: "@ + s@,
            },
    {
        if str_eq(s, "image/jpeg") {
            Ok(ImageContentType::Jpeg)
        } else if str_eq(s, "image/png") {
            Ok(ImageContentType::Png)
        } else if str_eq(s, "image/webp") {
            Ok(ImageContentType::WebP)
        } else if str_eq(s, "image/avif") {
            Ok(ImageContentType::Avif)
        } else if str_eq(s, "image/gif") {
            Ok(ImageContentType::Gif)
        } else {
            Err(join("unknown image content type: ", s))
        }
    }
}

/// One intended upload, as it is kept in the store.
#[derive(Debug)]
pub struct ImageRecord {
    pub id: ImageId,
    pub status: ImageStatus,
    pub content_type: ImageContentType,
    pub file_name: String,
    pub size_bytes: Option<i64>,
    pub object_key: String,
    pub created_at: Timestamp,
    pub updated_at: Timestamp,
}

/// What a record holds, as mathematical values.
pub struct ImageRecordView {
    pub id: Seq<char>,
    pub status: ImageStatus,
    pub content_type: ImageContentType,
    pub file_name: Seq<char>,
    pub size_bytes: Option<i64>,
    pub object_key: Seq<char>,
    pub created_at: (i64, u32),
    pub updated_at: (i64, u32),
}

impl View for ImageRecord {
    type V = ImageRecordView;

    open spec fn view(&self) -> ImageRecordView {
        ImageRecordView {
            id: self.id@,
            status: self.status,
            content_type: self.content_type,
            file_name: self.file_name@,
            size_bytes: self.size_bytes,
            object_key: self.object_key@,
            created_at: self.created_at@,
            updated_at: self.updated_at@,
        }
    }
}

impl Clone for ImageRecord {
    fn clone(&self) -> (r: Self)
        ensures
            r@ == self@,
    {
        ImageRecord {
            id: self.id.clone(),
            status: self.status,
            content_type: self.content_type,
            file_name: self.file_name.clone(),
            size_bytes: self.size_bytes,
            object_key: self.object_key.clone(),
            created_at: self.created_at,
            updated_at: self.updated_at,
        }
    }
}

/// `sqlx::Error`, carried as the database driver hands it over. Nothing of its
/// inside is read.
#[verifier::external_type_specification]
#[verifier::external_body]
pub struct ExSqlxError(sqlx::Error);

/// The text that a `sqlx::Error` is written as through its `Display` impl.
pub uninterp spec fn sqlx_error_display(e: sqlx::Error) -> Seq<char>;

/// Calls `to_string` on a `sqlx::Error`, which writes it through its `Display`
/// impl. Claimed: the result is the named text, which the impl makes from the
/// error alone.
#[verifier::external_body]
fn sqlx_error_text(e: &sqlx::Error) -> (r: String)
    ensures
        r@ == sqlx_error_display(*e),
{
    e.to_string()
}

/// Why the store could not answer.
#[derive(Debug)]
pub enum RepositoryError {
    /// The database could not be reached or refused the query.
    Database(sqlx::Error),
    /// A stored value is outside the closed enumerations.
    DataMapping(String),
}

impl RepositoryError {
    /// The error in words.
    pub open spec fn text(self) -> Seq<char> {
        match self {
            RepositoryError::Database(e) => "database error: "@ + sqlx_error_display(e),
            RepositoryError::DataMapping(reason) => "data mapping error: "@ + reason@,
        }
    }

    /// The error in words.
    pub fn message(&self) -> (r: String)
        ensures
            r@ == self.text(),
    {
        match self {
            RepositoryError::Database(e) => {
                let detail = sqlx_error_text(e);
                join("database error: ", detail.as_str())
            },
            RepositoryError::DataMapping(m) => join("data mapping error: ", m.as_str()),
        }
    }
}

/// The record kept under `id`, if any.
pub open spec fn stored(records: Map<Seq<char>, ImageRecordView>, id: Seq<char>) -> Option<
    ImageRecordView,
> {
    if records.contains_key(id) {
        Some(records[id])
    } else {
        None
    }
}

/// The store after `record` was saved: kept under its own id, in place of
/// whatever was there.
pub open spec fn saved(
    records: Map<Seq<char>, ImageRecordView>,
    record: ImageRecordView,
) -> Map<Seq<char>, ImageRecordView> {
    records.insert(record.id, record)
}

/// Whether `id` is among `ids`.
pub open spec fn is_wanted(ids: Seq<ImageId>, id: Seq<char>) -> bool {
    exists|k: int| 0 <= k < ids.len() && (#[trigger] ids[k])@ == id
}

/// Whether `found` answers a batch lookup of `wanted` in `records`: it holds
/// only stored records that were asked for, each of them once, and misses
/// none of them. The order is left open.
pub open spec fn is_batch(
    found: Seq<ImageRecord>,
    records: Map<Seq<char>, ImageRecordView>,
    wanted: Seq<ImageId>,
) -> bool {
    &&& forall|i: int|
        0 <= i < found.len() ==> stored(records, (#[trigger] found[i]).id@) == Some(found[i]@)
    &&& forall|i: int| 0 <= i < found.len() ==> is_wanted(wanted, (#[trigger] found[i]).id@)
    &&& forall|k: int|
        0 <= k < wanted.len() && records.contains_key((#[trigger] wanted[k])@) ==> exists|i: int|
            0 <= i < found.len() && found[i].id@ == wanted[k]@
    &&& forall|i: int, j: int|
        0 <= i < j < found.len() ==> (#[trigger] found[i]).id@ != (#[trigger] found[j]).id@
}

/// A record that was saved is the one found under its id afterwards, field
/// for field.
pub proof fn lemma_saved_then_stored(records: Map<Seq<char>, ImageRecordView>, record: ImageRecordView)
    ensures
        stored(saved(records, record), record.id) == Some(record),
{
}

/// Saving a record leaves what is kept under every other id as it was.
pub proof fn lemma_saved_keeps_others(
    records: Map<Seq<char>, ImageRecordView>,
    record: ImageRecordView,
    other: Seq<char>,
)
    requires
        other != record.id,
    ensures
        stored(saved(records, record), other) == stored(records, other),
{
}

/// Persistence of upload records, keyed by id.
///
/// `records` is what the store holds. A call that fails promises nothing about
/// what a write has left behind. A store that is `infallible` never fails; one
/// that talks to a database is not. Which answers a store may give to a write
/// or a lookup is its own affair, told by `saves` and `finds`; what is promised
/// of every store is that its answer is one of them.
pub trait ImageRecordRepository {
    /// The stored records, each under its id. A store that does not say what
    /// it holds leaves this open.
    open spec fn records(&self) -> Map<Seq<char>, ImageRecordView> {
        arbitrary()
    }

    /// Whether no call on this store fails. A store does not claim so unless
    /// it says so.
    open spec fn infallible(&self) -> bool {
        false
    }

    /// Whether `outcome` is an answer of this store to a request to save
    /// `image`.
    open spec fn saves(&self, image: ImageRecordView, outcome: Result<(), RepositoryError>) -> bool {
        true
    }

    /// Whether `outcome` is an answer of this store to a lookup of `id`.
    open spec fn finds(
        &self,
        id: Seq<char>,
        outcome: Result<Option<ImageRecord>, RepositoryError>,
    ) -> bool {
        true
    }

    /// Inserts the record, or overwrites the one with the same id.
    fn save(&mut self, image: ImageRecord) -> (r: Result<(), RepositoryError>)
        ensures
            old(self).saves(image@, r),
            r is Ok ==> final(self).records() == saved(old(self).records(), image@),
            final(self).infallible() == old(self).infallible(),
            old(self).infallible() ==> r is Ok,
    ;

    /// The record with the given id; `None` where there is none.
    fn find_by_id(&self, id: &ImageId) -> (r: Result<Option<ImageRecord>, RepositoryError>)
        ensures
            self.finds(id@, r),
            r matches Ok(found) ==> match found {
                Some(record) => record.id@ == id@ && stored(self.records(), id@) == Some(record@),
                None => stored(self.records(), id@) is None,
            },
            self.infallible() ==> r is Ok,
    ;

    /// The records with the given ids, in no particular order; ids without a
    /// record are passed over.
    fn find_by_ids(&self, ids: &[ImageId]) -> (r: Result<Vec<ImageRecord>, RepositoryError>)
        ensures
            r matches Ok(found) ==> is_batch(found@, self.records(), ids@),
            self.infallible() ==> r is Ok,
    ;

    /// Loads the record with the given id, applies `modifier` and saves what it
    /// returns.
    ///
    /// A lookup that fails is the outcome, and nothing is written. Where there
    /// is no such record nothing is written either, and the call succeeds.
    /// Where there is one, the outcome is that of saving the changed record.
    fn update<F: FnOnce(ImageRecord) -> ImageRecord>(&mut self, id: &ImageId, modifier: F) -> (r:
        Result<(), RepositoryError>) where Self: Sized
        requires
            forall|record: ImageRecord| call_requires(modifier, (record,)),
        ensures
            exists|found: Result<Option<ImageRecord>, RepositoryError>| #[trigger]
                old(self).finds(id@, found) && match found {
                    Err(e) => r == Err::<(), RepositoryError>(e) && *final(self) == *old(self),
                    Ok(None) => r is Ok && stored(old(self).records(), id@) is None && *final(self)
                        == *old(self),
                    Ok(Some(before)) => stored(old(self).records(), id@) == Some(before@)
                        && exists|after: ImageRecord| #[trigger]
                            call_ensures(modifier, (before,), after) && old(self).saves(after@, r)
                            && (r is Ok ==> final(self).records() == saved(
                            old(self).records(),
                            after@,
                        )),
                },
            final(self).infallible() == old(self).infallible(),
            old(self).infallible() ==> r is Ok,
    {
        let found = self.find_by_id(id);
        match found {
            Err(e) => Err(e),
            Ok(None) => Ok(()),
            Ok(Some(image)) => {
                let changed = modifier(image);
                self.save(changed)
            },
        }
    }
}

} // verus!
