//! The stored form of an upload record, and a store that keeps records in
//! memory.

use vstd::prelude::*;
use crate::shared::record::image_record::{
    ImageContentType,
    ImageId,
    ImageRecord,
    ImageRecordRepository,
    ImageRecordView,
    ImageStatus,
    RepositoryError,
};
use crate::shared::record::image_record;
use crate::shared::text::str_eq;
use crate::shared::time::Timestamp;

verus! {

/// One row of the store: the record with its enumerations written as text.
#[derive(Debug)]
pub struct ImageRecordDataModel {
    pub id: String,
    pub status: String,
    pub content_type: String,
    pub file_name: String,
    pub size_bytes: Option<i64>,
    pub object_key: String,
    pub created_at: Timestamp,
    pub updated_at: Timestamp,
}

/// What a row holds, as mathematical values.
pub struct ImageRecordRow {
    pub id: Seq<char>,
    pub status: Seq<char>,
    pub content_type: Seq<char>,
    pub file_name: Seq<char>,
    pub size_bytes: Option<i64>,
    pub object_key: Seq<char>,
    pub created_at: (i64, u32),
    pub updated_at: (i64, u32),
}

impl View for ImageRecordDataModel {
    type V = ImageRecordRow;

    open spec fn view(&self) -> ImageRecordRow {
        ImageRecordRow {
            id: self.id@,
            status: self.status@,
            content_type: self.content_type@,
            file_name: self.file_name@,
            size_bytes: self.size_bytes,
            object_key: self.object_key@,
            created_at: self.created_at@,
            updated_at: self.updated_at@,
        }
    }
}

/// The row that stores `record`.
pub open spec fn encode(record: ImageRecordView) -> ImageRecordRow {
    ImageRecordRow {
        id: record.id,
        status: record.status.text(),
        content_type: record.content_type.text(),
        file_name: record.file_name,
        size_bytes: record.size_bytes,
        object_key: record.object_key,
        created_at: record.created_at,
        updated_at: record.updated_at,
    }
}

/// The record that `row` stores, or the reason why it stores none: its status
/// or, if that is known, its content type is outside the closed enumeration.
pub open spec fn decode(row: ImageRecordRow) -> Result<ImageRecordView, Seq<char>> {
    match ImageStatus::parse(row.status) {
        None => Err("unknown image status: "@ + row.status),
        Some(status) => match ImageContentType::parse(row.content_type) {
            None => Err("unknown image content type: "@ + row.content_type),
            Some(content_type) => Ok(
                ImageRecordView {
                    id: row.id,
                    status,
                    content_type,
                    file_name: row.file_name,
                    size_bytes: row.size_bytes,
                    object_key: row.object_key,
                    created_at: row.created_at,
                    updated_at: row.updated_at,
                },
            ),
        },
    }
}

/// A record written to a row and read back is the same record, field for field.
pub proof fn lemma_decode_encode(record: ImageRecordView)
    ensures
        decode(encode(record)) == Ok::<ImageRecordView, Seq<char>>(record),
{
    record.status.lemma_parse_text();
    record.content_type.lemma_parse_text();
}

/// A row that stores a record is the row that this record is written to.
pub proof fn lemma_encode_decode(row: ImageRecordRow)
    ensures
        decode(row) matches Ok(record) ==> encode(record) == row,
{
    ImageStatus::lemma_text_parse(row.status);
    ImageContentType::lemma_text_parse(row.content_type);
}

impl vstd::std_specs::convert::FromSpecImpl<ImageRecord> for ImageRecordDataModel {
    open spec fn obeys_from_spec() -> bool {
        false
    }

    open spec fn from_spec(value: ImageRecord) -> ImageRecordDataModel {
        arbitrary()
    }
}

impl From<ImageRecord> for ImageRecordDataModel {
    fn from(value: ImageRecord) -> (r: ImageRecordDataModel)
        ensures
            r@ == encode(value@),
    {
        let status = value.status.as_ref().to_owned();
        let content_type = value.content_type.as_ref().to_owned();
        ImageRecordDataModel {
            id: String::from(value.id),
            status,
            content_type,
            file_name: value.file_name,
            size_bytes: value.size_bytes,
            object_key: value.object_key,
            created_at: value.created_at,
            updated_at: value.updated_at,
        }
    }
}

impl vstd::std_specs::convert::TryFromSpecImpl<ImageRecordDataModel> for ImageRecord {
    open spec fn obeys_try_from_spec() -> bool {
        false
    }

    open spec fn try_from_spec(value: ImageRecordDataModel) -> Result<Self, RepositoryError> {
        arbitrary()
    }
}

impl TryFrom<ImageRecordDataModel> for ImageRecord {
    type Error = RepositoryError;

    fn try_from(value: ImageRecordDataModel) -> (r: Result<Self, RepositoryError>)
        ensures
            match r {
                Ok(record) => decode(value@) == Ok::<ImageRecordView, Seq<char>>(record@),
                Err(RepositoryError::DataMapping(reason)) => decode(value@) == Err::<
                    ImageRecordView,
                    Seq<char>,
                >(reason@),
                Err(RepositoryError::Database(_)) => false,
            },
    {
        let status = match ImageStatus::try_from(value.status.as_str()) {
            Ok(status) => status,
            Err(reason) => {
                return Err(RepositoryError::DataMapping(reason));
            },
        };
        let content_type = match ImageContentType::try_from(value.content_type.as_str()) {
            Ok(content_type) => content_type,
            Err(reason) => {
                return Err(RepositoryError::DataMapping(reason));
            },
        };
        Ok(
            ImageRecord {
                id: ImageId::new(value.id),
                status,
                content_type,
                file_name: value.file_name,
                size_bytes: value.size_bytes,
                object_key: value.object_key,
                created_at: value.created_at,
                updated_at: value.updated_at,
            },
        )
    }
}

/// The record that a lookup found, decoded; a lookup that found nothing
/// stays so.
pub fn decode_row(row: Option<ImageRecordDataModel>) -> (r: Result<
    Option<ImageRecord>,
    RepositoryError,
>)
    ensures
        match r {
            Ok(None) => row is None,
            Ok(Some(record)) => row matches Some(found) && decode(found@) == Ok::<
                ImageRecordView,
                Seq<char>,
            >(record@),
            Err(RepositoryError::DataMapping(reason)) => row matches Some(found) && decode(found@)
                == Err::<ImageRecordView, Seq<char>>(reason@),
            Err(_) => false,
        },
{
    match row {
        None => Ok(None),
        Some(found) => match ImageRecord::try_from(found) {
            Ok(record) => Ok(Some(record)),
            Err(e) => Err(e),
        },
    }
}

/// The records that the rows store, in the rows' order. The first row that
/// stores none fails the whole, with its reason.
pub fn decode_rows(rows: Vec<ImageRecordDataModel>) -> (r: Result<Vec<ImageRecord>, RepositoryError>)
    ensures
        match r {
            Ok(records) => records@.len() == rows@.len() && forall|i: int|
                0 <= i < records@.len() ==> decode(rows@[i]@) == Ok::<ImageRecordView, Seq<char>>(
                    (#[trigger] records@[i])@,
                ),
            Err(RepositoryError::DataMapping(reason)) => exists|i: int|
                0 <= i < rows@.len() && decode((#[trigger] rows@[i])@) == Err::<
                    ImageRecordView,
                    Seq<char>,
                >(reason@) && forall|j: int| 0 <= j < i ==> decode((#[trigger] rows@[j])@) is Ok,
            Err(_) => false,
        },
{
    let ghost all = rows@;
    let mut records: Vec<ImageRecord> = Vec::new();
    for row in it: rows.into_iter()
        invariant
            it.seq() == all,
            records@.len() == it.index(),
            forall|i: int|
                0 <= i < records@.len() ==> decode(all[i]@) == Ok::<ImageRecordView, Seq<char>>(
                    (#[trigger] records@[i])@,
                ),
    {
        match ImageRecord::try_from(row) {
            Ok(record) => {
                records.push(record);
            },
            Err(e) => {
                proof {
                    let at = records@.len() as int;
                    assert(decode(all[at]@) is Err);
                    assert forall|j: int| 0 <= j < at implies decode((#[trigger] all[j])@) is Ok by {
                        assert(decode(all[j]@) == Ok::<ImageRecordView, Seq<char>>(records@[j]@));
                    }
                }
                return Err(e);
            },
        }
    }
    Ok(records)
}

/// Whether some entry has the given id.
spec fn has_entry(entries: Seq<ImageRecord>, id: Seq<char>) -> bool {
    exists|i: int| 0 <= i < entries.len() && (#[trigger] entries[i]).id@ == id
}

/// The place of an entry with the given id, where there is one.
spec fn entry_index(entries: Seq<ImageRecord>, id: Seq<char>) -> int {
    choose|i: int| 0 <= i < entries.len() && (#[trigger] entries[i]).id@ == id
}

/// Whether no two entries share an id.
spec fn distinct_ids(entries: Seq<ImageRecord>) -> bool {
    forall|i: int, j: int|
        0 <= i < j < entries.len() ==> (#[trigger] entries[i]).id@ != (#[trigger] entries[j]).id@
}

/// The entries as a map from id to record.
spec fn entries_map(entries: Seq<ImageRecord>) -> Map<Seq<char>, ImageRecordView> {
    Map::new(|id: Seq<char>| has_entry(entries, id), |id: Seq<char>| entries[entry_index(entries, id)]@)
}

proof fn lemma_entry_at(entries: Seq<ImageRecord>, i: int)
    requires
        distinct_ids(entries),
        0 <= i < entries.len(),
    ensures
        has_entry(entries, entries[i].id@),
        entry_index(entries, entries[i].id@) == i,
        entries_map(entries).contains_key(entries[i].id@),
        entries_map(entries)[entries[i].id@] == entries[i]@,
{
    let id = entries[i].id@;
    assert(has_entry(entries, id));
    let j = entry_index(entries, id);
    assert(0 <= j < entries.len() && entries[j].id@ == id);
    if j < i {
        assert(entries[j].id@ != entries[i].id@);
    } else if i < j {
        assert(entries[i].id@ != entries[j].id@);
    }
}

proof fn lemma_entries_pushed(entries: Seq<ImageRecord>, record: ImageRecord)
    requires
        distinct_ids(entries),
        !has_entry(entries, record.id@),
    ensures
        distinct_ids(entries.push(record)),
        entries_map(entries.push(record)) == entries_map(entries).insert(record.id@, record@),
{
    let next = entries.push(record);
    let last = entries.len() as int;
    assert forall|i: int, j: int| 0 <= i < j < next.len() implies (#[trigger] next[i]).id@ != (
    #[trigger] next[j]).id@ by {
        if j < last {
            assert(entries[i].id@ != entries[j].id@);
        } else {
            assert(entries[i].id@ != record.id@);
        }
    }
    assert forall|id: Seq<char>| has_entry(next, id) <==> (id == record.id@ || has_entry(entries, id)) by {
        if has_entry(next, id) {
            let i = entry_index(next, id);
            if i < last {
                assert(entries[i].id@ == id);
            }
        }
        if id == record.id@ {
            assert(next[last].id@ == id);
        }
        if has_entry(entries, id) {
            let i = entry_index(entries, id);
            assert(next[i].id@ == id);
        }
    }
    assert forall|id: Seq<char>| has_entry(next, id) implies #[trigger] entries_map(next)[id] == entries_map(
        entries,
    ).insert(record.id@, record@)[id] by {
        let i = entry_index(next, id);
        lemma_entry_at(next, i);
        if i < last {
            lemma_entry_at(entries, i);
        }
    }
    assert(entries_map(next) =~= entries_map(entries).insert(record.id@, record@));
}

proof fn lemma_entries_replaced(entries: Seq<ImageRecord>, at: int, record: ImageRecord)
    requires
        distinct_ids(entries),
        0 <= at < entries.len(),
        entries[at].id@ == record.id@,
    ensures
        distinct_ids(entries.update(at, record)),
        entries_map(entries.update(at, record)) == entries_map(entries).insert(record.id@, record@),
{
    let next = entries.update(at, record);
    assert forall|i: int, j: int| 0 <= i < j < next.len() implies (#[trigger] next[i]).id@ != (
    #[trigger] next[j]).id@ by {
        assert(entries[i].id@ != entries[j].id@);
    }
    assert forall|id: Seq<char>| has_entry(next, id) <==> (id == record.id@ || has_entry(entries, id)) by {
        if has_entry(next, id) {
            let i = entry_index(next, id);
            assert(entries[i].id@ == id);
        }
        if id == record.id@ {
            assert(next[at].id@ == id);
        }
        if has_entry(entries, id) {
            let i = entry_index(entries, id);
            assert(next[i].id@ == id);
        }
    }
    assert forall|id: Seq<char>| has_entry(next, id) implies #[trigger] entries_map(next)[id] == entries_map(
        entries,
    ).insert(record.id@, record@)[id] by {
        let i = entry_index(next, id);
        lemma_entry_at(next, i);
        if i != at {
            lemma_entry_at(entries, i);
        }
    }
    assert(entries_map(next) =~= entries_map(entries).insert(record.id@, record@));
}

/// A record store that lives in memory and never fails.
pub struct InMemoryImageRecordRepository {
    entries: Vec<ImageRecord>,
}

impl InMemoryImageRecordRepository {
    #[verifier::type_invariant]
    spec fn well_formed(self) -> bool {
        distinct_ids(self.entries@)
    }

    /// A store that holds nothing.
    pub fn new() -> (r: Self)
        ensures
            r.records() == Map::<Seq<char>, ImageRecordView>::empty(),
            r.infallible(),
    {
        let r = InMemoryImageRecordRepository { entries: Vec::new() };
        assert(r.records() =~= Map::<Seq<char>, ImageRecordView>::empty());
        r
    }

    /// How many records are kept.
    pub fn len(&self) -> (n: usize)
        ensures
            n == self.records().dom().len(),
            self.records().dom().finite(),
    {
        proof {
            use_type_invariant(self);
            lemma_entries_count(self.entries@);
        }
        self.entries.len()
    }

    fn position(&self, id: &ImageId) -> (r: Option<usize>)
        ensures
            match r {
                Some(i) => i < self.entries@.len() && self.entries@[i as int].id@ == id@,
                None => !has_entry(self.entries@, id@),
            },
    {
        let n = self.entries.len();
        let mut i: usize = 0;
        while i < n
            invariant
                n == self.entries@.len(),
                i <= n,
                forall|k: int| 0 <= k < i ==> (#[trigger] self.entries@[k]).id@ != id@,
            decreases n - i,
        {
            if str_eq(self.entries[i].id.as_ref(), id.as_ref()) {
                return Some(i);
            }
            i += 1;
        }
        None
    }
}

proof fn lemma_entries_count(entries: Seq<ImageRecord>)
    requires
        distinct_ids(entries),
    ensures
        entries_map(entries).dom().finite(),
        entries_map(entries).dom().len() == entries.len(),
    decreases entries.len(),
{
    if entries.len() == 0 {
        assert(entries_map(entries).dom() =~= Set::<Seq<char>>::empty());
    } else {
        let front = entries.drop_last();
        let last = entries.last();
        assert forall|i: int, j: int| 0 <= i < j < front.len() implies (#[trigger] front[i]).id@ != (
        #[trigger] front[j]).id@ by {
            assert(entries[i].id@ != entries[j].id@);
        }
        assert(!has_entry(front, last.id@)) by {
            if has_entry(front, last.id@) {
                let i = entry_index(front, last.id@);
                assert(entries[i].id@ != entries[entries.len() - 1].id@);
            }
        }
        lemma_entries_count(front);
        lemma_entries_pushed(front, last);
        assert(front.push(last) =~= entries);
        assert(entries_map(entries).dom() =~= entries_map(front).dom().insert(last.id@));
        assert(!entries_map(front).dom().contains(last.id@));
    }
}

fn wanted(ids: &[ImageId], id: &ImageId) -> (r: bool)
    ensures
        r == image_record::is_wanted(ids@, id@),
{
    let n = ids.len();
    let mut k: usize = 0;
    while k < n
        invariant
            n == ids@.len(),
            k <= n,
            forall|j: int| 0 <= j < k ==> (#[trigger] ids@[j])@ != id@,
        decreases n - k,
    {
        if str_eq(ids[k].as_ref(), id.as_ref()) {
            return true;
        }
        k += 1;
    }
    false
}

impl ImageRecordRepository for InMemoryImageRecordRepository {
    closed spec fn records(&self) -> Map<Seq<char>, ImageRecordView> {
        entries_map(self.entries@)
    }

    open spec fn infallible(&self) -> bool {
        true
    }

    open spec fn saves(&self, image: ImageRecordView, outcome: Result<(), RepositoryError>) -> bool {
        outcome is Ok
    }

    open spec fn finds(
        &self,
        id: Seq<char>,
        outcome: Result<Option<ImageRecord>, RepositoryError>,
    ) -> bool {
        outcome is Ok
    }

    fn save(&mut self, image: ImageRecord) -> (r: Result<(), RepositoryError>) {
        proof {
            use_type_invariant(&*self);
        }
        let at = self.position(&image.id);
        let mut entries: Vec<ImageRecord> = Vec::new();
        std::mem::swap(&mut self.entries, &mut entries);
        match at {
            Some(i) => {
                proof {
                    lemma_entries_replaced(entries@, i as int, image);
                }
                entries.set(i, image);
            },
            None => {
                proof {
                    lemma_entries_pushed(entries@, image);
                }
                entries.push(image);
            },
        }
        std::mem::swap(&mut self.entries, &mut entries);
        Ok(())
    }

    fn find_by_id(&self, id: &ImageId) -> (r: Result<Option<ImageRecord>, RepositoryError>) {
        proof {
            use_type_invariant(self);
        }
        match self.position(id) {
            Some(i) => {
                proof {
                    lemma_entry_at(self.entries@, i as int);
                }
                Ok(Some(self.entries[i].clone()))
            },
            None => Ok(None),
        }
    }

    fn find_by_ids(&self, ids: &[ImageId]) -> (r: Result<Vec<ImageRecord>, RepositoryError>) {
        proof {
            use_type_invariant(self);
        }
        let mut found: Vec<ImageRecord> = Vec::new();
        let ghost mut origin: Seq<int> = Seq::empty();
        let n = self.entries.len();
        let mut i: usize = 0;
        while i < n
            invariant
                n == self.entries@.len(),
                i <= n,
                distinct_ids(self.entries@),
                origin.len() == found@.len(),
                forall|a: int|
                    0 <= a < found@.len() ==> 0 <= #[trigger] origin[a] < i && found@[a]@
                        == self.entries@[origin[a]]@,
                forall|a: int, b: int|
                    0 <= a < b < found@.len() ==> #[trigger] origin[a] < #[trigger] origin[b],
                forall|a: int|
                    0 <= a < found@.len() ==> image_record::is_wanted(ids@, (#[trigger] found@[a]).id@),
                forall|e: int|
                    0 <= e < i && image_record::is_wanted(ids@, (#[trigger] self.entries@[e]).id@) ==> exists|
                        a: int,
                    | 0 <= a < found@.len() && #[trigger] origin[a] == e,
            decreases n - i,
        {
            let ghost before = origin;
            if wanted(ids, &self.entries[i].id) {
                let copy = self.entries[i].clone();
                proof {
                    origin = origin.push(i as int);
                }
                found.push(copy);
                assert(origin[found@.len() - 1] == i);
            }
            assert forall|e: int|
                0 <= e < i + 1 && image_record::is_wanted(ids@, (#[trigger] self.entries@[e]).id@) implies exists|
                a: int,
            | 0 <= a < found@.len() && #[trigger] origin[a] == e by {
                if e < i {
                    let a = choose|a: int| 0 <= a < before.len() && #[trigger] before[a] == e;
                    assert(origin[a] == e);
                } else {
                    assert(origin[found@.len() - 1] == e);
                }
            }
            i += 1;
        }
        proof {
            let records = self.records();
            assert forall|a: int| 0 <= a < found@.len() implies image_record::stored(
                records,
                (#[trigger] found@[a]).id@,
            ) == Some(found@[a]@) by {
                lemma_entry_at(self.entries@, origin[a]);
            }
            assert forall|k: int|
                0 <= k < ids@.len() && records.contains_key((#[trigger] ids@[k])@) implies exists|a: int|
                0 <= a < found@.len() && found@[a].id@ == ids@[k]@ by {
                let e = entry_index(self.entries@, ids@[k]@);
                assert(self.entries@[e].id@ == ids@[k]@);
                assert(image_record::is_wanted(ids@, self.entries@[e].id@));
                let a = choose|a: int| 0 <= a < found@.len() && #[trigger] origin[a] == e;
                assert(found@[a].id@ == ids@[k]@);
            }
            assert forall|a: int, b: int| 0 <= a < b < found@.len() implies (#[trigger] found@[a]).id@ != (
            #[trigger] found@[b]).id@ by {
                assert(origin[a] < origin[b]);
                assert(self.entries@[origin[a]].id@ != self.entries@[origin[b]].id@);
            }
        }
        Ok(found)
    }
}

} // verus!
