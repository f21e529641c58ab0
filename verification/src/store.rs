use std::collections::HashMap;
use vstd::prelude::*;
use vstd::slice::slice_to_vec;

use crate::error::AttachmentError;
use crate::hash::sha256_hex;
use crate::models::files::{File, FileView};
use crate::names::valid_name;

verus! {

/// The records and the blobs of a store, as plain values: the rows of the
/// record table in the order in which they were inserted, and the bytes of
/// each blob by its identifier.
pub struct StoreView {
    pub records: Seq<FileView>,
    pub blobs: Map<int, Seq<u8>>,
}

/// The first of `records` that is `wanted`, if any is.
pub open spec fn first_matching(records: Seq<FileView>, wanted: spec_fn(FileView) -> bool) -> Option<
    FileView,
>
    decreases records.len(),
{
    if records.len() == 0 {
        None
    } else {
        match first_matching(records.drop_last(), wanted) {
            Some(record) => Some(record),
            None => if wanted(records.last()) {
                Some(records.last())
            } else {
                None
            },
        }
    }
}

/// Records whose hash is `hash`.
pub open spec fn with_hash(hash: Seq<char>) -> spec_fn(FileView) -> bool {
    |record: FileView| record.hash == hash
}

/// Records whose identifier is `id`.
pub open spec fn with_id(id: int) -> spec_fn(FileView) -> bool {
    |record: FileView| record.id == id
}

impl StoreView {
    /// A store with no record and no blob.
    pub open spec fn empty() -> StoreView {
        StoreView { records: Seq::empty(), blobs: Map::empty() }
    }

    /// The first record with `hash`: the one whose blob a new upload of the
    /// same content shares.
    pub open spec fn find_by_hash(self, hash: Seq<char>) -> Option<FileView> {
        first_matching(self.records, with_hash(hash))
    }

    /// The record `id`.
    pub open spec fn get_by_id(self, id: int) -> Option<FileView> {
        first_matching(self.records, with_id(id))
    }

    /// The store with `bytes` written as blob `file_id`.
    pub open spec fn with_blob(self, file_id: int, bytes: Seq<u8>) -> StoreView {
        StoreView { blobs: self.blobs.insert(file_id, bytes), ..self }
    }

    /// The store with blob `file_id` removed.
    pub open spec fn without_blob(self, file_id: int) -> StoreView {
        StoreView { blobs: self.blobs.remove(file_id), ..self }
    }

    /// The store with `record` inserted.
    pub open spec fn with_record(self, record: FileView) -> StoreView {
        StoreView { records: self.records.push(record), ..self }
    }

    /// What holds of a store in which every upload ran to its end.
    ///
    /// - No two records have the same identifier.
    /// - Records with the same hash name the same blob.
    /// - The blob that a record names exists, and its bytes have the
    ///   record's hash.
    /// - The name of every record is valid.
    /// - Every blob was brought in by the record that carries its
    ///   identifier.
    pub open spec fn wf(self) -> bool {
        &&& forall|i: int, j: int|
            0 <= i < j < self.records.len() ==> self.records[i].id != self.records[j].id
        &&& forall|i: int, j: int|
            0 <= i < self.records.len() && 0 <= j < self.records.len() && self.records[i].hash
                == self.records[j].hash ==> self.records[i].file_id == self.records[j].file_id
        &&& forall|i: int|
            0 <= i < self.records.len() ==> {
                &&& self.blobs.contains_key(#[trigger] self.records[i].file_id)
                &&& sha256_hex(self.blobs[self.records[i].file_id]) == self.records[i].hash
            }
        &&& forall|i: int|
            0 <= i < self.records.len() ==> valid_name(#[trigger] self.records[i].name)
        &&& forall|file_id: int| #[trigger]
            self.blobs.contains_key(file_id) ==> self.introduces(file_id)
    }

    /// Whether a record brought blob `file_id` in: it has that identifier
    /// itself and names that blob.
    pub open spec fn introduces(self, file_id: int) -> bool {
        exists|i: int|
            0 <= i < self.records.len() && #[trigger] self.records[i].id == file_id
                && self.records[i].file_id == file_id
    }

    /// Whether no record and no blob has an identifier above `last`: a
    /// generator that continues after `last` then hands out none that the
    /// store holds.
    pub open spec fn below(self, last: int) -> bool {
        &&& forall|i: int| 0 <= i < self.records.len() ==> (#[trigger] self.records[i]).id <= last
        &&& forall|file_id: int| #[trigger] self.blobs.contains_key(file_id) ==> file_id <= last
    }
}

/// A first match is one of the records, is wanted, and comes before every
/// other record that is wanted; there is none only where no record is
/// wanted.
pub proof fn lemma_first_matching(records: Seq<FileView>, wanted: spec_fn(FileView) -> bool)
    ensures
        match first_matching(records, wanted) {
            Some(record) => exists|i: int|
                {
                    &&& 0 <= i < records.len()
                    &&& #[trigger] records[i] == record
                    &&& wanted(record)
                    &&& forall|j: int| 0 <= j < i ==> !wanted(#[trigger] records[j])
                },
            None => forall|i: int| 0 <= i < records.len() ==> !wanted(#[trigger] records[i]),
        },
    decreases records.len(),
{
    if records.len() > 0 {
        let front = records.drop_last();
        lemma_first_matching(front, wanted);
        match first_matching(front, wanted) {
            Some(record) => {
                let i = choose|i: int|
                    {
                        &&& 0 <= i < front.len()
                        &&& #[trigger] front[i] == record
                        &&& wanted(record)
                        &&& forall|j: int| 0 <= j < i ==> !wanted(#[trigger] front[j])
                    };
                assert(records[i] == record);
                assert forall|j: int| 0 <= j < i implies !wanted(#[trigger] records[j]) by {
                    assert(front[j] == records[j]);
                }
            },
            None => {
                assert forall|j: int| 0 <= j < records.len() - 1 implies !wanted(
                    #[trigger] records[j],
                ) by {
                    assert(front[j] == records[j]);
                }
                if wanted(records.last()) {
                    assert(records[records.len() - 1] == records.last());
                }
            },
        }
    }
}

/// A match among the first `k` records is the match among all of them.
pub proof fn lemma_first_matching_front(
    records: Seq<FileView>,
    wanted: spec_fn(FileView) -> bool,
    k: int,
)
    requires
        0 <= k <= records.len(),
        first_matching(records.take(k), wanted) is Some,
    ensures
        first_matching(records, wanted) == first_matching(records.take(k), wanted),
    decreases records.len() - k,
{
    if k < records.len() {
        assert(records.take(k + 1).drop_last() == records.take(k));
        lemma_first_matching_front(records, wanted, k + 1);
    } else {
        assert(records.take(k) == records);
    }
}

/// The records and blobs of the service, held in memory: the table of
/// records in the order of insertion, and the bytes of each blob under its
/// identifier.
pub struct Store {
    records: Vec<File>,
    blobs: HashMap<i64, Vec<u8>>,
}

impl View for Store {
    type V = StoreView;

    closed spec fn view(&self) -> StoreView {
        StoreView {
            records: self.records@.map_values(|record: File| record@),
            blobs: Map::new(
                |file_id: int|
                    i64::MIN <= file_id <= i64::MAX && self.blobs@.contains_key(file_id as i64),
                |file_id: int| self.blobs@[file_id as i64]@,
            ),
        }
    }
}

impl Store {
    /// A store with no record and no blob.
    pub fn new() -> (store: Store)
        ensures
            store@ == StoreView::empty(),
    {
        let store = Store { records: Vec::new(), blobs: HashMap::new() };
        assert(store@.records =~= Seq::empty());
        assert(store@.blobs =~= Map::empty());
        store
    }

    /// Writes `bytes` as blob `file_id`. A blob is written once: where one
    /// with that identifier exists, it stays as it is and the call fails.
    pub fn write_blob(&mut self, file_id: i64, bytes: &[u8]) -> (result: Result<
        (),
        AttachmentError,
    >)
        ensures
            old(self)@.blobs.contains_key(file_id as int) ==> {
                &&& result == Err::<(), AttachmentError>(AttachmentError::StorageFailure)
                &&& final(self)@ == old(self)@
            },
            !old(self)@.blobs.contains_key(file_id as int) ==> {
                &&& result is Ok
                &&& final(self)@ == old(self)@.with_blob(file_id as int, bytes@)
            },
    {
        if self.blobs.contains_key(&file_id) {
            return Err(AttachmentError::StorageFailure);
        }
        self.blobs.insert(file_id, slice_to_vec(bytes));
        assert(self@.blobs =~= old(self)@.blobs.insert(file_id as int, bytes@));
        Ok(())
    }

    /// The bytes of blob `file_id`, if it exists.
    pub fn open_blob(&self, file_id: i64) -> (bytes: Option<Vec<u8>>)
        ensures
            bytes is Some <==> self@.blobs.contains_key(file_id as int),
            bytes matches Some(b) ==> b@ == self@.blobs[file_id as int],
    {
        match self.blobs.get(&file_id) {
            Some(bytes) => Some(slice_to_vec(bytes.as_slice())),
            None => None,
        }
    }

    /// Removes blob `file_id`. The call fails where there is none.
    pub fn delete_blob(&mut self, file_id: i64) -> (result: Result<(), AttachmentError>)
        ensures
            old(self)@.blobs.contains_key(file_id as int) ==> {
                &&& result is Ok
                &&& final(self)@ == old(self)@.without_blob(file_id as int)
            },
            !old(self)@.blobs.contains_key(file_id as int) ==> {
                &&& result == Err::<(), AttachmentError>(AttachmentError::StorageFailure)
                &&& final(self)@ == old(self)@
            },
    {
        match self.blobs.remove(&file_id) {
            Some(_) => {
                assert(self@.blobs =~= old(self)@.blobs.remove(file_id as int));
                Ok(())
            },
            None => {
                assert(self@.blobs =~= old(self)@.blobs);
                Err(AttachmentError::StorageFailure)
            },
        }
    }

    /// The blob, content type and owner of the first record with `hash`.
    pub fn find_by_hash(&self, hash: &str) -> (found: Option<(i64, String, String)>)
        ensures
            found is Some <==> self@.find_by_hash(hash@) is Some,
            found matches Some((file_id, content_type, owner)) ==> {
                let first = self@.find_by_hash(hash@)->0;
                &&& file_id == first.file_id
                &&& content_type@ == first.content_type
                &&& owner@ == first.owner
            },
    {
        let wanted = hash.to_owned();
        let n = self.records.len();
        let mut i: usize = 0;
        while i < n
            invariant
                n == self.records.len(),
                i <= n,
                wanted@ == hash@,
                first_matching(self@.records.take(i as int), with_hash(hash@)) is None,
            decreases n - i,
        {
            assert(self@.records.take(i + 1).drop_last() == self@.records.take(i as int));
            if self.records[i].hash == wanted {
                proof {
                    lemma_first_matching_front(self@.records, with_hash(hash@), i + 1);
                }
                let record = &self.records[i];
                return Some((record.file_id, record.content_type.clone(), record.owner.clone()));
            }
            i = i + 1;
        }
        assert(self@.records.take(n as int) == self@.records);
        None
    }

    /// Inserts `record`. Identifiers are unique: where a record with that
    /// of `record` exists, nothing is inserted and the call fails.
    pub fn insert(&mut self, record: File) -> (result: Result<(), AttachmentError>)
        ensures
            old(self)@.get_by_id(record.id as int) is Some ==> {
                &&& result == Err::<(), AttachmentError>(AttachmentError::MetadataFailure)
                &&& final(self)@ == old(self)@
            },
            old(self)@.get_by_id(record.id as int) is None ==> {
                &&& result is Ok
                &&& final(self)@ == old(self)@.with_record(record@)
            },
    {
        if self.get_by_id(record.id).is_some() {
            return Err(AttachmentError::MetadataFailure);
        }
        self.records.push(record);
        assert(self@.records =~= old(self)@.records.push(record@));
        assert(self@.blobs =~= old(self)@.blobs);
        Ok(())
    }

    /// The record `id`, if there is one.
    pub fn get_by_id(&self, id: i64) -> (found: Option<File>)
        ensures
            found is Some <==> self@.get_by_id(id as int) is Some,
            found matches Some(record) ==> self@.get_by_id(id as int) == Some(record@),
    {
        let n = self.records.len();
        let mut i: usize = 0;
        while i < n
            invariant
                n == self.records.len(),
                i <= n,
                first_matching(self@.records.take(i as int), with_id(id as int)) is None,
            decreases n - i,
        {
            assert(self@.records.take(i + 1).drop_last() == self@.records.take(i as int));
            if self.records[i].id == id {
                proof {
                    lemma_first_matching_front(self@.records, with_id(id as int), i + 1);
                }
                return Some(self.records[i].clone());
            }
            i = i + 1;
        }
        assert(self@.records.take(n as int) == self@.records);
        None
    }

    /// The identifier that a generator for this store is to continue after:
    /// the largest among the records, or 0 where none is above 0.
    pub fn last_id(&self) -> (last: i64)
        ensures
            last >= 0,
            forall|i: int| 0 <= i < self@.records.len() ==> (#[trigger] self@.records[i]).id <= last,
            last == 0 || exists|i: int|
                0 <= i < self@.records.len() && (#[trigger] self@.records[i]).id == last,
            self@.wf() ==> self@.below(last as int),
    {
        let n = self.records.len();
        let mut last: i64 = 0;
        let mut i: usize = 0;
        while i < n
            invariant
                n == self.records.len(),
                i <= n,
                last >= 0,
                forall|k: int| 0 <= k < i ==> (#[trigger] self@.records[k]).id <= last,
                last == 0 || exists|k: int| 0 <= k < i && (#[trigger] self@.records[k]).id == last,
            decreases n - i,
        {
            if self.records[i].id > last {
                last = self.records[i].id;
                assert(self@.records[i as int].id == last);
            }
            i = i + 1;
        }
        proof {
            if self@.wf() {
                assert forall|file_id: int| #[trigger]
                    self@.blobs.contains_key(file_id) implies file_id <= last by {
                    assert(self@.introduces(file_id));
                }
            }
        }
        last
    }

    /// How many records the store holds.
    pub fn record_count(&self) -> (count: usize)
        ensures
            count == self@.records.len(),
    {
        self.records.len()
    }

    /// How many blobs the store holds.
    pub fn blob_count(&self) -> (count: usize)
        ensures
            count == self@.blobs.len(),
            self@.blobs.dom().finite(),
    {
        proof {
            self.lemma_blob_keys();
        }
        self.blobs.len()
    }

    /// The blobs of the view are those of the map, one for one.
    proof fn lemma_blob_keys(&self)
        ensures
            self@.blobs.dom().finite(),
            self@.blobs.len() == self.blobs@.len(),
    {
        let keys = self.blobs@.dom();
        let ids = keys.map(|file_id: i64| file_id as int);
        assert(ids =~= self@.blobs.dom()) by {
            assert forall|file_id: int| self@.blobs.dom().contains(file_id) implies ids.contains(
                file_id,
            ) by {
                assert(keys.contains(file_id as i64));
            }
        }
        vstd::set_lib::lemma_map_size(keys, ids, |file_id: i64| file_id as int);
        keys.lemma_map_finite(|file_id: i64| file_id as int);
    }
}

} // verus!
