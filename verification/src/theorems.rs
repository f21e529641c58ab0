use vstd::prelude::*;

use crate::error::AttachmentError;
use crate::fetch::{disposition_value, Disposition};
use crate::hash::sha256_hex;
use crate::models::files::{creates, fetched, FetchResponseView, FileDataView};
use crate::names::{derived_name, lemma_derived_name_is_one_component};
use crate::store::{lemma_first_matching, with_hash, with_id, StoreView};
use crate::upload::start;

verus! {

/// Whether every blob of `store` that has the hash of `data` holds `data`
/// itself: no other content with the same hash was stored before.
pub open spec fn no_collision(store: StoreView, data: Seq<u8>) -> bool {
    forall|file_id: int| #[trigger]
        store.blobs.contains_key(file_id) && sha256_hex(store.blobs[file_id]) == sha256_hex(data)
            ==> store.blobs[file_id] == data
}

/// A store that holds no identifier above `last` has no record `last + 1`.
pub proof fn lemma_next_id_is_free(store: StoreView, last: int)
    requires
        store.below(last),
    ensures
        store.get_by_id(last + 1) is None,
        !store.blobs.contains_key(last + 1),
{
    lemma_first_matching(store.records, with_id(last + 1));
}

/// Among records with distinct identifiers, the record `id` is the one that
/// carries `id`, wherever it stands.
pub proof fn lemma_get_by_id(store: StoreView, i: int)
    requires
        0 <= i < store.records.len(),
        forall|a: int, b: int|
            0 <= a < b < store.records.len() ==> store.records[a].id != store.records[b].id,
    ensures
        store.get_by_id(store.records[i].id) == Some(store.records[i]),
{
    let id = store.records[i].id;
    lemma_first_matching(store.records, with_id(id));
    assert(with_id(id)(store.records[i]));
}

/// On a well-formed store that holds no identifier above the generator's
/// last, an upload fails only if it is refused at the start, for being empty
/// or for its name; and whether it fails or not, the store is well formed
/// afterwards and holds no identifier above the generator's last.
pub proof fn lemma_upload_keeps_store_well_formed(
    before: StoreView,
    last: int,
    data: Seq<u8>,
    supplied: Option<Seq<char>>,
    owner: Seq<char>,
    after: StoreView,
    last_after: int,
    result: Result<FileDataView, AttachmentError>,
)
    requires
        before.wf(),
        before.below(last),
        creates(before, last, data, supplied, owner, after, last_after, result),
    ensures
        after.wf(),
        after.below(last_after),
        result is Ok <==> start(data.len(), supplied, owner, last + 1) is Ok,
        result is Ok ==> {
            &&& last_after == last + 1
            &&& after.records.len() == before.records.len() + 1
            &&& after.records.drop_last() == before.records
            &&& after.records.last().id == last + 1
            &&& result->Ok_0 == after.records.last().file_data()
        },
{
    let id = last + 1;
    let hash = sha256_hex(data);
    lemma_next_id_is_free(before, last);
    if start(data.len(), supplied, owner, id) is Ok {
        lemma_derived_name_is_one_component(supplied);
        lemma_first_matching(before.records, with_hash(hash));
        let record = after.records.last();
        match before.find_by_hash(hash) {
            Some(first) => {
                assert(after == before.with_record(record));
                let k = choose|k: int|
                    0 <= k < before.records.len() && #[trigger] before.records[k] == first;
                assert(after.records.drop_last() =~= before.records);
                assert forall|i: int, j: int|
                    0 <= i < after.records.len() && 0 <= j < after.records.len()
                        && after.records[i].hash == after.records[j].hash implies after.records[i].file_id
                    == after.records[j].file_id by {
                    let m = before.records.len() as int;
                    assert(before.records[k].hash == hash);
                    if i < m && j < m {
                        assert(before.records[i].file_id == before.records[j].file_id);
                    } else if i < m {
                        assert(before.records[i].file_id == before.records[k].file_id);
                    } else if j < m {
                        assert(before.records[j].file_id == before.records[k].file_id);
                    }
                }
                assert forall|i: int| 0 <= i < after.records.len() implies {
                    &&& after.blobs.contains_key(#[trigger] after.records[i].file_id)
                    &&& sha256_hex(after.blobs[after.records[i].file_id]) == after.records[i].hash
                } by {
                    if i == before.records.len() {
                        assert(before.blobs.contains_key(before.records[k].file_id));
                    } else {
                        assert(before.blobs.contains_key(before.records[i].file_id));
                    }
                }
                assert forall|file_id: int| #[trigger]
                    after.blobs.contains_key(file_id) implies after.introduces(file_id) by {
                    assert(before.introduces(file_id));
                    let w = choose|w: int|
                        0 <= w < before.records.len() && #[trigger] before.records[w].id == file_id
                            && before.records[w].file_id == file_id;
                    assert(after.records[w].id == file_id);
                }
            },
            None => {
                assert(after == before.with_blob(id, data).with_record(record));
                assert(after.records.drop_last() =~= before.records);
                assert forall|i: int| 0 <= i < after.records.len() implies {
                    &&& after.blobs.contains_key(#[trigger] after.records[i].file_id)
                    &&& sha256_hex(after.blobs[after.records[i].file_id]) == after.records[i].hash
                } by {
                    if i < before.records.len() {
                        assert(before.blobs.contains_key(before.records[i].file_id));
                    }
                }
                assert forall|i: int, j: int|
                    0 <= i < after.records.len() && 0 <= j < after.records.len()
                        && after.records[i].hash == after.records[j].hash implies after.records[i].file_id
                    == after.records[j].file_id by {
                    if i < before.records.len() {
                        assert(!with_hash(hash)(before.records[i]));
                    }
                    if j < before.records.len() {
                        assert(!with_hash(hash)(before.records[j]));
                    }
                }
                assert forall|file_id: int| #[trigger]
                    after.blobs.contains_key(file_id) implies after.introduces(file_id) by {
                    if file_id == id {
                        assert(after.records[before.records.len() as int].id == id);
                    } else {
                        assert(before.introduces(file_id));
                        let w = choose|w: int|
                            0 <= w < before.records.len() && #[trigger] before.records[w].id
                                == file_id && before.records[w].file_id == file_id;
                        assert(after.records[w].id == file_id);
                    }
                }
            },
        }
    }
}

/// Nothing that is stored is changed or removed by an upload, whether it
/// goes through or not: the records that were there are still the first
/// records, each blob that was there still holds the same bytes, every
/// record that could be found is found unchanged, and what could be
/// retrieved is retrieved as before.
pub proof fn lemma_upload_keeps_what_was_stored(
    before: StoreView,
    last: int,
    data: Seq<u8>,
    supplied: Option<Seq<char>>,
    owner: Seq<char>,
    after: StoreView,
    last_after: int,
    result: Result<FileDataView, AttachmentError>,
    id: int,
    mode: Disposition,
)
    requires
        creates(before, last, data, supplied, owner, after, last_after, result),
    ensures
        before.records.is_prefix_of(after.records),
        before.blobs.submap_of(after.blobs),
        last <= last_after,
        before.get_by_id(id) is Some ==> after.get_by_id(id) == before.get_by_id(id),
        fetched(before, id, mode) is Ok ==> fetched(after, id, mode) == fetched(before, id, mode),
{
    if after.records.len() == before.records.len() + 1 {
        assert(after.records.drop_last() =~= before.records);
    }
}

/// An upload without bytes is refused as empty, whatever its name, and
/// leaves no trace: no record, no blob, and no identifier used up.
pub proof fn lemma_empty_upload_leaves_no_trace(
    before: StoreView,
    last: int,
    supplied: Option<Seq<char>>,
    owner: Seq<char>,
    after: StoreView,
    last_after: int,
    result: Result<FileDataView, AttachmentError>,
)
    requires
        creates(before, last, Seq::<u8>::empty(), supplied, owner, after, last_after, result),
    ensures
        result == Err::<FileDataView, AttachmentError>(AttachmentError::EmptyUpload),
        after == before,
        last_after == last,
{
}

/// Two uploads of the same bytes, one after the other and under whatever
/// names, give two records with different identifiers that name the same
/// blob. The second upload leaves the blobs as they were, and the store
/// holds exactly one blob with the hash of those bytes.
pub proof fn lemma_same_content_shares_one_blob(
    before: StoreView,
    last: int,
    data: Seq<u8>,
    first_name: Option<Seq<char>>,
    first_owner: Seq<char>,
    between: StoreView,
    last_between: int,
    first: FileDataView,
    second_name: Option<Seq<char>>,
    second_owner: Seq<char>,
    after: StoreView,
    last_after: int,
    second: FileDataView,
)
    requires
        before.wf(),
        before.below(last),
        creates(
            before,
            last,
            data,
            first_name,
            first_owner,
            between,
            last_between,
            Ok::<FileDataView, AttachmentError>(first),
        ),
        creates(
            between,
            last_between,
            data,
            second_name,
            second_owner,
            after,
            last_after,
            Ok::<FileDataView, AttachmentError>(second),
        ),
    ensures
        first.id != second.id,
        after.get_by_id(first.id) is Some,
        after.get_by_id(second.id) is Some,
        after.get_by_id(first.id)->0.file_id == after.get_by_id(second.id)->0.file_id,
        after.blobs == between.blobs,
        after.blobs.contains_key(after.get_by_id(first.id)->0.file_id),
        forall|file_id: int| #[trigger]
            after.blobs.contains_key(file_id) && sha256_hex(after.blobs[file_id]) == sha256_hex(
                data,
            ) ==> file_id == after.get_by_id(first.id)->0.file_id,
{
    let hash = sha256_hex(data);
    lemma_upload_keeps_store_well_formed(
        before,
        last,
        data,
        first_name,
        first_owner,
        between,
        last_between,
        Ok(first),
    );
    lemma_upload_keeps_store_well_formed(
        between,
        last_between,
        data,
        second_name,
        second_owner,
        after,
        last_after,
        Ok(second),
    );
    lemma_next_id_is_free(between, last_between);
    let n = after.records.len() as int;
    assert(after.records[n - 2] == between.records.last()) by {
        assert(after.records.drop_last()[n - 2] == after.records[n - 2]);
    }
    lemma_get_by_id(after, n - 2);
    lemma_get_by_id(after, n - 1);
    // The first upload left a record with the hash, so the second one found it.
    lemma_first_matching(between.records, with_hash(hash));
    assert(with_hash(hash)(between.records[n - 2])) by {
        lemma_first_matching(before.records, with_hash(hash));
    }
    assert(between.find_by_hash(hash) is Some);
    assert(after.blobs == between.blobs);
    assert forall|file_id: int| #[trigger]
        after.blobs.contains_key(file_id) && sha256_hex(after.blobs[file_id])
            == hash implies file_id == after.records[n - 2].file_id by {
        assert(after.introduces(file_id));
        let w = choose|w: int|
            0 <= w < after.records.len() && #[trigger] after.records[w].id == file_id
                && after.records[w].file_id == file_id;
        assert(after.blobs.contains_key(after.records[w].file_id));
        assert(after.records[w].hash == after.records[n - 2].hash);
    }
    assert(after.blobs.contains_key(after.records[n - 2].file_id));
}

/// What was uploaded comes back. After an upload of `data` that went
/// through, on a store that held no other content with the same hash, a
/// retrieval of the new record succeeds and returns `data`, byte for byte,
/// offered under the name derived for the upload, and with the content type
/// of the record: that of the first record with the same hash where there
/// was one.
pub proof fn lemma_upload_then_fetch(
    before: StoreView,
    last: int,
    data: Seq<u8>,
    supplied: Option<Seq<char>>,
    owner: Seq<char>,
    after: StoreView,
    last_after: int,
    uploaded: FileDataView,
    mode: Disposition,
)
    requires
        before.wf(),
        before.below(last),
        no_collision(before, data),
        creates(
            before,
            last,
            data,
            supplied,
            owner,
            after,
            last_after,
            Ok::<FileDataView, AttachmentError>(uploaded),
        ),
    ensures
        after.get_by_id(uploaded.id) is Some,
        fetched(after, uploaded.id, mode) == Ok::<FetchResponseView, AttachmentError>(
            FetchResponseView {
                file: data,
                disposition: disposition_value(mode, derived_name(supplied)),
                content_type: after.get_by_id(uploaded.id)->0.content_type,
            },
        ),
        before.find_by_hash(sha256_hex(data)) matches Some(known) ==> after.get_by_id(
            uploaded.id,
        )->0.content_type == known.content_type,
{
    let hash = sha256_hex(data);
    lemma_upload_keeps_store_well_formed(
        before,
        last,
        data,
        supplied,
        owner,
        after,
        last_after,
        Ok(uploaded),
    );
    lemma_next_id_is_free(before, last);
    let n = after.records.len() as int;
    lemma_get_by_id(after, n - 1);
    let record = after.records[n - 1];
    assert(after.blobs.contains_key(record.file_id));
    lemma_first_matching(before.records, with_hash(hash));
    if before.find_by_hash(hash) is Some {
        let known = before.find_by_hash(hash)->0;
        let k = choose|k: int|
            0 <= k < before.records.len() && #[trigger] before.records[k] == known;
        assert(before.blobs.contains_key(before.records[k].file_id));
    }
}

} // verus!
