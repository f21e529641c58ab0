use vstd::prelude::*;

use crate::classify::{classify, has_webp_extension, riff_type};
use crate::error::AttachmentError;
use crate::fetch::{
    disposition_value, response_for, waiting, Disposition, Fetch, FetchAction, FetchActionView,
    FetchEvent, FetchPhase,
};
use crate::hash::sha256_hex;
use crate::id::IdGen;
use crate::names::{derived_name, supplied_view};
use crate::store::{Store, StoreView};
use crate::theorems::lemma_upload_keeps_store_well_formed;
use crate::upload::{
    start, Upload, UploadAction, UploadActionView, UploadEvent, UploadEventView, UploadPhase,
    UploadView,
};

verus! {

/// What a client is told of a record: the rest of it stays inside.
#[derive(Debug, PartialEq)]
pub struct FileData {
    pub id: i64,
    pub name: String,
    pub owner: String,
}

/// A `FileData` as plain values.
pub struct FileDataView {
    pub id: int,
    pub name: Seq<char>,
    pub owner: Seq<char>,
}

impl View for FileData {
    type V = FileDataView;

    open spec fn view(&self) -> FileDataView {
        FileDataView { id: self.id as int, name: self.name@, owner: self.owner@ }
    }
}

impl Clone for FileData {
    fn clone(&self) -> (copy: Self)
        ensures
            copy@ == self@,
    {
        FileData { id: self.id, name: self.name.clone(), owner: self.owner.clone() }
    }
}

/// The record of one upload. Several records may share one blob: `file_id`
/// names the blob that holds the uploaded bytes, and equals `id` only where
/// this upload brought the blob in.
#[derive(Debug, PartialEq)]
pub struct File {
    pub id: i64,
    pub file_id: i64,
    pub name: String,
    pub content_type: String,
    pub hash: String,
    pub owner: String,
}

/// A `File` as plain values.
pub struct FileView {
    pub id: int,
    pub file_id: int,
    pub name: Seq<char>,
    pub content_type: Seq<char>,
    pub hash: Seq<char>,
    pub owner: Seq<char>,
}

impl FileView {
    /// The part of the record that a client is told.
    pub open spec fn file_data(self) -> FileDataView {
        FileDataView { id: self.id, name: self.name, owner: self.owner }
    }
}

impl View for File {
    type V = FileView;

    open spec fn view(&self) -> FileView {
        FileView {
            id: self.id as int,
            file_id: self.file_id as int,
            name: self.name@,
            content_type: self.content_type@,
            hash: self.hash@,
            owner: self.owner@,
        }
    }
}

impl Clone for File {
    fn clone(&self) -> (copy: Self)
        ensures
            copy@ == self@,
    {
        File {
            id: self.id,
            file_id: self.file_id,
            name: self.name.clone(),
            content_type: self.content_type.clone(),
            hash: self.hash.clone(),
            owner: self.owner.clone(),
        }
    }
}

/// A file as a client sends it: the bytes, and the name the client gave
/// them, if it gave one.
#[derive(Debug, PartialEq)]
pub struct FileUpload {
    pub name: Option<String>,
    pub data: Vec<u8>,
}

impl FileUpload {
    /// The name that the client gave, as plain values.
    pub open spec fn supplied(&self) -> Option<Seq<char>> {
        match self.name {
            Some(name) => Some(name@),
            None => None,
        }
    }
}

/// A file as it is sent back: the bytes of the blob, the value of the
/// `Content-Disposition` header, and the content type.
#[derive(Debug, PartialEq)]
pub struct FetchResponse {
    pub file: Vec<u8>,
    pub disposition: String,
    pub content_type: String,
}

/// A `FetchResponse` as plain values.
pub struct FetchResponseView {
    pub file: Seq<u8>,
    pub disposition: Seq<char>,
    pub content_type: Seq<char>,
}

impl View for FetchResponse {
    type V = FetchResponseView;

    open spec fn view(&self) -> FetchResponseView {
        FetchResponseView {
            file: self.file@,
            disposition: self.disposition@,
            content_type: self.content_type@,
        }
    }
}

/// The outcome of an upload as plain values.
pub open spec fn created_view(result: Result<FileData, AttachmentError>) -> Result<
    FileDataView,
    AttachmentError,
> {
    match result {
        Ok(data) => Ok(data@),
        Err(error) => Err(error),
    }
}

/// The outcome of a retrieval as plain values.
pub open spec fn fetched_view(result: Result<FetchResponse, AttachmentError>) -> Result<
    FetchResponseView,
    AttachmentError,
> {
    match result {
        Ok(response) => Ok(response@),
        Err(error) => Err(error),
    }
}

/// Whether an upload of `data`, named `supplied` by the client and made by
/// `owner`, takes a store from `before` to `after` and a generator from
/// `last` to `last_after`, and ends in `result`.
///
/// - An upload that is refused at the start changes nothing and uses up no
///   identifier.
/// - Any other takes the next identifier, `last + 1`, and writes its bytes
///   as the blob of that identifier. Where that blob exists already, the
///   upload fails and nothing has changed.
/// - If a record has the hash of the bytes, the blob is removed again, and
///   the new record names the blob of the first such record and has its
///   content type.
/// - If none has it, the blob stays, and the new record names it. Its
///   content type is what classifying the bytes gave, which for a name that
///   ends in `.webp` is never the generic RIFF type.
/// - Where a record with the new identifier exists already, the upload
///   fails at the last step: no record is inserted, and in the case of a
///   new hash the blob that was written stays behind.
/// - The record carries the derived name, the hash of the bytes, and the
///   owner who uploads.
pub open spec fn creates(
    before: StoreView,
    last: int,
    data: Seq<u8>,
    supplied: Option<Seq<char>>,
    owner: Seq<char>,
    after: StoreView,
    last_after: int,
    result: Result<FileDataView, AttachmentError>,
) -> bool {
    let id = last + 1;
    let name = derived_name(supplied);
    let hash = sha256_hex(data);
    match start(data.len(), supplied, owner, id) {
        Err(error) => {
            &&& result == Err::<FileDataView, AttachmentError>(error)
            &&& after == before
            &&& last_after == last
        },
        Ok(_) => {
            &&& last_after == id
            &&& if before.blobs.contains_key(id) {
                &&& result == Err::<FileDataView, AttachmentError>(AttachmentError::StorageFailure)
                &&& after == before
            } else {
                match before.find_by_hash(hash) {
                    Some(first) => {
                        let record = FileView {
                            id,
                            file_id: first.file_id,
                            name,
                            content_type: first.content_type,
                            hash,
                            owner,
                        };
                        if before.get_by_id(id) is Some {
                            &&& result == Err::<FileDataView, AttachmentError>(
                                AttachmentError::MetadataFailure,
                            )
                            &&& after == before
                        } else {
                            &&& result == Ok::<FileDataView, AttachmentError>(record.file_data())
                            &&& after == before.with_record(record)
                        }
                    },
                    None => {
                        let stored = before.with_blob(id, data);
                        if before.get_by_id(id) is Some {
                            &&& result == Err::<FileDataView, AttachmentError>(
                                AttachmentError::MetadataFailure,
                            )
                            &&& after == stored
                        } else {
                            &&& result == Ok::<FileDataView, AttachmentError>(
                                FileDataView { id, name, owner },
                            )
                            &&& after.records.len() > 0
                            &&& after == stored.with_record(after.records.last())
                            &&& after.records.last() == FileView {
                                id,
                                file_id: id,
                                name,
                                content_type: after.records.last().content_type,
                                hash,
                                owner,
                            }
                            &&& has_webp_extension(name) ==> after.records.last().content_type
                                != riff_type()
                        }
                    },
                }
            }
        },
    }
}

/// What a retrieval of record `id` from `store` ends in: with no such
/// record it is not found; with a record whose blob is missing the store
/// has failed; otherwise the blob's bytes are sent under the record's
/// content type, with the record's name offered as the file name.
pub open spec fn fetched(store: StoreView, id: int, mode: Disposition) -> Result<
    FetchResponseView,
    AttachmentError,
> {
    match store.get_by_id(id) {
        None => Err(AttachmentError::NotFound),
        Some(record) => if store.blobs.contains_key(record.file_id) {
            Ok(
                FetchResponseView {
                    file: store.blobs[record.file_id],
                    disposition: disposition_value(mode, record.name),
                    content_type: record.content_type,
                },
            )
        } else {
            Err(AttachmentError::StorageFailure)
        },
    }
}

/// Whether `event` is what a store that goes from `before` to `after`
/// reports of `action`, asked for by an upload of `data`.
spec fn performs(
    before: StoreView,
    action: UploadActionView,
    data: Seq<u8>,
    after: StoreView,
    event: UploadEventView,
) -> bool {
    match action {
        UploadActionView::StoreCandidate { file_id } => if before.blobs.contains_key(file_id) {
            after == before && event == UploadEventView::Failed
        } else {
            after == before.with_blob(file_id, data) && event == (UploadEventView::CandidateStored {
                bytes: data,
            })
        },
        UploadActionView::FindByHash { hash } => {
            &&& after == before
            &&& event == match before.find_by_hash(hash) {
                Some(first) => UploadEventView::HashFound {
                    file_id: first.file_id,
                    content_type: first.content_type,
                    owner: first.owner,
                },
                None => UploadEventView::HashNotFound,
            }
        },
        UploadActionView::DiscardCandidate { file_id } => if before.blobs.contains_key(file_id) {
            after == before.without_blob(file_id) && event == UploadEventView::CandidateDiscarded
        } else {
            after == before && event == UploadEventView::Failed
        },
        UploadActionView::Classify { declared_name } => {
            &&& after == before
            &&& event matches UploadEventView::Classified { content_type }
            &&& has_webp_extension(declared_name) ==> content_type != riff_type()
        },
        UploadActionView::Insert { record } => if before.get_by_id(record.id) is Some {
            after == before && event == UploadEventView::Failed
        } else {
            after == before.with_record(record) && event == UploadEventView::Inserted
        },
        _ => after == before && event == UploadEventView::Failed,
    }
}

/// Carries out on `db` what an upload of `data` asks for.
fn perform(db: &mut Store, action: &UploadAction, data: &[u8]) -> (event: UploadEvent)
    ensures
        performs(old(db)@, action@, data@, final(db)@, event@),
{
    match action {
        UploadAction::StoreCandidate { file_id } => match db.write_blob(*file_id, data) {
            Ok(()) => match db.open_blob(*file_id) {
                Some(bytes) => UploadEvent::CandidateStored { bytes },
                None => UploadEvent::Failed,
            },
            Err(_) => UploadEvent::Failed,
        },
        UploadAction::FindByHash { hash } => match db.find_by_hash(hash.as_str()) {
            Some((file_id, content_type, owner)) => UploadEvent::HashFound {
                file_id,
                content_type,
                owner,
            },
            None => UploadEvent::HashNotFound,
        },
        UploadAction::DiscardCandidate { file_id } => match db.delete_blob(*file_id) {
            Ok(()) => UploadEvent::CandidateDiscarded,
            Err(_) => UploadEvent::Failed,
        },
        UploadAction::Classify { declared_name } => UploadEvent::Classified {
            content_type: classify(data, declared_name.as_str()),
        },
        UploadAction::Insert { record } => match db.insert(record.clone()) {
            Ok(()) => UploadEvent::Inserted,
            Err(_) => UploadEvent::Failed,
        },
        _ => UploadEvent::Failed,
    }
}

/// How many steps an upload in `phase` has before it at most.
spec fn steps_left(phase: UploadPhase) -> nat {
    match phase {
        UploadPhase::StoringCandidate => 5,
        UploadPhase::LookingUp => 4,
        UploadPhase::Discarding | UploadPhase::Classifying => 3,
        UploadPhase::Inserting => 2,
        UploadPhase::Completed | UploadPhase::Aborted(_) => 0,
    }
}

/// Whether an upload of `data` that began as `begun` on a store `before` is
/// where it should be, its store being `now`, its state `state` and the
/// action it asks for `action`.
spec fn on_course(
    before: StoreView,
    begun: FileView,
    data: Seq<u8>,
    now: StoreView,
    state: UploadView,
    action: UploadActionView,
) -> bool {
    let id = begun.id;
    let hash = sha256_hex(data);
    let hashed = FileView { hash, ..begun };
    let stored = before.with_blob(id, data);
    let found = before.find_by_hash(hash);
    let fresh = !before.blobs.contains_key(id);
    let settled = {
        &&& state.record == FileView {
            file_id: state.record.file_id,
            content_type: state.record.content_type,
            ..hashed
        }
        &&& match found {
            Some(first) => {
                &&& state.record.file_id == first.file_id
                &&& state.record.content_type == first.content_type
            },
            None => {
                &&& state.record.file_id == id
                &&& has_webp_extension(begun.name) ==> state.record.content_type != riff_type()
            },
        }
    };
    let kept = if found is Some {
        before
    } else {
        stored
    };
    match state.phase {
        UploadPhase::StoringCandidate => {
            &&& now == before
            &&& state.record == begun
            &&& action == UploadActionView::StoreCandidate { file_id: id }
        },
        UploadPhase::LookingUp => {
            &&& fresh
            &&& now == stored
            &&& state.record == hashed
            &&& action == UploadActionView::FindByHash { hash }
        },
        UploadPhase::Discarding => {
            &&& fresh
            &&& now == stored
            &&& found is Some
            &&& settled
            &&& action == UploadActionView::DiscardCandidate { file_id: id }
        },
        UploadPhase::Classifying => {
            &&& fresh
            &&& now == stored
            &&& found is None
            &&& state.record == hashed
            &&& action == UploadActionView::Classify { declared_name: begun.name }
        },
        UploadPhase::Inserting => {
            &&& fresh
            &&& now == kept
            &&& settled
            &&& action == UploadActionView::Insert { record: state.record }
        },
        UploadPhase::Completed => {
            &&& fresh
            &&& before.get_by_id(id) is None
            &&& now == kept.with_record(state.record)
            &&& settled
            &&& action == UploadActionView::Complete { data: state.record.file_data() }
        },
        UploadPhase::Aborted(error) => {
            &&& action == UploadActionView::Abort { error }
            &&& if fresh {
                &&& error == AttachmentError::MetadataFailure
                &&& before.get_by_id(id) is Some
                &&& now == kept
            } else {
                &&& error == AttachmentError::StorageFailure
                &&& now == before
            }
        },
    }
}

impl File {
    /// Takes an upload in: derives its name, gives it the next identifier,
    /// stores its bytes unless a blob with the same hash is stored already,
    /// and records it in `db` for `owner`.
    ///
    /// On a store that is well formed and holds no identifier above the
    /// generator's last, the upload fails only if it is empty or its name is
    /// too long, and the store stays well formed and below the generator.
    pub fn create(file: FileUpload, id_generator: &mut IdGen, owner: String, db: &mut Store) -> (result:
        Result<FileData, AttachmentError>)
        requires
            old(id_generator).last() < i64::MAX,
        ensures
            creates(
                old(db)@,
                old(id_generator).last() as int,
                file.data@,
                file.supplied(),
                owner@,
                final(db)@,
                final(id_generator).last() as int,
                created_view(result),
            ),
            old(db)@.wf() && old(db)@.below(old(id_generator).last() as int) ==> {
                &&& final(db)@.wf()
                &&& final(db)@.below(final(id_generator).last() as int)
                &&& result is Ok <==> start(
                    file.data@.len(),
                    file.supplied(),
                    owner@,
                    old(id_generator).last() + 1,
                ) is Ok
            },
    {
        let supplied: Option<&str> = match &file.name {
            Some(name) => Some(name.as_str()),
            None => None,
        };
        assert(supplied_view(supplied) == file.supplied());
        let size: usize = file.data.len();
        let ghost before = db@;
        let ghost last = id_generator.last() as int;
        let ghost owner_view = owner@;
        let result = match Upload::begin(size as u64, supplied, owner, id_generator) {
            Err(error) => Err(error),
            Ok((mut upload, mut action)) => {
                let ghost begun = upload@.record;
                let mut outcome: Result<FileData, AttachmentError> = Err(
                    AttachmentError::StorageFailure,
                );
                loop
                    invariant_except_break
                        on_course(before, begun, file.data@, db@, upload@, action@),
                    invariant
                        id_generator.last() == last + 1,
                        start(file.data@.len(), file.supplied(), owner_view, last + 1) == Ok::<
                            UploadView,
                            AttachmentError,
                        >(UploadView { phase: UploadPhase::StoringCandidate, record: begun }),
                    ensures
                        creates(
                            before,
                            last,
                            file.data@,
                            file.supplied(),
                            owner_view,
                            db@,
                            last + 1,
                            created_view(outcome),
                        ),
                    decreases steps_left(upload@.phase),
                {
                    match action {
                        UploadAction::Complete { data } => {
                            proof {
                                if before.find_by_hash(sha256_hex(file.data@)) is None {
                                    assert(db@.records.last() == upload@.record);
                                }
                            }
                            outcome = Ok(data);
                            break ;
                        },
                        UploadAction::Abort { error } => {
                            outcome = Err(error);
                            break ;
                        },
                        _ => {},
                    }
                    let event = perform(db, &action, file.data.as_slice());
                    proof {
                        let id = begun.id;
                        assert(before.with_blob(id, file.data@).without_blob(id).blobs
                            =~= before.blobs.remove(id));
                        if !before.blobs.contains_key(id) {
                            assert(before.blobs.remove(id) =~= before.blobs);
                        }
                    }
                    action = upload.step(event);
                }
                outcome
            },
        };
        proof {
            if before.wf() && before.below(last) {
                lemma_upload_keeps_store_well_formed(
                    before,
                    last,
                    file.data@,
                    file.supplied(),
                    owner_view,
                    db@,
                    id_generator.last() as int,
                    created_view(result),
                );
            }
        }
        result
    }

    /// The record `id`, if `db` holds one.
    pub fn get(id: i64, db: &Store) -> (found: Option<File>)
        ensures
            found is Some <==> db@.get_by_id(id as int) is Some,
            found matches Some(record) ==> db@.get_by_id(id as int) == Some(record@),
    {
        db.get_by_id(id)
    }

    /// Retrieves the file of record `id` to be shown in place.
    pub fn fetch_file(id: i64, db: &Store) -> (result: Result<FetchResponse, AttachmentError>)
        ensures
            fetched_view(result) == fetched(db@, id as int, Disposition::Inline),
    {
        Self::fetch(id, db, Disposition::Inline)
    }

    /// Retrieves the file of record `id` to be saved.
    pub fn fetch_file_download(id: i64, db: &Store) -> (result: Result<
        FetchResponse,
        AttachmentError,
    >)
        ensures
            fetched_view(result) == fetched(db@, id as int, Disposition::Attachment),
    {
        Self::fetch(id, db, Disposition::Attachment)
    }

    /// What a client is told of record `id`.
    pub fn fetch_file_data(id: i64, db: &Store) -> (result: Result<FileData, AttachmentError>)
        ensures
            created_view(result) == match db@.get_by_id(id as int) {
                Some(record) => Ok::<FileDataView, AttachmentError>(record.file_data()),
                None => Err::<FileDataView, AttachmentError>(AttachmentError::NotFound),
            },
    {
        match Self::get(id, db) {
            Some(record) => Ok(record.get_file_data()),
            None => Err(AttachmentError::NotFound),
        }
    }

    /// The part of the record that a client is told.
    pub fn get_file_data(self) -> (data: FileData)
        ensures
            data@ == self@.file_data(),
    {
        FileData { id: self.id, name: self.name, owner: self.owner }
    }

    /// Retrieves the file of record `id`, to be served as `mode` asks.
    fn fetch(id: i64, db: &Store, mode: Disposition) -> (result: Result<
        FetchResponse,
        AttachmentError,
    >)
        ensures
            fetched_view(result) == fetched(db@, id as int, mode),
    {
        let (mut fetch, mut action) = Fetch::begin(id, mode);
        let mut opened: Option<Vec<u8>> = None;
        loop
            invariant
                fetch@.id == id,
                fetch@.mode == mode,
                match fetch@.phase {
                    FetchPhase::LookingUp => {
                        &&& fetch@ == waiting(id as int, mode)
                        &&& action@ == FetchActionView::FindRecord { id: id as int }
                    },
                    FetchPhase::Opening => {
                        &&& db@.get_by_id(id as int) is Some
                        &&& fetch@.record == db@.get_by_id(id as int)
                        &&& action@ == FetchActionView::OpenBlob {
                            file_id: db@.get_by_id(id as int)->0.file_id,
                        }
                    },
                    FetchPhase::Served => {
                        &&& db@.get_by_id(id as int) matches Some(record)
                        &&& db@.blobs.contains_key(record.file_id)
                        &&& opened matches Some(bytes)
                        &&& bytes@ == db@.blobs[record.file_id]
                        &&& action@ == response_for(record, mode)
                    },
                    FetchPhase::Aborted(error) => {
                        &&& fetched(db@, id as int, mode) == Err::<
                            FetchResponseView,
                            AttachmentError,
                        >(error)
                        &&& action@ matches FetchActionView::Abort { error: e } ==> e == error
                        &&& action@ matches FetchActionView::ReportMissingBlob { error: e, .. }
                            ==> e == error
                        &&& action@ is Abort || action@ is ReportMissingBlob
                    },
                },
            decreases
                    match fetch@.phase {
                        FetchPhase::LookingUp => 2nat,
                        FetchPhase::Opening => 1nat,
                        _ => 0nat,
                    },
        {
            let event = match action {
                FetchAction::FindRecord { id } => match db.get_by_id(id) {
                    Some(record) => FetchEvent::RecordFound { record },
                    None => FetchEvent::RecordMissing,
                },
                FetchAction::OpenBlob { file_id } => match db.open_blob(file_id) {
                    Some(bytes) => {
                        opened = Some(bytes);
                        FetchEvent::BlobOpened
                    },
                    None => FetchEvent::BlobMissing,
                },
                FetchAction::Respond { disposition, content_type } => {
                    return match opened {
                        Some(file) => Ok(FetchResponse { file, disposition, content_type }),
                        None => Err(AttachmentError::StorageFailure),
                    };
                },
                FetchAction::ReportMissingBlob { id: _, name: _, error } => {
                    return Err(error);
                },
                FetchAction::Abort { error } => {
                    return Err(error);
                },
            };
            action = fetch.step(event);
        }
    }
}

} // verus!
