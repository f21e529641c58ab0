use vstd::prelude::*;

use crate::error::AttachmentError;
use crate::hash::{content_hash, sha256_hex};
use crate::id::IdGen;
use crate::models::files::{File, FileData, FileDataView, FileView};
use crate::names::{derived_name, sanitize_name, supplied_view, MAX_NAME_LEN};

verus! {

/// How far an upload has come: what it is waiting for, or how it ended.
#[derive(Debug, Clone, Copy, PartialEq, Eq, Structural)]
pub enum UploadPhase {
    /// The uploaded bytes are being written as the candidate blob and read
    /// back.
    StoringCandidate,
    /// The records are being searched for the hash of the bytes.
    LookingUp,
    /// The hash is known already: the candidate blob is being removed.
    Discarding,
    /// The hash is new: the bytes are being classified.
    Classifying,
    /// The record is being inserted.
    Inserting,
    /// The record is inserted.
    Completed,
    /// The upload was given up.
    Aborted(AttachmentError),
}

/// What the caller of an upload is asked to do next.
#[derive(Debug, PartialEq)]
pub enum UploadAction {
    /// Write the uploaded bytes as blob `file_id`, read the blob back, and
    /// report the bytes read.
    StoreCandidate { file_id: i64 },
    /// Search the records for `hash`, and report the blob, content type and
    /// owner of the first record that has it.
    FindByHash { hash: String },
    /// Remove blob `file_id`.
    DiscardCandidate { file_id: i64 },
    /// Classify the bytes read back, uploaded under `declared_name`, away
    /// from the tasks that serve other requests.
    Classify { declared_name: String },
    /// Insert `record`.
    Insert { record: File },
    /// Nothing more: the upload is recorded, and the client is told `data`.
    Complete { data: FileData },
    /// Nothing more: the upload was given up for `error`.
    Abort { error: AttachmentError },
}

/// An `UploadAction` as plain values.
pub enum UploadActionView {
    StoreCandidate { file_id: int },
    FindByHash { hash: Seq<char> },
    DiscardCandidate { file_id: int },
    Classify { declared_name: Seq<char> },
    Insert { record: FileView },
    Complete { data: FileDataView },
    Abort { error: AttachmentError },
}

impl View for UploadAction {
    type V = UploadActionView;

    open spec fn view(&self) -> UploadActionView {
        match self {
            UploadAction::StoreCandidate { file_id } => UploadActionView::StoreCandidate {
                file_id: *file_id as int,
            },
            UploadAction::FindByHash { hash } => UploadActionView::FindByHash { hash: hash@ },
            UploadAction::DiscardCandidate { file_id } => UploadActionView::DiscardCandidate {
                file_id: *file_id as int,
            },
            UploadAction::Classify { declared_name } => UploadActionView::Classify {
                declared_name: declared_name@,
            },
            UploadAction::Insert { record } => UploadActionView::Insert { record: record@ },
            UploadAction::Complete { data } => UploadActionView::Complete { data: data@ },
            UploadAction::Abort { error } => UploadActionView::Abort { error: *error },
        }
    }
}

/// What the caller of an upload reports of the action it was asked for.
#[derive(Debug, PartialEq)]
pub enum UploadEvent {
    /// The candidate blob is written, and `bytes` were read back from it.
    CandidateStored { bytes: Vec<u8> },
    /// A record with the hash exists: the first one names blob `file_id`,
    /// has type `content_type` and belongs to `owner`.
    HashFound { file_id: i64, content_type: String, owner: String },
    /// No record has the hash.
    HashNotFound,
    /// The candidate blob is removed.
    CandidateDiscarded,
    /// The bytes are of type `content_type`.
    Classified { content_type: String },
    /// The record is inserted.
    Inserted,
    /// The action could not be carried out.
    Failed,
}

/// An `UploadEvent` as plain values.
pub enum UploadEventView {
    CandidateStored { bytes: Seq<u8> },
    HashFound { file_id: int, content_type: Seq<char>, owner: Seq<char> },
    HashNotFound,
    CandidateDiscarded,
    Classified { content_type: Seq<char> },
    Inserted,
    Failed,
}

impl View for UploadEvent {
    type V = UploadEventView;

    open spec fn view(&self) -> UploadEventView {
        match self {
            UploadEvent::CandidateStored { bytes } => UploadEventView::CandidateStored {
                bytes: bytes@,
            },
            UploadEvent::HashFound { file_id, content_type, owner } => UploadEventView::HashFound {
                file_id: *file_id as int,
                content_type: content_type@,
                owner: owner@,
            },
            UploadEvent::HashNotFound => UploadEventView::HashNotFound,
            UploadEvent::CandidateDiscarded => UploadEventView::CandidateDiscarded,
            UploadEvent::Classified { content_type } => UploadEventView::Classified {
                content_type: content_type@,
            },
            UploadEvent::Inserted => UploadEventView::Inserted,
            UploadEvent::Failed => UploadEventView::Failed,
        }
    }
}

/// One upload on its way from the uploaded bytes to a record. It decides;
/// its caller writes, reads and searches. The caller starts it with
/// [`Upload::begin`], carries out the action it is handed, reports what came
/// of it to [`Upload::step`], and goes on so until the action is `Complete`
/// or `Abort`.
///
/// Nothing is taken back when an upload is given up: a candidate blob that
/// was written stays where it is, with no record that names it. And nothing
/// ties two uploads together: of two uploads of the same bytes that both
/// search for the hash before either inserts its record, each keeps its own
/// blob.
#[derive(Debug)]
pub struct Upload {
    phase: UploadPhase,
    record: File,
}

/// An `Upload` as plain values: its phase, and the record as far as it is
/// known.
pub struct UploadView {
    pub phase: UploadPhase,
    pub record: FileView,
}

impl View for Upload {
    type V = UploadView;

    closed spec fn view(&self) -> UploadView {
        UploadView { phase: self.phase, record: self.record@ }
    }
}

/// The error for an action that failed in `phase`. An upload that was given
/// up has the error it was given up for; one that is completed has none.
pub open spec fn failure_in(phase: UploadPhase) -> Option<AttachmentError> {
    match phase {
        UploadPhase::StoringCandidate | UploadPhase::Discarding => Some(
            AttachmentError::StorageFailure,
        ),
        UploadPhase::LookingUp | UploadPhase::Inserting => Some(AttachmentError::MetadataFailure),
        UploadPhase::Classifying => Some(AttachmentError::ClassificationFailure),
        UploadPhase::Aborted(error) => Some(error),
        UploadPhase::Completed => None,
    }
}

/// How an upload of `size` bytes starts, with `id` the next identifier: it
/// is refused if it is empty, or else if the name derived for it is too
/// long; otherwise it waits for its candidate blob, which is named by its
/// own identifier.
pub open spec fn start(
    size: nat,
    supplied: Option<Seq<char>>,
    owner: Seq<char>,
    id: int,
) -> Result<UploadView, AttachmentError> {
    if size == 0 {
        Err(AttachmentError::EmptyUpload)
    } else if derived_name(supplied).len() > MAX_NAME_LEN {
        Err(AttachmentError::InvalidName)
    } else {
        Ok(
            UploadView {
                phase: UploadPhase::StoringCandidate,
                record: FileView {
                    id,
                    file_id: id,
                    name: derived_name(supplied),
                    content_type: Seq::empty(),
                    hash: Seq::empty(),
                    owner,
                },
            },
        )
    }
}

/// How an upload in `state` ends where it does not go on: completed if it
/// is so already, and else given up for the failure of its present phase.
pub open spec fn ended(state: UploadView) -> (UploadView, UploadActionView) {
    match failure_in(state.phase) {
        Some(error) => (
            UploadView { phase: UploadPhase::Aborted(error), ..state },
            UploadActionView::Abort { error },
        ),
        None => (state, UploadActionView::Complete { data: state.record.file_data() }),
    }
}

/// Where an upload in `state` goes on `event`, and what it asks for next.
///
/// - Once the candidate is stored, the bytes read back are hashed and the
///   hash is searched for.
/// - If a record has the hash, the upload takes over its blob and content
///   type, and the candidate is removed before the record is inserted. The
///   record keeps the owner it started with: the one who uploads.
/// - If none has it, the candidate becomes the blob, and the bytes are
///   classified before the record is inserted.
/// - A finished upload repeats how it ended.
/// - Anything but what the upload waits for counts as the failure of that.
pub open spec fn transition(state: UploadView, event: UploadEventView) -> (
    UploadView,
    UploadActionView,
) {
    match (state.phase, event) {
        (UploadPhase::StoringCandidate, UploadEventView::CandidateStored { bytes }) => {
            let hash = sha256_hex(bytes);
            (
                UploadView {
                    phase: UploadPhase::LookingUp,
                    record: FileView { hash, ..state.record },
                },
                UploadActionView::FindByHash { hash },
            )
        },
        (UploadPhase::LookingUp, UploadEventView::HashFound { file_id, content_type, owner }) => (
            UploadView {
                phase: UploadPhase::Discarding,
                record: FileView { file_id, content_type, ..state.record },
            },
            UploadActionView::DiscardCandidate { file_id: state.record.id },
        ),
        (UploadPhase::LookingUp, UploadEventView::HashNotFound) => (
            UploadView { phase: UploadPhase::Classifying, ..state },
            UploadActionView::Classify { declared_name: state.record.name },
        ),
        (UploadPhase::Discarding, UploadEventView::CandidateDiscarded) => (
            UploadView { phase: UploadPhase::Inserting, ..state },
            UploadActionView::Insert { record: state.record },
        ),
        (UploadPhase::Classifying, UploadEventView::Classified { content_type }) => {
            let record = FileView { content_type, ..state.record };
            (
                UploadView { phase: UploadPhase::Inserting, record },
                UploadActionView::Insert { record },
            )
        },
        (UploadPhase::Inserting, UploadEventView::Inserted) => (
            UploadView { phase: UploadPhase::Completed, ..state },
            UploadActionView::Complete { data: state.record.file_data() },
        ),
        _ => ended(state),
    }
}

impl Upload {
    /// Starts an upload of `size` bytes that the client named `supplied` and
    /// that `owner` makes. The upload is refused before anything is written
    /// if it is empty or its name is too long, and then no identifier is
    /// used up. Otherwise it takes the next identifier from `ids` and asks
    /// for its candidate blob to be stored.
    pub fn begin(size: u64, supplied: Option<&str>, owner: String, ids: &mut IdGen) -> (result:
        Result<(Upload, UploadAction), AttachmentError>)
        requires
            old(ids).last() < i64::MAX,
        ensures
            match result {
                Ok((upload, action)) => {
                    &&& old(ids).hands_out(upload@.record.id, *final(ids))
                    &&& start(size as nat, supplied_view(supplied), owner@, upload@.record.id)
                        == Ok::<UploadView, AttachmentError>(upload@)
                    &&& action@ == UploadActionView::StoreCandidate { file_id: upload@.record.id }
                },
                Err(error) => {
                    &&& *final(ids) == *old(ids)
                    &&& start(size as nat, supplied_view(supplied), owner@, old(ids).last() + 1)
                        == Err::<UploadView, AttachmentError>(error)
                },
            },
    {
        if size == 0 {
            return Err(AttachmentError::EmptyUpload);
        }
        let name = match sanitize_name(supplied) {
            Ok(name) => name,
            Err(error) => {
                return Err(error);
            },
        };
        let id = ids.generate();
        let upload = Upload {
            phase: UploadPhase::StoringCandidate,
            record: File {
                id,
                file_id: id,
                name,
                content_type: String::new(),
                hash: String::new(),
                owner,
            },
        };
        Ok((upload, UploadAction::StoreCandidate { file_id: id }))
    }

    /// Takes in what came of the last action and says what to do next.
    pub fn step(&mut self, event: UploadEvent) -> (action: UploadAction)
        ensures
            (final(self)@, action@) == transition(old(self)@, event@),
    {
        let phase = self.phase;
        match (phase, event) {
            (UploadPhase::StoringCandidate, UploadEvent::CandidateStored { bytes }) => {
                let hash = content_hash(bytes.as_slice());
                self.record.hash = hash.clone();
                self.phase = UploadPhase::LookingUp;
                UploadAction::FindByHash { hash }
            },
            (UploadPhase::LookingUp, UploadEvent::HashFound { file_id, content_type, owner: _ }) => {
                self.record.file_id = file_id;
                self.record.content_type = content_type;
                self.phase = UploadPhase::Discarding;
                UploadAction::DiscardCandidate { file_id: self.record.id }
            },
            (UploadPhase::LookingUp, UploadEvent::HashNotFound) => {
                self.phase = UploadPhase::Classifying;
                UploadAction::Classify { declared_name: self.record.name.clone() }
            },
            (UploadPhase::Discarding, UploadEvent::CandidateDiscarded) => {
                self.phase = UploadPhase::Inserting;
                UploadAction::Insert { record: self.record.clone() }
            },
            (UploadPhase::Classifying, UploadEvent::Classified { content_type }) => {
                self.record.content_type = content_type;
                self.phase = UploadPhase::Inserting;
                UploadAction::Insert { record: self.record.clone() }
            },
            (UploadPhase::Inserting, UploadEvent::Inserted) => {
                self.phase = UploadPhase::Completed;
                UploadAction::Complete { data: self.record.clone().get_file_data() }
            },
            (UploadPhase::Completed, _) => {
                UploadAction::Complete { data: self.record.clone().get_file_data() }
            },
            (UploadPhase::Aborted(error), _) => { UploadAction::Abort { error } },
            (UploadPhase::StoringCandidate, _) | (UploadPhase::Discarding, _) => {
                self.phase = UploadPhase::Aborted(AttachmentError::StorageFailure);
                UploadAction::Abort { error: AttachmentError::StorageFailure }
            },
            (UploadPhase::LookingUp, _) | (UploadPhase::Inserting, _) => {
                self.phase = UploadPhase::Aborted(AttachmentError::MetadataFailure);
                UploadAction::Abort { error: AttachmentError::MetadataFailure }
            },
            (UploadPhase::Classifying, _) => {
                self.phase = UploadPhase::Aborted(AttachmentError::ClassificationFailure);
                UploadAction::Abort { error: AttachmentError::ClassificationFailure }
            },
        }
    }

    /// The phase the upload is in.
    pub fn phase(&self) -> (phase: UploadPhase)
        ensures
            phase == self@.phase,
    {
        self.phase
    }

    /// The identifier of the record that the upload writes.
    pub fn id(&self) -> (id: i64)
        ensures
            id == self@.record.id,
    {
        self.record.id
    }
}

} // verus!
