use vstd::prelude::*;
use vstd::string::*;

use crate::error::AttachmentError;
use crate::models::files::{File, FileView};

verus! {

/// How a client wants a file served: shown in place, or saved.
#[derive(Debug, Clone, Copy, PartialEq, Eq, Structural)]
pub enum Disposition {
    Inline,
    Attachment,
}

/// The value of the `Content-Disposition` header for a file called `name`.
pub open spec fn disposition_value(mode: Disposition, name: Seq<char>) -> Seq<char> {
    let lead = match mode {
        Disposition::Inline => "inline; filename=\""@,
        Disposition::Attachment => "attachment; filename=\""@,
    };
    lead + name + "\""@
}

/// Writes the value of the `Content-Disposition` header for a file called
/// `name`.
pub fn content_disposition(mode: Disposition, name: &str) -> (value: String)
    ensures
        value@ == disposition_value(mode, name@),
{
    let lead: &str = match mode {
        Disposition::Inline => "inline; filename=\"",
        Disposition::Attachment => "attachment; filename=\"",
    };
    lead.to_owned().concat(name).concat("\"")
}

/// How far a retrieval has come.
#[derive(Debug, Clone, Copy, PartialEq, Eq, Structural)]
pub enum FetchPhase {
    /// The record is being looked up.
    LookingUp,
    /// The blob of the record is being opened.
    Opening,
    /// The blob is open and the response is described.
    Served,
    /// The retrieval was given up.
    Aborted(AttachmentError),
}

/// What the caller of a retrieval is asked to do next.
#[derive(Debug, PartialEq)]
pub enum FetchAction {
    /// Look up the record `id`.
    FindRecord { id: i64 },
    /// Open blob `file_id`.
    OpenBlob { file_id: i64 },
    /// Nothing more: send the open blob with these two headers.
    Respond { disposition: String, content_type: String },
    /// Nothing more: the record `id`, called `name`, has no blob. Note that
    /// down where the operator sees it, and tell the client no more than
    /// `error`.
    ReportMissingBlob { id: i64, name: String, error: AttachmentError },
    /// Nothing more: the retrieval was given up for `error`.
    Abort { error: AttachmentError },
}

/// A `FetchAction` as plain values.
pub enum FetchActionView {
    FindRecord { id: int },
    OpenBlob { file_id: int },
    Respond { disposition: Seq<char>, content_type: Seq<char> },
    ReportMissingBlob { id: int, name: Seq<char>, error: AttachmentError },
    Abort { error: AttachmentError },
}

impl View for FetchAction {
    type V = FetchActionView;

    open spec fn view(&self) -> FetchActionView {
        match self {
            FetchAction::FindRecord { id } => FetchActionView::FindRecord { id: *id as int },
            FetchAction::OpenBlob { file_id } => FetchActionView::OpenBlob {
                file_id: *file_id as int,
            },
            FetchAction::Respond { disposition, content_type } => FetchActionView::Respond {
                disposition: disposition@,
                content_type: content_type@,
            },
            FetchAction::ReportMissingBlob { id, name, error } => {
                FetchActionView::ReportMissingBlob { id: *id as int, name: name@, error: *error }
            },
            FetchAction::Abort { error } => FetchActionView::Abort { error: *error },
        }
    }
}

/// What the caller of a retrieval reports of the action it was asked for.
#[derive(Debug, PartialEq)]
pub enum FetchEvent {
    /// The record exists, and this is it.
    RecordFound { record: File },
    /// No record has the identifier.
    RecordMissing,
    /// The blob is open.
    BlobOpened,
    /// The blob could not be opened.
    BlobMissing,
}

/// A `FetchEvent` as plain values.
pub enum FetchEventView {
    RecordFound { record: FileView },
    RecordMissing,
    BlobOpened,
    BlobMissing,
}

impl View for FetchEvent {
    type V = FetchEventView;

    open spec fn view(&self) -> FetchEventView {
        match self {
            FetchEvent::RecordFound { record } => FetchEventView::RecordFound { record: record@ },
            FetchEvent::RecordMissing => FetchEventView::RecordMissing,
            FetchEvent::BlobOpened => FetchEventView::BlobOpened,
            FetchEvent::BlobMissing => FetchEventView::BlobMissing,
        }
    }
}

/// One retrieval on its way from an identifier to a response. Like an
/// upload it decides and leaves the lookups to its caller: start it with
/// [`Fetch::begin`], then report to [`Fetch::step`] until the action is
/// `Respond`, `ReportMissingBlob` or `Abort`.
#[derive(Debug)]
pub struct Fetch {
    phase: FetchPhase,
    mode: Disposition,
    id: i64,
    record: Option<File>,
}

/// A `Fetch` as plain values.
pub struct FetchView {
    pub phase: FetchPhase,
    pub mode: Disposition,
    pub id: int,
    pub record: Option<FileView>,
}

impl View for Fetch {
    type V = FetchView;

    closed spec fn view(&self) -> FetchView {
        FetchView {
            phase: self.phase,
            mode: self.mode,
            id: self.id as int,
            record: match self.record {
                Some(record) => Some(record@),
                None => None,
            },
        }
    }
}

/// A retrieval of `id` that has learnt nothing yet.
pub open spec fn waiting(id: int, mode: Disposition) -> FetchView {
    FetchView { phase: FetchPhase::LookingUp, mode, id, record: None }
}

/// The response for `record`, served as `mode` asks.
pub open spec fn response_for(record: FileView, mode: Disposition) -> FetchActionView {
    FetchActionView::Respond {
        disposition: disposition_value(mode, record.name),
        content_type: record.content_type,
    }
}

/// How a retrieval that ended in `phase` ends again when it is asked once
/// more, and how one ends that has no record where it needs one.
pub open spec fn ending(state: FetchView) -> FetchActionView {
    match (state.phase, state.record) {
        (FetchPhase::Served, Some(record)) => response_for(record, state.mode),
        (FetchPhase::Aborted(AttachmentError::StorageFailure), Some(record)) => {
            FetchActionView::ReportMissingBlob {
                id: record.id,
                name: record.name,
                error: AttachmentError::StorageFailure,
            }
        },
        (FetchPhase::Aborted(error), _) => FetchActionView::Abort { error },
        _ => FetchActionView::Abort { error: AttachmentError::NotFound },
    }
}

/// Where a retrieval in `state` goes on `event`, and what it asks for next.
///
/// - A record that is found has its blob opened; with no record the
///   retrieval ends as `NotFound`.
/// - Once the blob is open, the response carries the record's content type
///   and offers the record's name as the file name.
/// - A record without a blob is a fault of the store, not of the request:
///   the retrieval ends as `StorageFailure`, and says which record it was.
/// - A finished retrieval repeats how it ended. Anything but what the
///   retrieval waits for counts as the failure of that.
pub open spec fn transition(state: FetchView, event: FetchEventView) -> (
    FetchView,
    FetchActionView,
) {
    match (state.phase, event) {
        (FetchPhase::LookingUp, FetchEventView::RecordFound { record }) => (
            FetchView { phase: FetchPhase::Opening, record: Some(record), ..state },
            FetchActionView::OpenBlob { file_id: record.file_id },
        ),
        (FetchPhase::LookingUp, _) => {
            let next = FetchView {
                phase: FetchPhase::Aborted(AttachmentError::NotFound),
                ..state
            };
            (next, ending(next))
        },
        (FetchPhase::Opening, FetchEventView::BlobOpened) => {
            let next = FetchView { phase: FetchPhase::Served, ..state };
            (next, ending(next))
        },
        (FetchPhase::Opening, _) => {
            let next = FetchView {
                phase: FetchPhase::Aborted(AttachmentError::StorageFailure),
                ..state
            };
            (next, ending(next))
        },
        _ => (state, ending(state)),
    }
}

impl Fetch {
    /// Starts the retrieval of record `id`, to be served as `mode` asks.
    pub fn begin(id: i64, mode: Disposition) -> (started: (Fetch, FetchAction))
        ensures
            started.0@ == waiting(id as int, mode),
            started.1@ == (FetchActionView::FindRecord { id: id as int }),
    {
        (Fetch { phase: FetchPhase::LookingUp, mode, id, record: None }, FetchAction::FindRecord { id })
    }

    /// Takes in what came of the last action and says what to do next.
    pub fn step(&mut self, event: FetchEvent) -> (action: FetchAction)
        ensures
            (final(self)@, action@) == transition(old(self)@, event@),
    {
        let phase = self.phase;
        match (phase, event) {
            (FetchPhase::LookingUp, FetchEvent::RecordFound { record }) => {
                let file_id = record.file_id;
                self.record = Some(record);
                self.phase = FetchPhase::Opening;
                FetchAction::OpenBlob { file_id }
            },
            (FetchPhase::LookingUp, _) => {
                self.phase = FetchPhase::Aborted(AttachmentError::NotFound);
                self.end()
            },
            (FetchPhase::Opening, FetchEvent::BlobOpened) => {
                self.phase = FetchPhase::Served;
                self.end()
            },
            (FetchPhase::Opening, _) => {
                self.phase = FetchPhase::Aborted(AttachmentError::StorageFailure);
                self.end()
            },
            _ => self.end(),
        }
    }

    /// The action that ends the retrieval in its present phase.
    fn end(&self) -> (action: FetchAction)
        ensures
            action@ == ending(self@),
    {
        match (self.phase, &self.record) {
            (FetchPhase::Served, Some(record)) => FetchAction::Respond {
                disposition: content_disposition(self.mode, record.name.as_str()),
                content_type: record.content_type.clone(),
            },
            (FetchPhase::Aborted(AttachmentError::StorageFailure), Some(record)) => {
                FetchAction::ReportMissingBlob {
                    id: record.id,
                    name: record.name.clone(),
                    error: AttachmentError::StorageFailure,
                }
            },
            (FetchPhase::Aborted(error), _) => FetchAction::Abort { error },
            _ => FetchAction::Abort { error: AttachmentError::NotFound },
        }
    }
}

} // verus!
