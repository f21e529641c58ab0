use vstd::prelude::*;
use vstd::string::*;

verus! {

/// Why an upload or a retrieval did not go through.
#[derive(Debug, Clone, Copy, PartialEq, Eq, Structural)]
pub enum AttachmentError {
    /// The upload carried no bytes.
    EmptyUpload,
    /// The name derived for the upload is longer than a record may hold.
    InvalidName,
    /// No record has the requested identifier.
    NotFound,
    /// A blob could not be written, read back, removed or opened.
    StorageFailure,
    /// The record table could not be queried or extended.
    MetadataFailure,
    /// The content type of the uploaded bytes could not be determined.
    ClassificationFailure,
}

impl AttachmentError {
    /// The text that a client is shown for this error.
    pub open spec fn description(self) -> Seq<char> {
        match self {
            AttachmentError::EmptyUpload => "Cannot upload an empty file"@,
            AttachmentError::InvalidName =>
                "Invalid file name. File name must be between 1 and 256 characters long"@,
            AttachmentError::NotFound => "File not found"@,
            AttachmentError::StorageFailure => "Error fetching file"@,
            AttachmentError::MetadataFailure => "Error accessing file records"@,
            AttachmentError::ClassificationFailure => "Error classifying file"@,
        }
    }

    /// Renders the error as the text shown to a client.
    pub fn message(&self) -> (text: String)
        ensures
            text@ == self.description(),
    {
        let text: &str = match self {
            AttachmentError::EmptyUpload => "Cannot upload an empty file",
            AttachmentError::InvalidName =>
                "Invalid file name. File name must be between 1 and 256 characters long",
            AttachmentError::NotFound => "File not found",
            AttachmentError::StorageFailure => "Error fetching file",
            AttachmentError::MetadataFailure => "Error accessing file records",
            AttachmentError::ClassificationFailure => "Error classifying file",
        };
        text.to_owned()
    }
}

} // verus!
