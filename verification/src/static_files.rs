use vstd::prelude::*;
use vstd::string::*;

use crate::fetch::{content_disposition, disposition_value, Disposition};
use crate::layout::{static_location, static_path};
use crate::names::{extension, extension_of, file_name, file_name_of};

verus! {

/// Why a static asset was not served.
#[derive(Debug, Clone, Copy, PartialEq, Eq, Structural)]
pub enum StaticFileError {
    /// The requested name has no file name in it.
    InvalidName,
    /// No asset has the name.
    NotFound,
    /// The asset could not be opened for another reason.
    Unavailable,
}

impl StaticFileError {
    /// The text that a client is shown for this error.
    pub open spec fn description(self) -> Seq<char> {
        match self {
            StaticFileError::InvalidName => "Invalid file name"@,
            StaticFileError::NotFound => "File not found"@,
            StaticFileError::Unavailable => "Failed to get static file from storage"@,
        }
    }

    /// Renders the error as the text shown to a client.
    pub fn message(&self) -> (text: String)
        ensures
            text@ == self.description(),
    {
        let text: &str = match self {
            StaticFileError::InvalidName => "Invalid file name",
            StaticFileError::NotFound => "File not found",
            StaticFileError::Unavailable => "Failed to get static file from storage",
        };
        text.to_owned()
    }

    /// The error for an asset that could not be opened: `missing` says
    /// whether that was for want of the file.
    pub fn on_open_failure(missing: bool) -> (error: StaticFileError)
        ensures
            error == if missing {
                StaticFileError::NotFound
            } else {
                StaticFileError::Unavailable
            },
    {
        if missing {
            StaticFileError::NotFound
        } else {
            StaticFileError::Unavailable
        }
    }
}

/// A static asset that a request names: the file name taken from the
/// request, its extension, by which its content type is chosen, and the path
/// at which it is kept.
#[derive(Debug, PartialEq)]
pub struct StaticFile {
    pub file_name: String,
    pub extension: Option<String>,
    pub path: String,
}

/// A `StaticFile` as plain values.
pub struct StaticFileView {
    pub file_name: Seq<char>,
    pub extension: Option<Seq<char>>,
    pub path: Seq<char>,
}

impl View for StaticFile {
    type V = StaticFileView;

    open spec fn view(&self) -> StaticFileView {
        StaticFileView {
            file_name: self.file_name@,
            extension: match self.extension {
                Some(ext) => Some(ext@),
                None => None,
            },
            path: self.path@,
        }
    }
}

/// The asset that a request for `name` means: the one called by the file
/// name of `name`, directories dropped, kept under that name among the
/// static assets.
pub open spec fn located(name: Seq<char>) -> Option<StaticFileView> {
    match file_name_of(name) {
        Some(file_name) => Some(
            StaticFileView {
                file_name,
                extension: extension_of(file_name),
                path: static_location(file_name),
            },
        ),
        None => None,
    }
}

/// Finds the static asset that a request for `name` means. A name without
/// a file name in it is refused.
pub fn get_file(name: &str) -> (result: Result<StaticFile, StaticFileError>)
    ensures
        match result {
            Ok(file) => located(name@) == Some(file@),
            Err(error) => error == StaticFileError::InvalidName && located(name@) is None,
        },
{
    match file_name(name) {
        Some(file_name) => {
            let extension = extension(file_name.as_str());
            let path = static_path(file_name.as_str());
            Ok(StaticFile { file_name, extension, path })
        },
        None => Err(StaticFileError::InvalidName),
    }
}

/// How a static asset is served: the path to open, the value of the
/// `Content-Disposition` header, and the extension by which the content type
/// is chosen, if the file name has one.
#[derive(Debug, PartialEq)]
pub struct StaticResponse {
    pub path: String,
    pub disposition: String,
    pub extension: Option<String>,
}

/// A `StaticResponse` as plain values.
pub struct StaticResponseView {
    pub path: Seq<char>,
    pub disposition: Seq<char>,
    pub extension: Option<Seq<char>>,
}

impl View for StaticResponse {
    type V = StaticResponseView;

    open spec fn view(&self) -> StaticResponseView {
        StaticResponseView {
            path: self.path@,
            disposition: self.disposition@,
            extension: match self.extension {
                Some(ext) => Some(ext@),
                None => None,
            },
        }
    }
}

/// How the asset that a request for `name` means is served as `mode` asks,
/// if the request means one.
pub open spec fn served(name: Seq<char>, mode: Disposition) -> Option<StaticResponseView> {
    match located(name) {
        Some(file) => Some(
            StaticResponseView {
                path: file.path,
                disposition: disposition_value(mode, file.file_name),
                extension: file.extension,
            },
        ),
        None => None,
    }
}

/// Says how to serve the static asset `name`, as `mode` asks.
fn serve(name: &str, mode: Disposition) -> (result: Result<StaticResponse, StaticFileError>)
    ensures
        match result {
            Ok(response) => served(name@, mode) == Some(response@),
            Err(error) => error == StaticFileError::InvalidName && served(name@, mode) is None,
        },
{
    match get_file(name) {
        Ok(file) => {
            let disposition = content_disposition(mode, file.file_name.as_str());
            Ok(StaticResponse { path: file.path, disposition, extension: file.extension })
        },
        Err(error) => Err(error),
    }
}

/// Says how to serve the static asset `name` so that it is shown in place.
pub fn get_static_file(name: &str) -> (result: Result<StaticResponse, StaticFileError>)
    ensures
        match result {
            Ok(response) => served(name@, Disposition::Inline) == Some(response@),
            Err(error) => error == StaticFileError::InvalidName && served(
                name@,
                Disposition::Inline,
            ) is None,
        },
{
    serve(name, Disposition::Inline)
}

/// Says how to serve the static asset `name` so that it is saved.
pub fn download_static_file(name: &str) -> (result: Result<StaticResponse, StaticFileError>)
    ensures
        match result {
            Ok(response) => served(name@, Disposition::Attachment) == Some(response@),
            Err(error) => error == StaticFileError::InvalidName && served(
                name@,
                Disposition::Attachment,
            ) is None,
        },
{
    serve(name, Disposition::Attachment)
}

} // verus!
