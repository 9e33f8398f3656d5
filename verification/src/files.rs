//! The server file browser: which read requests are admitted, how each
//! outcome of a listing or a read is answered, and how an entry is shown.

use vstd::prelude::*;
use crate::api::{ApiError, BAD_REQUEST, CONFLICT, INTERNAL_SERVER_ERROR, NOT_FOUND, error_response, is_error};
use crate::clock::{iso8601_from_unix_secs, timestamp_text};
use crate::text::{chars_of, concat_str, string_of, trim, trim_vec};

verus! {

/// Admits a file read: the path, trimmed, must not be blank, and a server
/// must be active. Gives the trimmed path.
pub fn admit_read(path: Option<&str>, active: bool) -> (res: Result<String, ApiError>)
    ensures
        ({
            let requested = match path {
                Some(p) => p@,
                None => Seq::<char>::empty(),
            };
            if trim(requested).len() == 0 {
                res matches Err(e) && is_error(e, BAD_REQUEST, "invalid_body"@, "missing_path"@)
            } else if !active {
                res matches Err(e) && is_error(e, CONFLICT, "conflict"@, "no_active_server"@)
            } else {
                res matches Ok(t) && t@ == trim(requested)
            }
        }),
{
    let requested = match path {
        Some(p) => chars_of(p),
        None => Vec::new(),
    };
    let t = trim_vec(requested.as_slice());
    if t.len() == 0 {
        return Err(error_response(BAD_REQUEST, "invalid_body", "missing_path"));
    }
    if !active {
        return Err(error_response(CONFLICT, "conflict", "no_active_server"));
    }
    Ok(string_of(t.as_slice()))
}

/// The answer to a file read that delivered the file.
#[derive(Debug, Clone, PartialEq, Eq)]
pub struct FileReadResult {
    pub success: bool,
    pub message: String,
    pub path: Option<String>,
    pub name: Option<String>,
    pub size_bytes: Option<u64>,
    pub content: Option<String>,
    pub encoding: Option<String>,
    pub truncated: Option<bool>,
}

/// The answer to a read of the file at the trimmed `path`: a success, "ok",
/// the path as requested, the file's name, size and text content, the
/// encoding `text`, and whether the content was cut short.
pub fn read_response(path: String, name: String, size_bytes: Option<u64>, content: String, truncated: bool) -> (res:
    FileReadResult)
    ensures
        res.success,
        res.message@ == "ok"@,
        res.path == Some(path),
        res.name == Some(name),
        res.size_bytes == size_bytes,
        res.content == Some(content),
        opt_view(res.encoding) == Some("text"@),
        res.truncated == Some(truncated),
{
    FileReadResult {
        success: true,
        message: concat_str(String::new(), "ok"),
        path: Some(path),
        name: Some(name),
        size_bytes,
        content: Some(content),
        encoding: Some(concat_str(String::new(), "text")),
        truncated: Some(truncated),
    }
}

/// The view of an optional string.
pub open spec fn opt_view(s: Option<String>) -> Option<Seq<char>> {
    match s {
        Some(v) => Some(v@),
        None => None,
    }
}

/// How a file read that could not deliver the file came out.
#[derive(Debug, Clone, Copy, PartialEq, Eq)]
pub enum ReadFailure {
    InvalidPath,
    FileNotFound,
    DirectoryNotFile,
    NotPreviewable,
    ReadFailed,
}

/// The answer to a read that could not deliver the file: a path outside
/// the server folder is answered as a missing file, so that nothing outside
/// is confirmed.
pub fn read_failure_response(failure: ReadFailure) -> (res: ApiError)
    ensures
        match failure {
            ReadFailure::InvalidPath | ReadFailure::FileNotFound => is_error(
                res,
                NOT_FOUND,
                "not_found"@,
                "file_not_found"@,
            ),
            ReadFailure::DirectoryNotFile => is_error(
                res,
                CONFLICT,
                "conflict"@,
                "directory_not_file"@,
            ),
            ReadFailure::NotPreviewable => is_error(res, CONFLICT, "conflict"@, "not_previewable"@),
            ReadFailure::ReadFailed => is_error(
                res,
                INTERNAL_SERVER_ERROR,
                "internal_error"@,
                "read_failed"@,
            ),
        },
{
    match failure {
        ReadFailure::InvalidPath | ReadFailure::FileNotFound => error_response(
            NOT_FOUND,
            "not_found",
            "file_not_found",
        ),
        ReadFailure::DirectoryNotFile => error_response(CONFLICT, "conflict", "directory_not_file"),
        ReadFailure::NotPreviewable => error_response(CONFLICT, "conflict", "not_previewable"),
        ReadFailure::ReadFailed => error_response(INTERNAL_SERVER_ERROR, "internal_error", "read_failed"),
    }
}

/// A listing that could not be made.
#[derive(Debug, Clone, Copy, PartialEq, Eq)]
pub enum BrowseFailure {
    InvalidPath,
    DirectoryNotFound,
}

/// The note of a listing that could not be made.
pub fn browse_note(failure: BrowseFailure) -> (res: String)
    ensures
        res@ == match failure {
            BrowseFailure::InvalidPath => "invalid_path"@,
            BrowseFailure::DirectoryNotFound => "directory_not_found"@,
        },
{
    match failure {
        BrowseFailure::InvalidPath => concat_str(String::new(), "invalid_path"),
        BrowseFailure::DirectoryNotFound => concat_str(String::new(), "directory_not_found"),
    }
}

/// An entry of a listing as the browser shows it.
#[derive(Debug, Clone, PartialEq, Eq)]
pub struct FileItem {
    pub id: String,
    pub name: String,
    pub path: String,
    pub is_directory: bool,
    pub size_bytes: Option<u64>,
    pub modified_at: Option<String>,
    pub file_extension: Option<String>,
    pub is_previewable: bool,
}

/// An entry of a listing as the browser shows it: its path is its id, its
/// modification time a UTC timestamp.
pub fn file_item_dto(
    name: String,
    path: String,
    is_directory: bool,
    size_bytes: Option<u64>,
    modified_secs: Option<u64>,
    file_extension: Option<String>,
    is_previewable: bool,
) -> (res: FileItem)
    ensures
        res.id@ == path@,
        res.path == path,
        res.name == name,
        res.is_directory == is_directory,
        res.size_bytes == size_bytes,
        match modified_secs {
            Some(s) => res.modified_at matches Some(t) && t@ == timestamp_text(s as nat),
            None => res.modified_at is None,
        },
        res.file_extension == file_extension,
        res.is_previewable == is_previewable,
{
    let id = path.clone();
    FileItem {
        id,
        name,
        path,
        is_directory,
        size_bytes,
        modified_at: match modified_secs {
            Some(s) => Some(iso8601_from_unix_secs(s)),
            None => None,
        },
        file_extension,
        is_previewable,
    }
}

/// A folder listing as the file routes answer it.
#[derive(Debug, Clone, PartialEq, Eq)]
pub struct ServerFilesResponse {
    pub server_name: Option<String>,
    pub path: String,
    pub parent_path: Option<String>,
    pub note: Option<String>,
    pub items: Vec<FileItem>,
}

/// What listing a folder found.
#[derive(Debug, Clone, PartialEq, Eq)]
pub enum BrowseOutcome {
    Listed { path: String, parent_path: Option<String>, items: Vec<FileItem> },
    /// The path leaves the server folder.
    InvalidPath,
    DirectoryNotFound,
}

/// Admits a listing: a server must be active.
pub fn admit_browse(active: bool) -> (res: Result<(), ApiError>)
    ensures
        active ==> res is Ok,
        !active ==> (res matches Err(e) && is_error(e, CONFLICT, "conflict"@, "No server is currently active."@)),
{
    if !active {
        return Err(error_response(CONFLICT, "conflict", "No server is currently active."));
    }
    Ok(())
}

/// The answer to a listing of the active server's folder: the listing, or
/// an empty listing whose note says why there is none. A path that leaves
/// the server folder is answered this way too, not refused.
pub fn browse_response(server_name: String, outcome: BrowseOutcome) -> (res: ServerFilesResponse)
    ensures
        res.server_name == Some(server_name),
        match outcome {
            BrowseOutcome::Listed { path, parent_path, items } => res.path == path && res.parent_path
                == parent_path && res.items == items && res.note is None,
            BrowseOutcome::InvalidPath => res.path@.len() == 0 && res.parent_path is None
                && res.items@.len() == 0 && (res.note matches Some(n) && n@ == "invalid_path"@),
            BrowseOutcome::DirectoryNotFound => res.path@.len() == 0 && res.parent_path is None
                && res.items@.len() == 0 && (res.note matches Some(n) && n@ == "directory_not_found"@),
        },
{
    match outcome {
        BrowseOutcome::Listed { path, parent_path, items } => ServerFilesResponse {
            server_name: Some(server_name),
            path,
            parent_path,
            note: None,
            items,
        },
        BrowseOutcome::InvalidPath => ServerFilesResponse {
            server_name: Some(server_name),
            path: String::new(),
            parent_path: None,
            note: Some(browse_note(BrowseFailure::InvalidPath)),
            items: Vec::new(),
        },
        BrowseOutcome::DirectoryNotFound => ServerFilesResponse {
            server_name: Some(server_name),
            path: String::new(),
            parent_path: None,
            note: Some(browse_note(BrowseFailure::DirectoryNotFound)),
            items: Vec::new(),
        },
    }
}

} // verus!
