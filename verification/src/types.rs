//! Values shared by every component: the result envelope handed to the user
//! interface, the records a scan produces, and the two sources of fresh
//! identifiers and time stamps.

use vstd::prelude::*;
use vstd::string::*;

verus! {

/// A failure that can be rendered as one line of text.
pub trait ErrorText {
    /// The rendered text.
    spec fn text(&self) -> Seq<char>;

    /// Renders the failure.
    fn to_text(&self) -> (r: String)
        ensures
            r@ == self.text(),
    ;
}

impl ErrorText for String {
    open spec fn text(&self) -> Seq<char> {
        self@
    }

    fn to_text(&self) -> (r: String) {
        self.clone()
    }
}

/// The envelope every command answers with: either `data` or `error` is
/// populated, according to `success`.
#[derive(Debug)]
pub struct TauriResult<T> {
    pub success: bool,
    pub data: Option<T>,
    pub error: Option<String>,
}

impl<T> TauriResult<T> {
    /// Exactly one of `data` and `error` is populated, as `success` says.
    pub open spec fn well_formed(&self) -> bool {
        &&& self.success <==> self.data is Some
        &&& self.success <==> self.error is None
    }

    /// The envelope carries the failure text `message`.
    pub open spec fn is_error(&self, message: Seq<char>) -> bool {
        &&& !self.success
        &&& self.data is None
        &&& self.error matches Some(m) && m@ == message
    }

    /// The envelope carries the payload `data`.
    pub open spec fn is_success(&self, data: T) -> bool {
        &&& self.success
        &&& self.data == Some(data)
        &&& self.error is None
    }

    /// A successful envelope around `data`.
    pub fn success(data: T) -> (r: Self)
        ensures
            r.is_success(data),
            r.well_formed(),
    {
        TauriResult { success: true, data: Some(data), error: None }
    }

    /// A failed envelope with the text `message`.
    pub fn error(message: &str) -> (r: Self)
        ensures
            r.is_error(message@),
            r.well_formed(),
    {
        TauriResult { success: false, data: None, error: Some(String::from_str(message)) }
    }

    /// The envelope of an outcome: the payload on success, the rendered
    /// failure otherwise.
    pub fn from_result<E: ErrorText>(result: Result<T, E>) -> (r: Self)
        ensures
            r.well_formed(),
            match result {
                Ok(data) => r.is_success(data),
                Err(e) => r.is_error(e.text()),
            },
    {
        match result {
            Ok(data) => TauriResult { success: true, data: Some(data), error: None },
            Err(e) => {
                let message = e.to_text();
                TauriResult { success: false, data: None, error: Some(message) }
            },
        }
    }
}

/// A file opened in the editor, with its content where it was read.
#[derive(Debug)]
pub struct FileInfo {
    pub path: String,
    pub name: String,
    pub extension: String,
    pub size: u64,
    pub last_modified: u64,
    pub content: Option<String>,
    pub language: Option<String>,
}

/// A directory found by a scan.
#[derive(Debug)]
pub struct DirectoryInfo {
    pub path: String,
    pub name: String,
    pub depth: u32,
    pub last_modified: u64,
}

/// What a `DirectoryInfo` holds.
pub struct DirectoryRecord {
    pub path: Seq<char>,
    pub name: Seq<char>,
    pub depth: u32,
    pub last_modified: u64,
}

impl View for DirectoryInfo {
    type V = DirectoryRecord;

    open spec fn view(&self) -> DirectoryRecord {
        DirectoryRecord {
            path: self.path@,
            name: self.name@,
            depth: self.depth,
            last_modified: self.last_modified,
        }
    }
}

/// The records that a vector of directories holds, in order.
pub open spec fn directory_records(v: Seq<DirectoryInfo>) -> Seq<DirectoryRecord> {
    v.map_values(|d: DirectoryInfo| d@)
}

/// One entry of a scan: a file or a directory with its metadata.
#[derive(Debug)]
pub struct FileInfoChunk {
    pub path: String,
    pub name: String,
    pub depth: u32,
    pub size: u64,
    pub last_modified: u64,
    pub extension: String,
    pub is_directory: bool,
}

/// What a `FileInfoChunk` holds.
pub struct FileRecord {
    pub path: Seq<char>,
    pub name: Seq<char>,
    pub depth: u32,
    pub size: u64,
    pub last_modified: u64,
    pub extension: Seq<char>,
    pub is_directory: bool,
}

impl View for FileInfoChunk {
    type V = FileRecord;

    open spec fn view(&self) -> FileRecord {
        FileRecord {
            path: self.path@,
            name: self.name@,
            depth: self.depth,
            size: self.size,
            last_modified: self.last_modified,
            extension: self.extension@,
            is_directory: self.is_directory,
        }
    }
}

impl Clone for FileInfoChunk {
    fn clone(&self) -> (r: Self)
        ensures
            r@ == self@,
    {
        FileInfoChunk {
            path: self.path.clone(),
            name: self.name.clone(),
            depth: self.depth,
            size: self.size,
            last_modified: self.last_modified,
            extension: self.extension.clone(),
            is_directory: self.is_directory,
        }
    }
}

/// The records that a vector of entries holds, in order.
pub open spec fn file_records(v: Seq<FileInfoChunk>) -> Seq<FileRecord> {
    v.map_values(|c: FileInfoChunk| c@)
}

/// One page of a scan.
#[derive(Debug)]
pub struct ScanFilesResult {
    pub files: Vec<FileInfoChunk>,
    pub has_more: bool,
}

/// Counters of the scanning service.
#[derive(Debug, Clone, Copy, PartialEq, Eq, Structural)]
pub struct PerformanceMetrics {
    pub scan_count: u64,
    pub total_nodes: u64,
    pub memory_saved_bytes: u64,
    pub avg_response_time_ms: u64,
}

/// Reads the system clock with `SystemTime::now` and gives the whole seconds
/// since the Unix epoch, or 0 where the clock stands before it. Nothing is
/// promised of the value: it differs from call to call.
#[verifier::external_body]
pub fn current_timestamp() -> u64 {
    std::time::SystemTime::now().duration_since(std::time::UNIX_EPOCH).unwrap_or_default().as_secs()
}

/// A fresh identifier: `uuid::Uuid::new_v4` rendered by its `Display`, which is
/// the hyphenated form of 36 characters with hyphens after the groups of 8, 4,
/// 4 and 4 digits. The digits are random.
#[verifier::external_body]
pub fn generate_id() -> (id: String)
    ensures
        id@.len() == 36,
        id@[8] == '-',
        id@[13] == '-',
        id@[18] == '-',
        id@[23] == '-',
{
    uuid::Uuid::new_v4().to_string()
}

} // verus!
