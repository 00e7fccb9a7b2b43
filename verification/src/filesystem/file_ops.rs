//! Guarded file operations: the path guard, the size-guarded read, and the
//! decisions around saving, creating, deleting, copying and moving.

use vstd::prelude::*;
use vstd::string::*;
use crate::errors::{rendered, AppError, AppResult, ErrorCategory};
use crate::filesystem::watcher::{event_of, FileSystemEvent};
use crate::text::{
    concat2, concat3, has_prefix, one_decimal, one_decimal_string, str_starts_with, to_chars,
};
use crate::types::TauriResult;

verus! {

/// Size above which a file is not tokenised, in bytes (64 MiB).
pub const MAX_EDITOR_FILE_SIZE: u64 = 67_108_864;

/// Size above which a file is not read at all, in bytes (256 MiB).
pub const MAX_SAFE_FILE_SIZE: u64 = 268_435_456;

/// Size above which a read carries a warning, in bytes (1 MiB).
pub const LARGE_FILE_WARNING: u64 = 1_048_576;

/// Number of leading bytes that are looked at to tell a binary file.
pub const BINARY_SNIFF_LENGTH: usize = 8192;

// ---------------------------------------------------------------------------
// The path guard
// ---------------------------------------------------------------------------
/// What resolving a path against the filesystem gave.
#[derive(Debug)]
pub enum PathResolution {
    /// The path exists; this is its canonical form.
    Canonical(String),
    /// The path does not exist yet; this is the canonical form of its parent
    /// with the final component of the path joined to it.
    Joined(String),
    /// The path does not exist and has no final component.
    NoFileName,
    /// The path does not exist and its parent could not be resolved.
    ParentInaccessible,
    /// The path does not exist and has no parent.
    NoParent,
}

/// The path lies under a root that belongs to the system.
pub open spec fn is_system_path(path: Seq<char>) -> bool {
    ||| has_prefix(path, "/etc/"@)
    ||| has_prefix(path, "/proc/"@)
    ||| has_prefix(path, "/sys/"@)
    ||| has_prefix(path, "C:\\Windows\\"@)
    ||| has_prefix(path, "C:\\System32\\"@)
}

/// The character parts the segments of a path: a slash or a backslash.
pub open spec fn is_separator(c: char) -> bool {
    c == '/' || c == '\\'
}

/// A segment `..` stands at position `i` of `path`: two dots between the
/// start of the path or a separator and the end of the path or a separator.
pub open spec fn parent_segment_at(path: Seq<char>, i: int) -> bool {
    &&& 0 <= i
    &&& i + 2 <= path.len()
    &&& path[i] == '.'
    &&& path[i + 1] == '.'
    &&& (i == 0 || is_separator(path[i - 1]))
    &&& (i + 2 == path.len() || is_separator(path[i + 2]))
}

/// One of the segments of the path is `..`.
pub open spec fn has_traversal(path: Seq<char>) -> bool {
    exists|i: int| parent_segment_at(path, i)
}

/// What the guard decides: the canonical path it lets through, or why it
/// refuses.
pub open spec fn guard_decision(path: Seq<char>, resolution: PathResolution) -> Result<
    Seq<char>,
    Seq<char>,
> {
    if has_traversal(path) {
        Err("Path traversal not allowed: contains '..'"@)
    } else {
        match resolution {
            PathResolution::NoFileName => Err("Invalid file path"@),
            PathResolution::ParentInaccessible => Err("Parent directory is not accessible"@),
            PathResolution::NoParent => Err("Invalid file path: no parent directory"@),
            PathResolution::Canonical(p) | PathResolution::Joined(p) => if is_system_path(p@) {
                Err("Access to system directories is not allowed"@)
            } else {
                Ok(p@)
            },
        }
    }
}

/// Decides whether one of the segments of `path` is `..`; such a path is
/// refused before the filesystem is asked anything.
pub fn rejects_traversal(path: &str) -> (r: bool)
    ensures
        r == has_traversal(path@),
{
    let chars = to_chars(path);
    let n = chars.len();
    if n < 2 {
        return false;
    }
    let mut i: usize = 0;
    while i <= n - 2
        invariant
            2 <= n == chars.len(),
            chars@ == path@,
            forall|k: int| 0 <= k < i ==> !parent_segment_at(path@, k),
        decreases n - i,
    {
        let opens = i == 0 || chars[i - 1] == '/' || chars[i - 1] == '\\';
        let closes = i + 2 == n || chars[i + 2] == '/' || chars[i + 2] == '\\';
        if chars[i] == '.' && chars[i + 1] == '.' && opens && closes {
            assert(parent_segment_at(path@, i as int));
            return true;
        }
        i += 1;
    }
    false
}

/// Decides whether `path` lies under a root that belongs to the system.
pub fn is_protected(path: &str) -> (r: bool)
    ensures
        r == is_system_path(path@),
{
    str_starts_with(path, "/etc/") || str_starts_with(path, "/proc/") || str_starts_with(
        path,
        "/sys/",
    ) || str_starts_with(path, "C:\\Windows\\") || str_starts_with(path, "C:\\System32\\")
}

/// The guard that every path from the user interface passes before the filesystem
/// is touched. A path with a segment `..` is refused, and so is one that
/// cannot be resolved or that resolves into a system root; any other is let
/// through in its canonical form. A refusal is a validation failure.
pub fn validate_path_security(path: &str, resolution: &PathResolution) -> (r: AppResult<String>)
    ensures
        match guard_decision(path@, *resolution) {
            Ok(canonical) => r matches Ok(p) && p@ == canonical,
            Err(why) => r matches Err(e) && e.is(
                ErrorCategory::Validation,
                "INVALID_INPUT"@,
                why,
                Some("path"@),
            ),
        },
{
    if rejects_traversal(path) {
        return Err(
            AppError::validation_with_field(
                "INVALID_INPUT",
                "Path traversal not allowed: contains '..'",
                "path",
            ),
        );
    }
    let canonical = match resolution {
        PathResolution::Canonical(p) => p,
        PathResolution::Joined(p) => p,
        PathResolution::NoFileName => {
            return Err(AppError::validation_with_field("INVALID_INPUT", "Invalid file path", "path"));
        },
        PathResolution::ParentInaccessible => {
            return Err(
                AppError::validation_with_field(
                    "INVALID_INPUT",
                    "Parent directory is not accessible",
                    "path",
                ),
            );
        },
        PathResolution::NoParent => {
            return Err(
                AppError::validation_with_field(
                    "INVALID_INPUT",
                    "Invalid file path: no parent directory",
                    "path",
                ),
            );
        },
    };
    if is_protected(canonical.as_str()) {
        return Err(
            AppError::validation_with_field(
                "INVALID_INPUT",
                "Access to system directories is not allowed",
                "path",
            ),
        );
    }
    Ok(canonical.clone())
}

/// A path that the guard lets through has no segment `..`, comes out as the
/// filesystem resolved it, and lies under no system root.
pub proof fn lemma_guard_lets_only_safe_paths_through(
    path: Seq<char>,
    resolution: PathResolution,
    canonical: Seq<char>,
)
    requires
        guard_decision(path, resolution) == Ok::<Seq<char>, Seq<char>>(canonical),
    ensures
        !has_traversal(path),
        !is_system_path(canonical),
        resolution matches PathResolution::Canonical(p) ==> canonical == p@,
        resolution matches PathResolution::Joined(p) ==> canonical == p@,
        resolution is Canonical || resolution is Joined,
{
}

/// The failure of an operation whose path the guard refused.
pub fn guard_failure(refusal: &AppError) -> (e: AppError)
    ensures
        e.is(
            ErrorCategory::Validation,
            "INVALID_INPUT"@,
            "Security validation failed: "@ + refusal.message_text(),
            Some("path"@),
        ),
{
    let message = concat2("Security validation failed: ", refusal.message());
    AppError::validation_with_field("INVALID_INPUT", message.as_str(), "path")
}

// ---------------------------------------------------------------------------
// The guarded read
// ---------------------------------------------------------------------------
/// What a guarded read answers.
#[derive(Debug)]
pub struct FileReadResult {
    /// The text, unless the file is binary, too large, or left to hex mode.
    pub content: Option<String>,
    pub size: u64,
    pub is_binary: bool,
    pub is_too_large: bool,
    pub should_use_hex_mode: bool,
    pub warning: Option<String>,
}

/// A size in megabytes with one decimal.
pub open spec fn megabytes(size: u64) -> Seq<char> {
    one_decimal(size as nat, 1_048_576)
}

/// What a read says of a file of `size` bytes, where it says anything.
pub open spec fn size_warning(size: u64) -> Option<Seq<char>> {
    if size > MAX_SAFE_FILE_SIZE {
        Some("File too large ("@ + megabytes(size) + " MB). Maximum supported size is 256 MB."@)
    } else if size > MAX_EDITOR_FILE_SIZE {
        Some(
            "Large file ("@ + megabytes(size)
                + " MB). Opening in read-only hex mode for performance."@,
        )
    } else if size > LARGE_FILE_WARNING {
        Some("Large file ("@ + megabytes(size) + " MB). Some features may be slower."@)
    } else {
        None
    }
}

/// One of the first `BINARY_SNIFF_LENGTH` bytes is zero.
pub open spec fn looks_binary(bytes: Seq<u8>) -> bool {
    exists|i: int| 0 <= i < bytes.len() && i < BINARY_SNIFF_LENGTH && bytes[i] == 0
}

/// The text that invalid UTF-8 is read as by `String::from_utf8_lossy`.
pub uninterp spec fn lossy_text(bytes: Seq<u8>) -> Seq<char>;

/// The text of the bytes of a file: the text they encode, or the lossy
/// reading where they are no valid UTF-8.
pub open spec fn text_of(bytes: Seq<u8>) -> Seq<char> {
    if vstd::utf8::valid_utf8(bytes) {
        vstd::utf8::decode_utf8(bytes)
    } else {
        lossy_text(bytes)
    }
}

/// Calls `String::from_utf8`, which gives the text exactly where the bytes
/// are valid UTF-8.
#[verifier::external_body]
fn decode_strict(bytes: &Vec<u8>) -> (r: Option<String>)
    ensures
        match r {
            Some(s) => vstd::utf8::valid_utf8(bytes@) && s@ == vstd::utf8::decode_utf8(bytes@),
            None => !vstd::utf8::valid_utf8(bytes@),
        },
{
    String::from_utf8(bytes.clone()).ok()
}

/// Calls `String::from_utf8_lossy`, which reads every invalid sequence as the
/// replacement character; the text depends on the bytes alone.
#[verifier::external_body]
fn decode_lossy(bytes: &Vec<u8>) -> (r: String)
    ensures
        r@ == lossy_text(bytes@),
{
    String::from_utf8_lossy(bytes).to_string()
}

/// The size alone decides how a file is read: whether its bytes are wanted.
pub fn wants_bytes(size: u64) -> (r: bool)
    ensures
        r == (size <= MAX_EDITOR_FILE_SIZE),
{
    size <= MAX_EDITOR_FILE_SIZE
}

/// The answer `r` is the guarded read of a file of `size` bytes whose bytes,
/// where they were wanted, are `bytes`.
pub open spec fn is_smart_read(size: u64, bytes: Seq<u8>, r: FileReadResult) -> bool {
    &&& r.size == size
    &&& r.is_too_large == (size > MAX_SAFE_FILE_SIZE)
    &&& r.should_use_hex_mode == (MAX_EDITOR_FILE_SIZE < size <= MAX_SAFE_FILE_SIZE)
    &&& r.is_binary == (size <= MAX_EDITOR_FILE_SIZE && looks_binary(bytes))
    &&& crate::errors::opt_text(r.warning) == size_warning(size)
    &&& crate::errors::opt_text(r.content) == (if size <= MAX_EDITOR_FILE_SIZE && !looks_binary(
        bytes,
    ) {
        Some(text_of(bytes))
    } else {
        None
    })
}

/// A guarded read answers text only for a file that is neither too large,
/// nor left to hex mode, nor binary; and no two of these three hold at once.
pub proof fn lemma_smart_read_dispositions(size: u64, bytes: Seq<u8>, r: FileReadResult)
    requires
        is_smart_read(size, bytes, r),
    ensures
        r.is_too_large ==> r.content is None,
        r.is_binary ==> r.content is None,
        r.should_use_hex_mode ==> r.content is None,
        !(r.is_too_large && r.is_binary),
        !(r.is_too_large && r.should_use_hex_mode),
        !(r.is_binary && r.should_use_hex_mode),
        r.content is Some <==> !r.is_too_large && !r.is_binary && !r.should_use_hex_mode,
        r.warning is Some <==> size > LARGE_FILE_WARNING,
{
}

fn sniff_binary(bytes: &Vec<u8>) -> (r: bool)
    ensures
        r == looks_binary(bytes@),
{
    let mut i: usize = 0;
    while i < bytes.len() && i < BINARY_SNIFF_LENGTH
        invariant
            i <= bytes.len(),
            i <= BINARY_SNIFF_LENGTH,
            forall|k: int| 0 <= k < i ==> bytes@[k] != 0,
        decreases bytes.len() - i,
    {
        if bytes[i] == 0 {
            return true;
        }
        i += 1;
    }
    false
}

fn warning_for(size: u64) -> (r: Option<String>)
    ensures
        crate::errors::opt_text(r) == size_warning(size),
{
    if size > MAX_SAFE_FILE_SIZE {
        Some(
            concat3(
                "File too large (",
                one_decimal_string(size, 1_048_576).as_str(),
                " MB). Maximum supported size is 256 MB.",
            ),
        )
    } else if size > MAX_EDITOR_FILE_SIZE {
        Some(
            concat3(
                "Large file (",
                one_decimal_string(size, 1_048_576).as_str(),
                " MB). Opening in read-only hex mode for performance.",
            ),
        )
    } else if size > LARGE_FILE_WARNING {
        Some(
            concat3(
                "Large file (",
                one_decimal_string(size, 1_048_576).as_str(),
                " MB). Some features may be slower.",
            ),
        )
    } else {
        None
    }
}

/// The guarded read of a file of `size` bytes. Above 256 MiB the file is
/// too large; above 64 MiB it is left to hex mode; in both cases `bytes` is
/// not looked at. Otherwise the file is binary if one of its first 8192
/// bytes is zero, and else its text is answered. Above 1 MiB a warning is
/// attached.
pub fn smart_read(size: u64, bytes: &Vec<u8>) -> (r: FileReadResult)
    ensures
        is_smart_read(size, bytes@, r),
{
    let warning = warning_for(size);
    if size > MAX_SAFE_FILE_SIZE {
        return FileReadResult {
            content: None,
            size,
            is_binary: false,
            is_too_large: true,
            should_use_hex_mode: false,
            warning,
        };
    }
    if size > MAX_EDITOR_FILE_SIZE {
        return FileReadResult {
            content: None,
            size,
            is_binary: false,
            is_too_large: false,
            should_use_hex_mode: true,
            warning,
        };
    }
    let is_binary = sniff_binary(bytes);
    let content = if is_binary {
        None
    } else {
        match decode_strict(bytes) {
            Some(text) => Some(text),
            None => Some(decode_lossy(bytes)),
        }
    };
    FileReadResult {
        content,
        size,
        is_binary,
        is_too_large: false,
        should_use_hex_mode: false,
        warning,
    }
}

/// What the guarded read of a path answers. A path the guard refused, metadata
/// that could not be read, and bytes that were wanted and could not be read
/// are failures; a size disposition is not.
pub open spec fn smart_read_answer(
    guard: AppResult<String>,
    size: Result<u64, String>,
    bytes: Result<Vec<u8>, String>,
    r: TauriResult<FileReadResult>,
) -> bool {
    &&& r.well_formed()
    &&& match guard {
        Err(refusal) => r.is_error(
            rendered(
                "INVALID_INPUT"@,
                "Security validation failed: "@ + refusal.message_text(),
            ),
        ),
        Ok(_) => match size {
            Err(why) => r.is_error(
                rendered("METADATA_READ_FAILED"@, "Failed to read file metadata: "@ + why@),
            ),
            Ok(n) => if n <= MAX_EDITOR_FILE_SIZE && bytes is Err {
                r.is_error(rendered("FILE_READ_FAILED"@, "Failed to read file: "@ + bytes->Err_0@))
            } else {
                r.success && (r.data matches Some(d) && is_smart_read(
                    n,
                    if bytes is Ok {
                        bytes->Ok_0@
                    } else {
                        Seq::empty()
                    },
                    d,
                ))
            },
        },
    }
}

fn failure<T>(e: AppError) -> (r: TauriResult<T>)
    ensures
        r.well_formed(),
        r.is_error(rendered(e.code_text(), e.message_text())),
{
    let text = e.render();
    TauriResult::error(text.as_str())
}

fn filesystem_failure<T>(code: &str, prefix: &str, why: &str) -> (r: TauriResult<T>)
    ensures
        r.well_formed(),
        r.is_error(rendered(code@, prefix@ + why@)),
{
    let message = concat2(prefix, why);
    failure(AppError::filesystem(code, message.as_str()))
}

/// The guarded read of a path, from what the guard said of the path, what
/// its metadata gave as its size, and what reading it gave. The bytes are
/// looked at only where `wants_bytes` says so for the size.
pub fn read_file_smart_impl(
    guard: &AppResult<String>,
    size: &Result<u64, String>,
    bytes: &Result<Vec<u8>, String>,
) -> (r: TauriResult<FileReadResult>)
    ensures
        smart_read_answer(*guard, *size, *bytes, r),
{
    if let Err(refusal) = guard {
        return failure(guard_failure(refusal));
    }
    let n = match size {
        Err(why) => {
            return filesystem_failure(
                "METADATA_READ_FAILED",
                "Failed to read file metadata: ",
                why.as_str(),
            );
        },
        Ok(n) => *n,
    };
    match bytes {
        Ok(b) => TauriResult::success(smart_read(n, b)),
        Err(why) => {
            if n <= MAX_EDITOR_FILE_SIZE {
                filesystem_failure("FILE_READ_FAILED", "Failed to read file: ", why.as_str())
            } else {
                let none: Vec<u8> = Vec::new();
                TauriResult::success(smart_read(n, &none))
            }
        },
    }
}

/// The guarded read under the name the command has.
pub fn read_file_smart(
    guard: &AppResult<String>,
    size: &Result<u64, String>,
    bytes: &Result<Vec<u8>, String>,
) -> (r: TauriResult<FileReadResult>)
    ensures
        smart_read_answer(*guard, *size, *bytes, r),
{
    read_file_smart_impl(guard, size, bytes)
}

/// What a plain read makes of a guarded read: the text, or a failure for a
/// file that is too large, binary, or without text.
pub open spec fn plain_read_answer(smart: TauriResult<FileReadResult>, r: TauriResult<String>) -> bool {
    &&& r.well_formed()
    &&& match smart.data {
        Some(d) => if d.is_too_large {
            r.is_error(rendered("FILE_TOO_LARGE"@, "File too large to read"@))
        } else if d.is_binary {
            r.is_error(rendered("BINARY_FILE"@, "Cannot read binary file as text"@))
        } else {
            match d.content {
                Some(text) => r.success && (r.data matches Some(t) && t@ == text@),
                None => r.is_error(rendered("NO_CONTENT"@, "No content available"@)),
            }
        },
        None => match smart.error {
            Some(e) => r.is_error(e@),
            None => r.is_error(rendered("UNKNOWN_ERROR"@, "Unknown error"@)),
        },
    }
}

/// The plain read of a file, built on its guarded read.
pub fn read_file(smart: &TauriResult<FileReadResult>) -> (r: TauriResult<String>)
    ensures
        plain_read_answer(*smart, r),
{
    match &smart.data {
        Some(d) => {
            if d.is_too_large {
                failure(AppError::filesystem("FILE_TOO_LARGE", "File too large to read"))
            } else if d.is_binary {
                failure(AppError::filesystem("BINARY_FILE", "Cannot read binary file as text"))
            } else {
                match &d.content {
                    Some(text) => TauriResult::success(text.clone()),
                    None => failure(AppError::filesystem("NO_CONTENT", "No content available")),
                }
            }
        },
        None => match &smart.error {
            Some(e) => TauriResult::error(e.as_str()),
            None => failure(AppError::internal("UNKNOWN_ERROR", "Unknown error")),
        },
    }
}

// ---------------------------------------------------------------------------
// Saving and creating
// ---------------------------------------------------------------------------
/// What saving answers: the refusal of the guard, the failure of the write,
/// or the success.
pub open spec fn save_answer(guard: AppResult<String>, written: Result<(), String>, r: TauriResult<
    String,
>) -> bool {
    &&& r.well_formed()
    &&& match guard {
        Err(refusal) => r.is_error(
            rendered(
                "INVALID_INPUT"@,
                "Security validation failed: "@ + refusal.message_text(),
            ),
        ),
        Ok(_) => match written {
            Ok(_) => r.success && (r.data matches Some(t) && t@ == "File saved successfully"@),
            Err(why) => r.is_error(rendered("FILE_WRITE_FAILED"@, "Failed to save file: "@ + why@)),
        },
    }
}

/// The answer of a save, from what the guard said of the path and what the
/// write gave. The write is made only where the guard let the path through.
pub fn save_file_impl(guard: &AppResult<String>, written: &Result<(), String>) -> (r: TauriResult<
    String,
>)
    ensures
        save_answer(*guard, *written, r),
{
    if let Err(refusal) = guard {
        return failure(guard_failure(refusal));
    }
    match written {
        Ok(_) => TauriResult::success(String::from_str("File saved successfully")),
        Err(why) => filesystem_failure("FILE_WRITE_FAILED", "Failed to save file: ", why.as_str()),
    }
}

/// The answer of a save under the name the command has.
pub fn save_file(guard: &AppResult<String>, written: &Result<(), String>) -> (r: TauriResult<String>)
    ensures
        save_answer(*guard, *written, r),
{
    save_file_impl(guard, written)
}

/// The same under the other name the command has.
pub fn write_file(guard: &AppResult<String>, written: &Result<(), String>) -> (r: TauriResult<String>)
    ensures
        save_answer(*guard, *written, r),
{
    save_file_impl(guard, written)
}

/// What is to be done next for a file operation.
#[derive(Debug, Clone, Copy, PartialEq, Eq, Structural)]
pub enum FileStep {
    /// Create the missing directories above the target.
    CreateParents,
    /// Write the content to the new file.
    WriteNew,
    /// Copy one file.
    CopyFile,
    /// Copy a directory with all it holds.
    CopyDirectory,
    /// Rename the source to the target; no copy is made if that fails.
    Rename,
    /// Remove one file.
    RemoveFile,
    /// Remove an empty directory.
    RemoveEmptyDirectory,
    /// Remove a directory with all it holds.
    RemoveDirectoryTree,
}

/// What is known of the place a file is to be created at.
#[derive(Debug, Clone, Copy, PartialEq, Eq, Structural)]
pub struct TargetFacts {
    /// The target exists.
    pub exists: bool,
    /// The target has a parent directory that does not exist.
    pub parent_missing: bool,
}

/// The text a new file gets: the given one or none.
pub open spec fn new_content(content: Option<String>) -> Seq<char> {
    match content {
        Some(c) => c@,
        None => Seq::empty(),
    }
}

/// The text a new file gets.
pub fn content_to_write(content: Option<String>) -> (r: String)
    ensures
        r@ == new_content(content),
{
    match content {
        Some(c) => c,
        None => String::new(),
    }
}

/// What creating a file answers. `parents` is what creating the missing
/// directories gave, where there were any; `written` what the write gave.
/// The file is refused where it exists already.
pub open spec fn create_answer(
    path: Seq<char>,
    target: TargetFacts,
    parents: Result<(), String>,
    written: Result<(), String>,
) -> Result<Seq<char>, (Seq<char>, Seq<char>)> {
    if target.exists {
        Err(("FS_ALREADY_EXISTS"@, "File already exists: "@ + path))
    } else if target.parent_missing && parents is Err {
        Err(
            (
                "FILE_WRITE_FAILED"@,
                "Failed to create parent directories: "@ + parents->Err_0@,
            ),
        )
    } else {
        match written {
            Ok(_) => Ok("File created: "@ + path),
            Err(why) => Err(("FILE_WRITE_FAILED"@, "Failed to create file: "@ + why@)),
        }
    }
}

/// The steps of creating a file, in order: none where the target exists,
/// else the missing directories first and then the write.
pub open spec fn create_steps(target: TargetFacts) -> Seq<FileStep> {
    if target.exists {
        Seq::empty()
    } else if target.parent_missing {
        seq![FileStep::CreateParents, FileStep::WriteNew]
    } else {
        seq![FileStep::WriteNew]
    }
}

/// The steps of creating a file.
pub fn plan_create(target: TargetFacts) -> (steps: Vec<FileStep>)
    ensures
        steps@ == create_steps(target),
{
    let mut steps: Vec<FileStep> = Vec::new();
    if !target.exists {
        if target.parent_missing {
            steps.push(FileStep::CreateParents);
        }
        steps.push(FileStep::WriteNew);
    }
    assert(steps@ =~= create_steps(target));
    steps
}

/// The result `r` carries the text or the filesystem failure `answer`.
pub open spec fn carries(r: AppResult<String>, answer: Result<Seq<char>, (Seq<char>, Seq<char>)>) -> bool {
    match answer {
        Ok(text) => r matches Ok(t) && t@ == text,
        Err((code, message)) => r matches Err(e) && e.is(
            ErrorCategory::Filesystem,
            code,
            message,
            None,
        ),
    }
}

/// The answer of creating the file `path`, from what each step gave.
pub fn create_file_impl(
    path: &str,
    target: TargetFacts,
    parents: &Result<(), String>,
    written: &Result<(), String>,
) -> (r: AppResult<String>)
    ensures
        carries(r, create_answer(path@, target, *parents, *written)),
{
    if target.exists {
        let message = concat2("File already exists: ", path);
        return Err(AppError::filesystem("FS_ALREADY_EXISTS", message.as_str()));
    }
    if target.parent_missing {
        if let Err(why) = parents {
            let message = concat2("Failed to create parent directories: ", why.as_str());
            return Err(AppError::filesystem("FILE_WRITE_FAILED", message.as_str()));
        }
    }
    match written {
        Ok(_) => Ok(concat2("File created: ", path)),
        Err(why) => {
            let message = concat2("Failed to create file: ", why.as_str());
            Err(AppError::filesystem("FILE_WRITE_FAILED", message.as_str()))
        },
    }
}

/// The answer of creating a file under the name the command has.
pub fn create_file(
    path: &str,
    target: TargetFacts,
    parents: &Result<(), String>,
    written: &Result<(), String>,
) -> (r: AppResult<String>)
    ensures
        carries(r, create_answer(path@, target, *parents, *written)),
{
    create_file_impl(path, target, parents, written)
}

// ---------------------------------------------------------------------------
// Deleting
// ---------------------------------------------------------------------------
/// What is known of a path that is to be deleted.
#[derive(Debug)]
pub struct DeleteFacts {
    /// The path exists.
    pub exists: bool,
    /// Whether the metadata call it a directory, or why they could not be
    /// read.
    pub is_directory: Result<bool, String>,
}

/// How a path is deleted: a file is removed; a directory is removed with
/// all it holds where `force` is set, and only if empty otherwise.
pub open spec fn delete_step(is_directory: bool, force: Option<bool>) -> FileStep {
    if !is_directory {
        FileStep::RemoveFile
    } else if force == Some(true) {
        FileStep::RemoveDirectoryTree
    } else {
        FileStep::RemoveEmptyDirectory
    }
}

/// What deleting decides before anything is removed: the step to take, or
/// the failure.
pub open spec fn delete_plan(
    path: Seq<char>,
    guard: AppResult<String>,
    facts: DeleteFacts,
    force: Option<bool>,
) -> Result<FileStep, (ErrorCategory, Seq<char>, Seq<char>)> {
    match guard {
        Err(refusal) => Err(
            (
                ErrorCategory::Validation,
                "INVALID_INPUT"@,
                "Security validation failed: "@ + refusal.message_text(),
            ),
        ),
        Ok(_) => if !facts.exists {
            Err(
                (
                    ErrorCategory::Filesystem,
                    "FILE_NOT_FOUND"@,
                    "File or directory does not exist: "@ + path,
                ),
            )
        } else {
            match facts.is_directory {
                Err(why) => Err(
                    (
                        ErrorCategory::Filesystem,
                        "METADATA_READ_FAILED"@,
                        "Failed to access file: "@ + why@,
                    ),
                ),
                Ok(d) => Ok(delete_step(d, force)),
            }
        },
    }
}

/// Decides how `path` is deleted.
pub fn plan_delete(path: &str, guard: &AppResult<String>, facts: &DeleteFacts, force: Option<bool>) -> (r:
    AppResult<FileStep>)
    ensures
        match delete_plan(path@, *guard, *facts, force) {
            Ok(step) => r == Ok::<FileStep, AppError>(step),
            Err((category, code, message)) => r matches Err(e) && e.category_of() == category
                && e.code_text() == code && e.message_text() == message,
        },
{
    if let Err(refusal) = guard {
        return Err(guard_failure(refusal));
    }
    if !facts.exists {
        let message = concat2("File or directory does not exist: ", path);
        return Err(AppError::filesystem_with_path("FILE_NOT_FOUND", message.as_str(), path));
    }
    match &facts.is_directory {
        Err(why) => {
            let message = concat2("Failed to access file: ", why.as_str());
            Err(AppError::filesystem_with_path("METADATA_READ_FAILED", message.as_str(), path))
        },
        Ok(d) => {
            let forced = match force {
                Some(f) => f,
                None => false,
            };
            if !*d {
                Ok(FileStep::RemoveFile)
            } else if forced {
                Ok(FileStep::RemoveDirectoryTree)
            } else {
                Ok(FileStep::RemoveEmptyDirectory)
            }
        },
    }
}

/// An event to be sent on a named stream.
#[derive(Debug)]
pub struct Emission {
    pub stream: String,
    pub event: FileSystemEvent,
}

/// What a deletion answers and what it makes known.
#[derive(Debug)]
pub struct DeleteOutcome {
    pub answer: AppResult<String>,
    pub emissions: Vec<Emission>,
}

/// What the removal of `path` by `step` answers, given what the removal
/// gave.
pub open spec fn removal_answer(path: Seq<char>, step: FileStep, removed: Result<(), String>) -> Result<
    Seq<char>,
    (Seq<char>, Seq<char>),
> {
    match removed {
        Ok(_) => if step == FileStep::RemoveFile {
            Ok("File deleted: "@ + path)
        } else {
            Ok("Directory deleted: "@ + path)
        },
        Err(why) => if step == FileStep::RemoveFile {
            Err(("FILE_DELETE_FAILED"@, "Failed to delete file: "@ + why@))
        } else if step == FileStep::RemoveDirectoryTree {
            Err(("FILE_DELETE_FAILED"@, "Failed to delete directory: "@ + why@))
        } else {
            Err(
                (
                    "FILE_DELETE_FAILED"@,
                    "Failed to delete directory (may not be empty): "@ + why@,
                ),
            )
        },
    }
}

/// The emission on `stream` says that `path` was deleted at `timestamp`.
pub open spec fn announces_deletion(
    m: Emission,
    stream: Seq<char>,
    path: Seq<char>,
    is_directory: bool,
    timestamp: u64,
) -> bool {
    &&& m.stream@ == stream
    &&& m.event.event_type@ == "deleted"@
    &&& m.event.path@ == path
    &&& m.event.is_directory == is_directory
    &&& m.event.timestamp == timestamp
}

/// The outcome of the removal of `path`. Only a removal that succeeded is
/// made known: then one event goes to the stream of all changes and one to
/// the stream of deletions, both saying that the path was deleted.
pub fn delete_file(
    path: &str,
    step: FileStep,
    was_directory: bool,
    timestamp: u64,
    removed: &Result<(), String>,
) -> (r: DeleteOutcome)
    ensures
        carries(r.answer, removal_answer(path@, step, *removed)),
        removed is Err ==> r.emissions@.len() == 0,
        removed is Ok ==> r.emissions@.len() == 2 && announces_deletion(
            r.emissions@[0],
            "file-system-change"@,
            path@,
            was_directory,
            timestamp,
        ) && announces_deletion(
            r.emissions@[1],
            "file-deleted"@,
            path@,
            was_directory,
            timestamp,
        ),
{
    let mut emissions: Vec<Emission> = Vec::new();
    match removed {
        Ok(_) => {
            emissions.push(
                Emission {
                    stream: String::from_str("file-system-change"),
                    event: event_of("deleted", path, was_directory, timestamp),
                },
            );
            emissions.push(
                Emission {
                    stream: String::from_str("file-deleted"),
                    event: event_of("deleted", path, was_directory, timestamp),
                },
            );
            let text = match step {
                FileStep::RemoveFile => concat2("File deleted: ", path),
                _ => concat2("Directory deleted: ", path),
            };
            DeleteOutcome { answer: Ok(text), emissions }
        },
        Err(why) => {
            let message = match step {
                FileStep::RemoveFile => concat2("Failed to delete file: ", why.as_str()),
                FileStep::RemoveDirectoryTree => concat2("Failed to delete directory: ", why.as_str()),
                _ => concat2("Failed to delete directory (may not be empty): ", why.as_str()),
            };
            DeleteOutcome {
                answer: Err(AppError::filesystem("FILE_DELETE_FAILED", message.as_str())),
                emissions,
            }
        },
    }
}

// ---------------------------------------------------------------------------
// Copying and moving
// ---------------------------------------------------------------------------
/// What is known of the two ends of a copy or a move.
#[derive(Debug, Clone, Copy, PartialEq, Eq, Structural)]
pub struct TransferFacts {
    pub source_exists: bool,
    pub source_is_directory: bool,
    pub target_exists: bool,
    /// The target has a parent directory that does not exist.
    pub target_parent_missing: bool,
}

/// The steps of a copy or a move, in order, or why it is refused: the
/// source has to exist and the target may not.
pub open spec fn transfer_plan(
    source: Seq<char>,
    target: Seq<char>,
    facts: TransferFacts,
    moving: bool,
) -> Result<Seq<FileStep>, (Seq<char>, Seq<char>)> {
    if !facts.source_exists {
        Err(("FILE_NOT_FOUND"@, "Source file does not exist: "@ + source))
    } else if facts.target_exists {
        Err(("FS_ALREADY_EXISTS"@, "Target file already exists: "@ + target))
    } else {
        let last = if moving {
            FileStep::Rename
        } else if facts.source_is_directory {
            FileStep::CopyDirectory
        } else {
            FileStep::CopyFile
        };
        if facts.target_parent_missing {
            Ok(seq![FileStep::CreateParents, last])
        } else {
            Ok(seq![last])
        }
    }
}

/// Plans a copy (`moving` unset) or a move (`moving` set).
pub fn plan_transfer(source: &str, target: &str, facts: TransferFacts, moving: bool) -> (r: AppResult<
    Vec<FileStep>,
>)
    ensures
        match transfer_plan(source@, target@, facts, moving) {
            Ok(steps) => r matches Ok(s) && s@ == steps,
            Err((code, message)) => r matches Err(e) && e.is(
                ErrorCategory::Filesystem,
                code,
                message,
                None,
            ),
        },
{
    if !facts.source_exists {
        let message = concat2("Source file does not exist: ", source);
        return Err(AppError::filesystem("FILE_NOT_FOUND", message.as_str()));
    }
    if facts.target_exists {
        let message = concat2("Target file already exists: ", target);
        return Err(AppError::filesystem("FS_ALREADY_EXISTS", message.as_str()));
    }
    let mut steps: Vec<FileStep> = Vec::new();
    if facts.target_parent_missing {
        steps.push(FileStep::CreateParents);
    }
    if moving {
        steps.push(FileStep::Rename);
    } else if facts.source_is_directory {
        steps.push(FileStep::CopyDirectory);
    } else {
        steps.push(FileStep::CopyFile);
    }
    assert(steps@ =~= transfer_plan(source@, target@, facts, moving)->Ok_0);
    Ok(steps)
}

/// What a step of a copy or a move answers once it was taken: nothing yet
/// after the directories were created, the success after the last step, the
/// failure of the step that failed.
pub open spec fn step_answer(step: FileStep, target: Seq<char>, done: Result<(), String>) -> Option<
    Result<Seq<char>, (Seq<char>, Seq<char>)>,
> {
    match done {
        Ok(_) => match step {
            FileStep::CopyFile => Some(Ok("File copied to "@ + target)),
            FileStep::CopyDirectory => Some(Ok("Directory copied to "@ + target)),
            FileStep::Rename => Some(Ok("File moved to "@ + target)),
            _ => None,
        },
        Err(why) => match step {
            FileStep::CreateParents => Some(
                Err(("FILE_WRITE_FAILED"@, "Failed to create parent directories: "@ + why@)),
            ),
            FileStep::CopyFile => Some(
                Err(("FILE_COPY_FAILED"@, "Failed to copy file: "@ + why@)),
            ),
            FileStep::CopyDirectory => Some(
                Err(("FILE_COPY_FAILED"@, "Failed to copy directory: "@ + why@)),
            ),
            FileStep::Rename => Some(Err(("FILE_MOVE_FAILED"@, "Failed to move file: "@ + why@))),
            _ => Some(Err(("UNKNOWN_ERROR"@, why@))),
        },
    }
}

/// The answer after a step of a copy or a move, where the operation ends
/// with it.
pub fn after_step(step: FileStep, target: &str, done: &Result<(), String>) -> (r: Option<
    AppResult<String>,
>)
    ensures
        match step_answer(step, target@, *done) {
            Some(answer) => r matches Some(a) && carries(a, answer),
            None => r is None,
        },
{
    match done {
        Ok(_) => match step {
            FileStep::CopyFile => Some(Ok(concat2("File copied to ", target))),
            FileStep::CopyDirectory => Some(Ok(concat2("Directory copied to ", target))),
            FileStep::Rename => Some(Ok(concat2("File moved to ", target))),
            _ => None,
        },
        Err(why) => {
            let e = match step {
                FileStep::CreateParents => AppError::filesystem(
                    "FILE_WRITE_FAILED",
                    concat2("Failed to create parent directories: ", why.as_str()).as_str(),
                ),
                FileStep::CopyFile => AppError::filesystem(
                    "FILE_COPY_FAILED",
                    concat2("Failed to copy file: ", why.as_str()).as_str(),
                ),
                FileStep::CopyDirectory => AppError::filesystem(
                    "FILE_COPY_FAILED",
                    concat2("Failed to copy directory: ", why.as_str()).as_str(),
                ),
                FileStep::Rename => AppError::filesystem(
                    "FILE_MOVE_FAILED",
                    concat2("Failed to move file: ", why.as_str()).as_str(),
                ),
                _ => AppError::filesystem("UNKNOWN_ERROR", why.as_str()),
            };
            Some(Err(e))
        },
    }
}

/// Plans the copy of `source` to `target`.
pub fn copy_file(source: &str, target: &str, facts: TransferFacts) -> (r: AppResult<Vec<FileStep>>)
    ensures
        match transfer_plan(source@, target@, facts, false) {
            Ok(steps) => r matches Ok(s) && s@ == steps,
            Err((code, message)) => r matches Err(e) && e.is(
                ErrorCategory::Filesystem,
                code,
                message,
                None,
            ),
        },
{
    plan_transfer(source, target, facts, false)
}

/// Plans the move of `source` to `target`.
pub fn move_file(source: &str, target: &str, facts: TransferFacts) -> (r: AppResult<Vec<FileStep>>)
    ensures
        match transfer_plan(source@, target@, facts, true) {
            Ok(steps) => r matches Ok(s) && s@ == steps,
            Err((code, message)) => r matches Err(e) && e.is(
                ErrorCategory::Filesystem,
                code,
                message,
                None,
            ),
        },
{
    plan_transfer(source, target, facts, true)
}

/// The directory of the application's data, from what resolving it and
/// creating it gave. It is created where it is missing.
pub fn get_app_data_dir(resolved: &Result<String, String>, created: &Result<(), String>) -> (r:
    AppResult<String>)
    ensures
        match resolved {
            Err(why) => r matches Err(e) && e.is(
                ErrorCategory::Filesystem,
                "PATH_NOT_FOUND"@,
                "Failed to get app data directory: "@ + why@,
                None,
            ),
            Ok(path) => match created {
                Err(why) => r matches Err(e) && e.is(
                    ErrorCategory::Filesystem,
                    "DIRECTORY_CREATE_FAILED"@,
                    "Failed to create app data directory: "@ + why@,
                    None,
                ),
                Ok(_) => r matches Ok(p) && p@ == path@,
            },
        },
{
    match resolved {
        Err(why) => {
            let message = concat2("Failed to get app data directory: ", why.as_str());
            Err(AppError::filesystem("PATH_NOT_FOUND", message.as_str()))
        },
        Ok(path) => match created {
            Err(why) => {
                let message = concat2("Failed to create app data directory: ", why.as_str());
                Err(AppError::filesystem("DIRECTORY_CREATE_FAILED", message.as_str()))
            },
            Ok(_) => Ok(path.clone()),
        },
    }
}

} // verus!
