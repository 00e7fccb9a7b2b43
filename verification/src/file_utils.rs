//! What is said of a file from its name and its size: the language it is
//! written in, the icon it gets, its size for people, and whether an editor
//! should open it.

use vstd::prelude::*;
use vstd::string::*;
use crate::errors::{AppError, AppResult, ErrorCategory};
use crate::filesystem::scanning::EntryMetadata;
use crate::text::{
    chars_eq, concat2, concat3, decimal, decimal_string, lowercase, one_decimal,
    one_decimal_string, str_eq, to_chars, to_lowercase,
};
use crate::types::FileInfo;

verus! {

/// The language of a file with the extension `ext`, where the extension says
/// it.
pub open spec fn language_of_extension(ext: Seq<char>) -> Option<Seq<char>> {
    if ext == "rs"@ {
        Some("rust"@)
    } else if ext == "js"@ || ext == "jsx"@ {
        Some("javascript"@)
    } else if ext == "ts"@ || ext == "tsx"@ {
        Some("typescript"@)
    } else if ext == "py"@ {
        Some("python"@)
    } else if ext == "java"@ {
        Some("java"@)
    } else if ext == "go"@ {
        Some("go"@)
    } else if ext == "php"@ {
        Some("php"@)
    } else if ext == "rb"@ {
        Some("ruby"@)
    } else if ext == "cs"@ {
        Some("csharp"@)
    } else if ext == "cpp"@ || ext == "cc"@ || ext == "cxx"@ {
        Some("cpp"@)
    } else if ext == "c"@ || ext == "h"@ || ext == "hpp"@ {
        Some("c"@)
    } else if ext == "json"@ {
        Some("json"@)
    } else if ext == "toml"@ {
        Some("toml"@)
    } else if ext == "yaml"@ || ext == "yml"@ {
        Some("yaml"@)
    } else if ext == "xml"@ {
        Some("xml"@)
    } else if ext == "html"@ || ext == "htm"@ {
        Some("html"@)
    } else if ext == "css"@ {
        Some("css"@)
    } else if ext == "scss"@ || ext == "sass"@ {
        Some("scss"@)
    } else if ext == "md"@ || ext == "markdown"@ {
        Some("markdown"@)
    } else if ext == "sql"@ {
        Some("sql"@)
    } else if ext == "sh"@ || ext == "bash"@ {
        Some("shell"@)
    } else if ext == "ps1"@ {
        Some("powershell"@)
    } else if ext == "dockerfile"@ {
        Some("dockerfile"@)
    } else if ext == "makefile"@ {
        Some("makefile"@)
    } else {
        None
    }
}

/// The language of a file whose name in lower case is `name`, where the
/// extension does not say it.
pub open spec fn language_of_name(name: Seq<char>) -> Seq<char> {
    if name == "dockerfile"@ || name == "containerfile"@ {
        "dockerfile"@
    } else if name == "makefile"@ || name == "gnumakefile"@ {
        "makefile"@
    } else if name == "rakefile"@ || name == "gemfile"@ || name == "gemfile.lock"@ {
        "ruby"@
    } else if name == "cargo.toml"@ || name == "cargo.lock"@ {
        "toml"@
    } else if name == "package.json"@ || name == "package-lock.json"@ || name
        == "tsconfig.json"@ {
        "json"@
    } else if name == "readme.md"@ || name == "readme"@ {
        "markdown"@
    } else {
        "plaintext"@
    }
}

/// The language of a file: by its extension, compared as it is written, or
/// else by its name, compared without regard to case; `plaintext` where
/// neither says it.
pub open spec fn language_of(extension: Option<Seq<char>>, file_name: Option<Seq<char>>) -> Seq<
    char,
> {
    if extension is Some && language_of_extension(extension->0) is Some {
        language_of_extension(extension->0)->0
    } else {
        match file_name {
            Some(name) => language_of_name(lowercase(name)),
            None => "plaintext"@,
        }
    }
}

fn is(text: &Vec<char>, literal: &str) -> (r: bool)
    ensures
        r == (text@ == literal@),
{
    let other = to_chars(literal);
    chars_eq(text, &other)
}

fn extension_language(ext: &str) -> (r: Option<&'static str>)
    ensures
        match language_of_extension(ext@) {
            Some(l) => r matches Some(x) && x@ == l,
            None => r is None,
        },
{
    let e = to_chars(ext);
    if is(&e, "rs") {
        Some("rust")
    } else if is(&e, "js") || is(&e, "jsx") {
        Some("javascript")
    } else if is(&e, "ts") || is(&e, "tsx") {
        Some("typescript")
    } else if is(&e, "py") {
        Some("python")
    } else if is(&e, "java") {
        Some("java")
    } else if is(&e, "go") {
        Some("go")
    } else if is(&e, "php") {
        Some("php")
    } else if is(&e, "rb") {
        Some("ruby")
    } else if is(&e, "cs") {
        Some("csharp")
    } else if is(&e, "cpp") || is(&e, "cc") || is(&e, "cxx") {
        Some("cpp")
    } else if is(&e, "c") || is(&e, "h") || is(&e, "hpp") {
        Some("c")
    } else if is(&e, "json") {
        Some("json")
    } else if is(&e, "toml") {
        Some("toml")
    } else if is(&e, "yaml") || is(&e, "yml") {
        Some("yaml")
    } else if is(&e, "xml") {
        Some("xml")
    } else if is(&e, "html") || is(&e, "htm") {
        Some("html")
    } else if is(&e, "css") {
        Some("css")
    } else if is(&e, "scss") || is(&e, "sass") {
        Some("scss")
    } else if is(&e, "md") || is(&e, "markdown") {
        Some("markdown")
    } else if is(&e, "sql") {
        Some("sql")
    } else if is(&e, "sh") || is(&e, "bash") {
        Some("shell")
    } else if is(&e, "ps1") {
        Some("powershell")
    } else if is(&e, "dockerfile") {
        Some("dockerfile")
    } else if is(&e, "makefile") {
        Some("makefile")
    } else {
        None
    }
}

fn name_language(lower_name: &str) -> (r: &'static str)
    ensures
        r@ == language_of_name(lower_name@),
{
    let n = to_chars(lower_name);
    if is(&n, "dockerfile") || is(&n, "containerfile") {
        "dockerfile"
    } else if is(&n, "makefile") || is(&n, "gnumakefile") {
        "makefile"
    } else if is(&n, "rakefile") || is(&n, "gemfile") || is(&n, "gemfile.lock") {
        "ruby"
    } else if is(&n, "cargo.toml") || is(&n, "cargo.lock") {
        "toml"
    } else if is(&n, "package.json") || is(&n, "package-lock.json") || is(&n, "tsconfig.json") {
        "json"
    } else if is(&n, "readme.md") || is(&n, "readme") {
        "markdown"
    } else {
        "plaintext"
    }
}

/// The text of an optional string slice, where there is one.
pub open spec fn str_text(o: Option<&str>) -> Option<Seq<char>> {
    match o {
        Some(s) => Some(s@),
        None => None,
    }
}

/// The language of a file, from the extension and the final component of
/// its path.
pub fn detect_language_from_extension(extension: Option<&str>, file_name: Option<&str>) -> (r:
    String)
    ensures
        r@ == language_of(str_text(extension), str_text(file_name)),
{
    if let Some(ext) = extension {
        if let Some(language) = extension_language(ext) {
            return String::from_str(language);
        }
    }
    match file_name {
        Some(name) => {
            let lower = to_lowercase(name);
            String::from_str(name_language(lower.as_str()))
        },
        None => String::from_str("plaintext"),
    }
}

/// The icon of a file written in `language`.
pub open spec fn icon_of_language(language: Seq<char>) -> Seq<char> {
    if language == "rust"@ {
        "rust"@
    } else if language == "javascript"@ {
        "javascript"@
    } else if language == "typescript"@ {
        "typescript"@
    } else if language == "python"@ {
        "python"@
    } else if language == "java"@ {
        "java"@
    } else if language == "go"@ {
        "go"@
    } else if language == "php"@ {
        "php"@
    } else if language == "ruby"@ {
        "ruby"@
    } else if language == "csharp"@ {
        "csharp"@
    } else if language == "cpp"@ || language == "c"@ {
        "cpp"@
    } else if language == "json"@ {
        "json"@
    } else if language == "toml"@ {
        "config"@
    } else if language == "yaml"@ {
        "yaml"@
    } else if language == "xml"@ {
        "xml"@
    } else if language == "html"@ {
        "html"@
    } else if language == "css"@ || language == "scss"@ {
        "css"@
    } else if language == "markdown"@ {
        "markdown"@
    } else if language == "sql"@ {
        "database"@
    } else if language == "shell"@ || language == "powershell"@ {
        "terminal"@
    } else if language == "dockerfile"@ {
        "docker"@
    } else if language == "makefile"@ {
        "gear"@
    } else {
        "file"@
    }
}

/// The icon of an entry: `folder` for a directory, else the icon of the
/// language of the file.
pub open spec fn icon_of(
    extension: Option<Seq<char>>,
    file_name: Option<Seq<char>>,
    is_directory: bool,
) -> Seq<char> {
    if is_directory {
        "folder"@
    } else {
        icon_of_language(language_of(extension, file_name))
    }
}

/// The icon of an entry.
pub fn get_file_icon_id(extension: Option<&str>, file_name: Option<&str>, is_directory: bool) -> (r:
    String)
    ensures
        r@ == icon_of(str_text(extension), str_text(file_name), is_directory),
{
    if is_directory {
        return String::from_str("folder");
    }
    let language = detect_language_from_extension(extension, file_name);
    let l = to_chars(language.as_str());
    let icon = if is(&l, "rust") {
        "rust"
    } else if is(&l, "javascript") {
        "javascript"
    } else if is(&l, "typescript") {
        "typescript"
    } else if is(&l, "python") {
        "python"
    } else if is(&l, "java") {
        "java"
    } else if is(&l, "go") {
        "go"
    } else if is(&l, "php") {
        "php"
    } else if is(&l, "ruby") {
        "ruby"
    } else if is(&l, "csharp") {
        "csharp"
    } else if is(&l, "cpp") || is(&l, "c") {
        "cpp"
    } else if is(&l, "json") {
        "json"
    } else if is(&l, "toml") {
        "config"
    } else if is(&l, "yaml") {
        "yaml"
    } else if is(&l, "xml") {
        "xml"
    } else if is(&l, "html") {
        "html"
    } else if is(&l, "css") || is(&l, "scss") {
        "css"
    } else if is(&l, "markdown") {
        "markdown"
    } else if is(&l, "sql") {
        "database"
    } else if is(&l, "shell") || is(&l, "powershell") {
        "terminal"
    } else if is(&l, "dockerfile") {
        "docker"
    } else if is(&l, "makefile") {
        "gear"
    } else {
        "file"
    };
    String::from_str(icon)
}

/// The number of bytes in a kilobyte, as sizes are shown.
pub const KILOBYTE: u64 = 1024;

/// The number of bytes in a megabyte.
pub const MEGABYTE: u64 = 1_048_576;

/// The number of bytes in a gigabyte.
pub const GIGABYTE: u64 = 1_073_741_824;

/// The number of bytes in a terabyte.
pub const TERABYTE: u64 = 1_099_511_627_776;

/// Largest size an editor opens, in bytes (64 MiB).
pub const MAX_SAFE_SIZE: u64 = 67_108_864;

/// Size above which an editor warns, in bytes (1 MiB).
pub const LARGE_FILE_WARNING: u64 = 1_048_576;

/// A size for people: whole bytes below a kilobyte, else the largest unit
/// up to the terabyte that the size reaches, with one decimal.
pub open spec fn file_size_text(size: u64) -> Seq<char> {
    if size < KILOBYTE {
        decimal(size as nat) + " B"@
    } else if size < MEGABYTE {
        one_decimal(size as nat, KILOBYTE as nat) + " KB"@
    } else if size < GIGABYTE {
        one_decimal(size as nat, MEGABYTE as nat) + " MB"@
    } else if size < TERABYTE {
        one_decimal(size as nat, GIGABYTE as nat) + " GB"@
    } else {
        one_decimal(size as nat, TERABYTE as nat) + " TB"@
    }
}

/// Writes a size for people.
pub fn format_file_size(size: u64) -> (r: String)
    ensures
        r@ == file_size_text(size),
{
    if size < KILOBYTE {
        concat2(decimal_string(size).as_str(), " B")
    } else if size < MEGABYTE {
        concat2(one_decimal_string(size, KILOBYTE).as_str(), " KB")
    } else if size < GIGABYTE {
        concat2(one_decimal_string(size, MEGABYTE).as_str(), " MB")
    } else if size < TERABYTE {
        concat2(one_decimal_string(size, GIGABYTE).as_str(), " GB")
    } else {
        concat2(one_decimal_string(size, TERABYTE).as_str(), " TB")
    }
}

/// What is said of opening a file of `size` bytes, where anything is said.
pub open spec fn open_advice(size: u64) -> Option<Seq<char>> {
    if size > MAX_SAFE_SIZE {
        Some("File too large ("@ + file_size_text(size) + ") to open safely"@)
    } else if size > LARGE_FILE_WARNING {
        Some("Large file ("@ + file_size_text(size) + "). Some features may be slower"@)
    } else {
        None
    }
}

/// Whether an editor should open a file of `size` bytes, and what it should
/// say. A file above 64 MiB is not opened; above 1 MiB it is opened with a
/// warning; at either limit exactly, the smaller rule applies.
pub fn is_safe_to_open(size: u64) -> (r: (bool, Option<String>))
    ensures
        r.0 == (size <= MAX_SAFE_SIZE),
        match open_advice(size) {
            Some(text) => r.1 matches Some(t) && t@ == text,
            None => r.1 is None,
        },
{
    if size > MAX_SAFE_SIZE {
        let text = concat3("File too large (", format_file_size(size).as_str(), ") to open safely");
        return (false, Some(text));
    }
    if size > LARGE_FILE_WARNING {
        let text = concat3(
            "Large file (",
            format_file_size(size).as_str(),
            "). Some features may be slower",
        );
        return (true, Some(text));
    }
    (true, None)
}

/// What the filesystem says of a path.
#[derive(Debug, Clone, Copy, PartialEq, Eq, Structural)]
pub struct PathFacts {
    pub exists: bool,
    pub is_dir: bool,
    pub is_file: bool,
}

/// Why a path cannot be used for `operation`, where it cannot: the code and
/// the message.
pub open spec fn access_refusal(facts: PathFacts, operation: Seq<char>) -> Option<
    (Seq<char>, Seq<char>),
> {
    if !facts.exists {
        Some(("PATH_NOT_FOUND"@, "Path does not exist for "@ + operation))
    } else if !facts.is_dir {
        Some(("NOT_A_DIRECTORY"@, "Path is not a directory"@))
    } else if operation == "file"@ && !facts.is_file {
        Some(("NOT_A_FILE"@, "Path is not a file"@))
    } else {
        None
    }
}

/// The result `r` refuses `path` for the reason `refusal`, or accepts it
/// where there is none.
pub open spec fn refuses(r: AppResult<()>, refusal: Option<(Seq<char>, Seq<char>)>, path: Seq<char>) -> bool {
    match refusal {
        Some((code, message)) => r matches Err(e) && e.is(
            ErrorCategory::Filesystem,
            code,
            message,
            Some(path),
        ),
        None => r is Ok,
    }
}

/// Checks that `path` exists and is a directory before `operation`.
pub fn validate_path_access(path: &str, facts: PathFacts, operation: &str) -> (r: AppResult<()>)
    ensures
        refuses(r, access_refusal(facts, operation@), path@),
{
    if !facts.exists {
        let message = concat2("Path does not exist for ", operation);
        return Err(AppError::filesystem_with_path("PATH_NOT_FOUND", message.as_str(), path));
    }
    if !facts.is_dir {
        return Err(
            AppError::filesystem_with_path("NOT_A_DIRECTORY", "Path is not a directory", path),
        );
    }
    if str_eq(operation, "file") && !facts.is_file {
        return Err(AppError::filesystem_with_path("NOT_A_FILE", "Path is not a file", path));
    }
    Ok(())
}

/// Checks that `path` is an existing directory.
pub fn validate_directory(path: &str, facts: PathFacts) -> (r: AppResult<()>)
    ensures
        refuses(r, access_refusal(facts, "directory access"@), path@),
{
    validate_path_access(path, facts, "directory access")
}

/// Why a path is refused as a file.
pub open spec fn file_refusal(facts: PathFacts) -> Option<(Seq<char>, Seq<char>)> {
    match access_refusal(facts, "file access"@) {
        Some(r) => Some(r),
        None => if !facts.is_file {
            Some(("NOT_A_FILE"@, "Path is not a file"@))
        } else {
            None
        },
    }
}

/// Checks `path` as a file: it has to pass the check of a directory's
/// access first, and to be a file then.
pub fn validate_file(path: &str, facts: PathFacts) -> (r: AppResult<()>)
    ensures
        refuses(r, file_refusal(facts), path@),
{
    match validate_path_access(path, facts, "file access") {
        Err(e) => Err(e),
        Ok(_) => {
            if !facts.is_file {
                Err(AppError::filesystem_with_path("NOT_A_FILE", "Path is not a file", path))
            } else {
                Ok(())
            }
        },
    }
}

/// What the description of a file answers: a failure where the path does not
/// exist, is no file, or has no readable metadata; else the description.
pub open spec fn file_info_answer(
    path: Seq<char>,
    file_name: Option<Seq<char>>,
    extension: Option<Seq<char>>,
    facts: PathFacts,
    metadata: Result<EntryMetadata, String>,
    content: Option<Seq<char>>,
    r: AppResult<FileInfo>,
) -> bool {
    if !facts.exists {
        r matches Err(e) && e.is(
            ErrorCategory::Filesystem,
            "FILE_NOT_FOUND"@,
            "File does not exist"@,
            Some(path),
        )
    } else if !facts.is_file {
        r matches Err(e) && e.is(
            ErrorCategory::Filesystem,
            "NOT_A_FILE"@,
            "Path is not a file"@,
            Some(path),
        )
    } else {
        match metadata {
            Err(why) => r matches Err(e) && e.is(
                ErrorCategory::Filesystem,
                "METADATA_READ_FAILED"@,
                "Failed to read file metadata: "@ + why@,
                Some(path),
            ),
            Ok(m) => r matches Ok(info) && {
                &&& info.path@ == path
                &&& info.name@ == (match file_name {
                    Some(n) => n,
                    None => "unknown"@,
                })
                &&& info.extension@ == (match extension {
                    Some(x) => x,
                    None => Seq::empty(),
                })
                &&& info.size == m.len
                &&& info.last_modified == m.modified
                &&& crate::errors::opt_text(info.content) == content
                &&& crate::errors::opt_text(info.language) == Some(language_of(extension, file_name))
            },
        }
    }
}

/// Describes the file at `path` from what was read of it: its facts, its
/// metadata, and its text where that was asked for and could be read.
pub fn create_file_info_with_content(
    path: &str,
    file_name: Option<&str>,
    extension: Option<&str>,
    facts: PathFacts,
    metadata: &Result<EntryMetadata, String>,
    content: Option<&str>,
) -> (r: AppResult<FileInfo>)
    ensures
        file_info_answer(
            path@,
            str_text(file_name),
            str_text(extension),
            facts,
            *metadata,
            str_text(content),
            r,
        ),
{
    if !facts.exists {
        return Err(AppError::filesystem_with_path("FILE_NOT_FOUND", "File does not exist", path));
    }
    if !facts.is_file {
        return Err(AppError::filesystem_with_path("NOT_A_FILE", "Path is not a file", path));
    }
    let m = match metadata {
        Err(why) => {
            let message = concat2("Failed to read file metadata: ", why.as_str());
            return Err(AppError::filesystem_with_path("METADATA_READ_FAILED", message.as_str(), path));
        },
        Ok(m) => *m,
    };
    Ok(
        FileInfo {
            path: String::from_str(path),
            name: match file_name {
                Some(n) => String::from_str(n),
                None => String::from_str("unknown"),
            },
            extension: match extension {
                Some(x) => String::from_str(x),
                None => String::new(),
            },
            size: m.len,
            last_modified: m.modified,
            content: match content {
                Some(c) => Some(String::from_str(c)),
                None => None,
            },
            language: Some(detect_language_from_extension(extension, file_name)),
        },
    )
}

} // verus!
