//! Single-level listings for the tree of the user interface: which entries of
//! a directory are shown, what their records say, and the order they come in.

use vstd::prelude::*;
use vstd::string::*;
use crate::errors::{rendered, AppError};
use crate::filesystem::scanning::{extension_text, shown_extension, EntryMetadata};
use crate::ordering::{is_stable_order, key_views, stable_order, KeyView, SortKey};
use crate::text::{
    concat2, count_char, list_has, lowercase, string_texts, to_chars, to_lowercase,
};
use crate::types::{file_records, FileInfoChunk, FileRecord, TauriResult};

verus! {

/// What reading a directory reports of one entry.
#[derive(Debug)]
pub struct DirEntryInfo {
    pub path: String,
    pub name: String,
    /// Whether the entry is a directory, where its type could be read.
    pub is_directory: Option<bool>,
    /// The extension of the name, where it has one.
    pub extension: Option<String>,
    /// The metadata, where they could be read.
    pub metadata: Option<EntryMetadata>,
}

/// The names of directories that a listing leaves out unless hidden folders
/// are asked for; at the root also `.env`.
pub open spec fn noise_directories(root: bool) -> Seq<Seq<char>> {
    let common = seq![
        "node_modules"@,
        ".git"@,
        "target"@,
        ".next"@,
        "dist"@,
        "build"@,
        "__pycache__"@,
        ".pytest_cache"@,
        ".mypy_cache"@,
        ".venv"@,
        "venv"@,
    ];
    if root {
        common.push(".env"@)
    } else {
        common
    }
}

/// The name begins with a dot.
pub open spec fn is_hidden_name(name: Seq<char>) -> bool {
    name.len() > 0 && name[0] == '.'
}

/// A listing shows the entry `e`: its type and metadata could be read, it is
/// not hidden unless hidden entries are asked for, and it is no noise
/// directory unless hidden folders are asked for.
pub open spec fn shows(
    e: DirEntryInfo,
    include_hidden: bool,
    show_hidden_folders: bool,
    noise: Seq<Seq<char>>,
) -> bool {
    &&& e.is_directory is Some
    &&& include_hidden || !is_hidden_name(e.name@)
    &&& show_hidden_folders || !(e.is_directory == Some(true) && noise.contains(e.name@))
    &&& e.metadata is Some
}

/// The record of a shown entry: a directory has the size 0 and no extension.
pub open spec fn entry_record(e: DirEntryInfo, depth: u32) -> FileRecord {
    let directory = e.is_directory == Some(true);
    FileRecord {
        path: e.path@,
        name: e.name@,
        depth,
        size: if directory {
            0
        } else {
            e.metadata->0.len
        },
        last_modified: e.metadata->0.modified,
        extension: if directory {
            Seq::empty()
        } else {
            extension_text(e.extension)
        },
        is_directory: directory,
    }
}

/// The record of a directory has the size 0, and a record of the size 0 is
/// the record of a directory, unless it is the record of a file of no bytes.
pub proof fn lemma_entry_record_size(e: DirEntryInfo, depth: u32)
    ensures
        entry_record(e, depth).is_directory ==> entry_record(e, depth).size == 0,
        entry_record(e, depth).size == 0 && e.metadata->0.len != 0 ==> entry_record(
            e,
            depth,
        ).is_directory,
{
}

/// The records of the entries that a listing shows, in the order they were
/// read.
pub open spec fn shown_records(
    entries: Seq<DirEntryInfo>,
    depth: u32,
    include_hidden: bool,
    show_hidden_folders: bool,
    noise: Seq<Seq<char>>,
) -> Seq<FileRecord>
    decreases entries.len(),
{
    if entries.len() == 0 {
        Seq::empty()
    } else {
        let earlier = shown_records(
            entries.drop_last(),
            depth,
            include_hidden,
            show_hidden_folders,
            noise,
        );
        if shows(entries.last(), include_hidden, show_hidden_folders, noise) {
            earlier.push(entry_record(entries.last(), depth))
        } else {
            earlier
        }
    }
}

/// What a listing orders a record by: directories before files, and within
/// each the names without regard to case.
pub open spec fn listing_key(r: FileRecord) -> KeyView {
    KeyView {
        rank: if r.is_directory {
            0
        } else {
            1
        },
        text: lowercase(r.name),
    }
}

/// The keys of the records of a listing.
pub open spec fn listing_keys(records: Seq<FileRecord>) -> Seq<KeyView> {
    records.map_values(|r: FileRecord| listing_key(r))
}

/// `out` holds the records `records` in the stable ordering of `keys`:
/// ascending by key, records with equal keys in the order they came in.
pub open spec fn arranged(records: Seq<FileRecord>, keys: Seq<KeyView>, out: Seq<FileRecord>) -> bool {
    exists|order: Seq<usize>|
        {
            &&& #[trigger] is_stable_order(keys, order)
            &&& keys.len() == records.len()
            &&& out.len() == order.len()
            &&& forall|i: int| 0 <= i < order.len() ==> out[i] == records[order[i] as int]
        }
}

/// In an arranged listing every record stands before those whose key is
/// greater, so directories precede files.
pub proof fn lemma_arranged_is_ascending(
    records: Seq<FileRecord>,
    keys: Seq<KeyView>,
    out: Seq<FileRecord>,
    i: int,
    j: int,
)
    requires
        arranged(records, keys, out),
        forall|k: int| 0 <= k < records.len() ==> keys[k] == listing_key(#[trigger] records[k]),
        0 <= i < j < out.len(),
    ensures
        crate::ordering::key_le(listing_key(out[i]), listing_key(out[j])),
        out[j].is_directory ==> out[i].is_directory,
{
    let order = choose|order: Seq<usize>|
        {
            &&& #[trigger] is_stable_order(keys, order)
            &&& keys.len() == records.len()
            &&& out.len() == order.len()
            &&& forall|i: int| 0 <= i < order.len() ==> out[i] == records[order[i] as int]
        };
    crate::ordering::lemma_order_is_ascending(keys, order, i, j);
    assert(0 <= order[i] < keys.len());
    assert(0 <= order[j] < keys.len());
}

/// The records `records` in the stable ordering of `keys`.
pub fn arrange(records: &Vec<FileInfoChunk>, keys: &Vec<SortKey>) -> (out: Vec<FileInfoChunk>)
    requires
        records.len() == keys.len(),
    ensures
        arranged(file_records(records@), key_views(keys@), file_records(out@)),
{
    let order = stable_order(keys);
    let mut out: Vec<FileInfoChunk> = Vec::new();
    let mut i: usize = 0;
    while i < order.len()
        invariant
            i <= order.len(),
            records.len() == keys.len(),
            is_stable_order(key_views(keys@), order@),
            out.len() == i,
            forall|k: int|
                0 <= k < i ==> (#[trigger] file_records(out@)[k]) == file_records(
                    records@,
                )[order@[k] as int],
        decreases order.len() - i,
    {
        assert(0 <= order@[i as int] < keys.len());
        let ghost old_out = out@;
        let item = records[order[i]].clone();
        out.push(item);
        proof {
            assert(file_records(out@) =~= file_records(old_out).push(item@));
        }
        i += 1;
    }
    proof {
        assert(file_records(out@).len() == order@.len());
    }
    out
}

/// The key a listing orders the record `r` by.
pub fn key_of_listed(r: &FileInfoChunk) -> (k: SortKey)
    ensures
        k@ == listing_key(r@),
{
    let lower = to_lowercase(r.name.as_str());
    SortKey {
        rank: if r.is_directory {
            0
        } else {
            1
        },
        text: to_chars(lower.as_str()),
    }
}

/// The names of the noise directories.
pub fn noise_list(root: bool) -> (names: Vec<String>)
    ensures
        string_texts(names@) == noise_directories(root),
{
    let mut names: Vec<String> = Vec::new();
    names.push(String::from_str("node_modules"));
    names.push(String::from_str(".git"));
    names.push(String::from_str("target"));
    names.push(String::from_str(".next"));
    names.push(String::from_str("dist"));
    names.push(String::from_str("build"));
    names.push(String::from_str("__pycache__"));
    names.push(String::from_str(".pytest_cache"));
    names.push(String::from_str(".mypy_cache"));
    names.push(String::from_str(".venv"));
    names.push(String::from_str("venv"));
    if root {
        names.push(String::from_str(".env"));
    }
    assert(string_texts(names@) =~= noise_directories(root));
    names
}

/// Decides whether a listing shows `e`.
pub fn is_shown(
    e: &DirEntryInfo,
    include_hidden: bool,
    show_hidden_folders: bool,
    noise: &Vec<String>,
) -> (r: bool)
    ensures
        r == shows(*e, include_hidden, show_hidden_folders, string_texts(noise@)),
{
    let directory = match e.is_directory {
        Some(d) => d,
        None => {
            return false;
        },
    };
    if !include_hidden {
        let name = to_chars(e.name.as_str());
        if name.len() > 0 && name[0] == '.' {
            return false;
        }
    }
    if !show_hidden_folders && directory && list_has(noise, e.name.as_str()) {
        return false;
    }
    e.metadata.is_some()
}

/// The record of a shown entry.
pub fn record_of_entry(e: &DirEntryInfo, depth: u32) -> (r: FileInfoChunk)
    requires
        e.metadata is Some,
    ensures
        r@ == entry_record(*e, depth),
{
    let directory = match e.is_directory {
        Some(d) => d,
        None => false,
    };
    let m = e.metadata.unwrap();
    FileInfoChunk {
        path: e.path.clone(),
        name: e.name.clone(),
        depth,
        size: if directory {
            0
        } else {
            m.len
        },
        last_modified: m.modified,
        extension: if directory {
            String::new()
        } else {
            shown_extension(&e.extension)
        },
        is_directory: directory,
    }
}

fn list_entries(
    entries: &Vec<DirEntryInfo>,
    depth: u32,
    include_hidden: bool,
    show_hidden_folders: bool,
    root: bool,
) -> (out: Vec<FileInfoChunk>)
    ensures
        ({
            let shown = shown_records(
                entries@,
                depth,
                include_hidden,
                show_hidden_folders,
                noise_directories(root),
            );
            arranged(shown, listing_keys(shown), file_records(out@))
        }),
{
    let noise = noise_list(root);
    let mut shown: Vec<FileInfoChunk> = Vec::new();
    let mut keys: Vec<SortKey> = Vec::new();
    let mut i: usize = 0;
    proof {
        assert(entries@.take(0) =~= Seq::empty());
        assert(file_records(shown@) =~= Seq::empty());
        assert(key_views(keys@) =~= listing_keys(file_records(shown@)));
    }
    while i < entries.len()
        invariant
            i <= entries.len(),
            string_texts(noise@) == noise_directories(root),
            file_records(shown@) == shown_records(
                entries@.take(i as int),
                depth,
                include_hidden,
                show_hidden_folders,
                noise_directories(root),
            ),
            keys.len() == shown.len(),
            key_views(keys@) == listing_keys(file_records(shown@)),
        decreases entries.len() - i,
    {
        proof {
            assert(entries@.take(i + 1).drop_last() =~= entries@.take(i as int));
        }
        if is_shown(&entries[i], include_hidden, show_hidden_folders, &noise) {
            let record = record_of_entry(&entries[i], depth);
            let key = key_of_listed(&record);
            let ghost old_shown = shown@;
            let ghost old_keys = keys@;
            shown.push(record);
            keys.push(key);
            proof {
                assert(file_records(shown@) =~= file_records(old_shown).push(record@));
                assert(key_views(keys@) =~= key_views(old_keys).push(key@));
                assert(listing_keys(file_records(shown@)) =~= listing_keys(
                    file_records(old_shown),
                ).push(listing_key(record@)));
            }
        }
        i += 1;
    }
    proof {
        assert(entries@.take(i as int) =~= entries@);
    }
    arrange(&shown, &keys)
}

/// The depth that the listing of the folder `folder_path` gives its
/// entries: one more than the number of slashes in the path.
pub open spec fn folder_depth(folder_path: Seq<char>) -> u32 {
    if count_char(folder_path, '/') + 1 > u32::MAX {
        u32::MAX
    } else {
        (count_char(folder_path, '/') + 1) as u32
    }
}

/// Counts the slashes of `path` and adds one, stopping at the largest 32-bit
/// number.
pub fn depth_of_folder(folder_path: &str) -> (d: u32)
    ensures
        d == folder_depth(folder_path@),
{
    let chars = to_chars(folder_path);
    let mut n: u32 = 1;
    let mut i: usize = 0;
    proof {
        assert(chars@.take(0) =~= Seq::empty());
    }
    while i < chars.len()
        invariant
            i <= chars.len(),
            n == (if count_char(chars@.take(i as int), '/') + 1 > u32::MAX {
                u32::MAX
            } else {
                (count_char(chars@.take(i as int), '/') + 1) as u32
            }),
        decreases chars.len() - i,
    {
        proof {
            assert(chars@.take(i + 1).drop_last() =~= chars@.take(i as int));
        }
        if chars[i] == '/' && n < u32::MAX {
            n += 1;
        }
        i += 1;
    }
    proof {
        assert(chars@.take(i as int) =~= chars@);
    }
    n
}

/// What a listing answers. A path that is no existing directory and a
/// directory that could not be read are filesystem failures. Otherwise the
/// entries that the listing shows are answered, directories first and then
/// files, each group ordered by name without regard to case.
pub open spec fn listing_answer(
    is_directory: bool,
    listing: Result<Vec<DirEntryInfo>, String>,
    depth: u32,
    include_hidden: Option<bool>,
    show_hidden_folders: Option<bool>,
    root: bool,
    r: TauriResult<Vec<FileInfoChunk>>,
) -> bool {
    &&& r.well_formed()
    &&& if !is_directory {
        r.is_error(
            rendered(
                "NOT_A_DIRECTORY"@,
                if root {
                    "Root path does not exist or is not a directory"@
                } else {
                    "Folder does not exist or is not a directory"@
                },
            ),
        )
    } else {
        match listing {
            Err(why) => r.is_error(
                rendered(
                    "WALK_ERROR"@,
                    (if root {
                        "Failed to read root folder: "@
                    } else {
                        "Failed to read folder: "@
                    }) + why@,
                ),
            ),
            Ok(entries) => {
                let shown = shown_records(
                    entries@,
                    depth,
                    include_hidden == Some(true),
                    show_hidden_folders == Some(true),
                    noise_directories(root),
                );
                r.success && (r.data matches Some(out) && arranged(
                    shown,
                    listing_keys(shown),
                    file_records(out@),
                ))
            },
        }
    }
}

fn flag(o: Option<bool>) -> (b: bool)
    ensures
        b == (o == Some(true)),
{
    match o {
        Some(b) => b,
        None => false,
    }
}

fn failure_envelope(code: &str, prefix: &str, why: &str) -> (r: TauriResult<Vec<FileInfoChunk>>)
    ensures
        r.well_formed(),
        r.is_error(rendered(code@, prefix@ + why@)),
{
    let message = concat2(prefix, why);
    let e = AppError::filesystem(code, message.as_str());
    let text = e.render();
    TauriResult::error(text.as_str())
}

/// Lists the folder `folder_path` for lazy loading. `is_directory` says that
/// the path is an existing directory, `listing` what reading it gave. The
/// entries get the depth `folder_depth(folder_path)`.
pub fn load_folder_contents(
    folder_path: &str,
    is_directory: bool,
    listing: &Result<Vec<DirEntryInfo>, String>,
    include_hidden: Option<bool>,
    show_hidden_folders: Option<bool>,
) -> (r: TauriResult<Vec<FileInfoChunk>>)
    ensures
        listing_answer(
            is_directory,
            *listing,
            folder_depth(folder_path@),
            include_hidden,
            show_hidden_folders,
            false,
            r,
        ),
{
    if !is_directory {
        let r = failure_envelope("NOT_A_DIRECTORY", "Folder does not exist or is not a directory", "");
        proof {
            reveal_strlit("");
            assert("Folder does not exist or is not a directory"@ + ""@
                =~= "Folder does not exist or is not a directory"@);
        }
        return r;
    }
    match listing {
        Err(why) => failure_envelope("WALK_ERROR", "Failed to read folder: ", why.as_str()),
        Ok(entries) => {
            let depth = depth_of_folder(folder_path);
            let out = list_entries(
                entries,
                depth,
                flag(include_hidden),
                flag(show_hidden_folders),
                false,
            );
            TauriResult::success(out)
        },
    }
}

/// Lists the root of a workspace. The entries have the depth 0, and `.env` is
/// among the noise directories.
pub fn load_root_items(
    is_directory: bool,
    listing: &Result<Vec<DirEntryInfo>, String>,
    include_hidden: Option<bool>,
    show_hidden_folders: Option<bool>,
) -> (r: TauriResult<Vec<FileInfoChunk>>)
    ensures
        listing_answer(is_directory, *listing, 0, include_hidden, show_hidden_folders, true, r),
{
    if !is_directory {
        let r = failure_envelope(
            "NOT_A_DIRECTORY",
            "Root path does not exist or is not a directory",
            "",
        );
        proof {
            reveal_strlit("");
            assert("Root path does not exist or is not a directory"@ + ""@
                =~= "Root path does not exist or is not a directory"@);
        }
        return r;
    }
    match listing {
        Err(why) => failure_envelope("WALK_ERROR", "Failed to read root folder: ", why.as_str()),
        Ok(entries) => {
            let out = list_entries(entries, 0, flag(include_hidden), flag(show_hidden_folders), true);
            TauriResult::success(out)
        },
    }
}

/// The name of the file that is written to find out whether a folder can
/// be written to.
pub fn permission_probe_name() -> (r: &'static str)
    ensures
        r@ == ".syntari_permission_test"@,
{
    ".syntari_permission_test"
}

/// What is known of a folder whose permissions are asked for.
#[derive(Debug, Clone, Copy, PartialEq, Eq, Structural)]
pub struct FolderAccess {
    pub exists: bool,
    pub is_dir: bool,
    /// The folder could be read.
    pub readable: bool,
    /// The probe file could be written.
    pub writable: bool,
}

/// Whether a folder can be used: it exists, is a directory, can be read and
/// can be written to. The answer is a success in every case.
pub fn check_folder_permissions(access: FolderAccess) -> (r: TauriResult<bool>)
    ensures
        r.well_formed(),
        r.is_success(access.exists && access.is_dir && access.readable && access.writable),
{
    TauriResult::success(access.exists && access.is_dir && access.readable && access.writable)
}

/// What reading the modification time of a directory gave.
#[derive(Debug)]
pub enum ModifiedTime {
    /// The time, in seconds since the Unix epoch.
    At(u64),
    /// The metadata have no modification time; the text says why.
    Unavailable(String),
    /// The metadata could not be read; the text says why.
    NoMetadata(String),
}

/// What asking for the modification time of a directory answers.
pub open spec fn mtime_answer(read: ModifiedTime, r: TauriResult<u64>) -> bool {
    &&& r.well_formed()
    &&& match read {
        ModifiedTime::At(t) => r.is_success(t),
        ModifiedTime::Unavailable(why) => r.is_error(
            rendered("METADATA_READ_FAILED"@, "Failed to get modification time: "@ + why@),
        ),
        ModifiedTime::NoMetadata(why) => r.is_error(
            rendered("METADATA_READ_FAILED"@, "Failed to read directory metadata: "@ + why@),
        ),
    }
}

fn failed<T>(code: &str, prefix: &str, why: &str) -> (r: TauriResult<T>)
    ensures
        r.well_formed(),
        r.is_error(rendered(code@, prefix@ + why@)),
{
    let message = concat2(prefix, why);
    let e = AppError::filesystem(code, message.as_str());
    let text = e.render();
    TauriResult::error(text.as_str())
}

/// The modification time of a directory, from what reading it gave.
pub fn get_directory_mtime(read: &ModifiedTime) -> (r: TauriResult<u64>)
    ensures
        mtime_answer(*read, r),
{
    match read {
        ModifiedTime::At(t) => TauriResult::success(*t),
        ModifiedTime::Unavailable(why) => failed(
            "METADATA_READ_FAILED",
            "Failed to get modification time: ",
            why.as_str(),
        ),
        ModifiedTime::NoMetadata(why) => failed(
            "METADATA_READ_FAILED",
            "Failed to read directory metadata: ",
            why.as_str(),
        ),
    }
}

/// What creating a directory with all its parents answers, from what the
/// creation gave. Creating a directory that exists succeeds.
pub fn create_dir_all(created: &Result<(), String>) -> (r: TauriResult<String>)
    ensures
        r.well_formed(),
        match created {
            Ok(_) => r.success && (r.data matches Some(t) && t@ == "Directory created successfully"@),
            Err(why) => r.is_error(
                rendered("DIRECTORY_CREATE_FAILED"@, "Failed to create directory: "@ + why@),
            ),
        },
{
    match created {
        Ok(_) => TauriResult::success(String::from_str("Directory created successfully")),
        Err(why) => failed("DIRECTORY_CREATE_FAILED", "Failed to create directory: ", why.as_str()),
    }
}

/// What creating a new directory answers. A directory that exists is
/// refused and nothing is created; else the answer follows what the
/// creation gave.
pub fn create_directory(path: &str, exists: bool, created: &Result<(), String>) -> (r: Result<
    String,
    AppError,
>)
    ensures
        match r {
            Ok(t) => !exists && created is Ok && t@ == "Directory created: "@ + path@,
            Err(e) => if exists {
                e.is(
                    crate::errors::ErrorCategory::Filesystem,
                    "FS_ALREADY_EXISTS"@,
                    "Directory already exists: "@ + path@,
                    Some(path@),
                )
            } else {
                created matches Err(why) && e.is(
                    crate::errors::ErrorCategory::Filesystem,
                    "DIRECTORY_CREATE_FAILED"@,
                    "Failed to create directory: "@ + why@,
                    Some(path@),
                )
            },
        },
{
    if exists {
        let message = concat2("Directory already exists: ", path);
        return Err(AppError::filesystem_with_path("FS_ALREADY_EXISTS", message.as_str(), path));
    }
    match created {
        Ok(_) => Ok(concat2("Directory created: ", path)),
        Err(why) => {
            let message = concat2("Failed to create directory: ", why.as_str());
            Err(AppError::filesystem_with_path("DIRECTORY_CREATE_FAILED", message.as_str(), path))
        },
    }
}

/// The folder dialog is shown by the user interface: the answer is a
/// success without a folder.
pub fn open_folder_dialog() -> (r: TauriResult<Option<String>>)
    ensures
        r.well_formed(),
        r.is_success(None),
{
    TauriResult::success(None)
}

} // verus!
