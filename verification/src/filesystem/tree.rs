//! Recursive scans over a directory tree as it was read: the scan of
//! directories only, and the clean scan of everything.

use vstd::prelude::*;
use vstd::string::*;
use crate::errors::rendered;
use crate::filesystem::scanning::{extension_text, shown_extension, EntryMetadata};
use crate::filesystem::dir_ops::{arrange, arranged};
use crate::ordering::{key_views, KeyView, SortKey};
use crate::text::{concat2, list_has, string_texts, to_chars};
use crate::types::{
    directory_records, file_records, DirectoryInfo, DirectoryRecord, FileInfoChunk, FileRecord,
    TauriResult,
};

verus! {

/// What reading a directory gave.
#[derive(Debug)]
pub enum Listing {
    /// The directory was not read; it counts as empty.
    NotRead,
    /// The directory could not be read; the text says why.
    Failed(String),
    /// The entries, in the order they were read.
    Entries(Vec<TreeEntry>),
}

/// One entry of a directory, with what lies below it.
#[derive(Debug)]
pub struct TreeEntry {
    /// Why the entry or its type could not be read, where that failed; the
    /// other fields then say nothing.
    pub failure: Option<String>,
    pub path: String,
    pub name: String,
    pub is_directory: bool,
    /// The entry is a regular file.
    pub is_file: bool,
    /// The extension of the name, where it has one.
    pub extension: Option<String>,
    /// The metadata, or why they could not be read.
    pub metadata: Result<EntryMetadata, String>,
    /// What lies in the entry, where it is a directory.
    pub children: Listing,
}

/// The names of directories that a scan of directories passes over where the
/// caller names none.
pub open spec fn default_ignored_directories() -> Seq<Seq<char>> {
    seq![".git"@, "node_modules"@, "target"@, ".next"@, "dist"@, "build"@]
}

/// The depth one level below `depth`.
pub open spec fn deeper(depth: u32) -> u32 {
    if depth == u32::MAX {
        depth
    } else {
        (depth + 1) as u32
    }
}

/// The record of the directory `e` found at `depth`.
pub open spec fn directory_record(e: TreeEntry, depth: u32) -> DirectoryRecord {
    DirectoryRecord {
        path: e.path@,
        name: e.name@,
        depth,
        last_modified: e.metadata->Ok_0.modified,
    }
}

/// The directories found in a listing at `depth`, or the text of the first
/// failure met. Nothing is looked at below `max_depth`.
pub open spec fn directories_in(
    listing: Listing,
    depth: u32,
    max_depth: Option<u32>,
    ignored: Seq<Seq<char>>,
) -> Result<Seq<DirectoryRecord>, Seq<char>>
    decreases listing, 1int,
{
    if max_depth matches Some(m) && depth > m {
        Ok(Seq::empty())
    } else {
        match listing {
            Listing::NotRead => Ok(Seq::empty()),
            Listing::Failed(why) => Err(why@),
            Listing::Entries(entries) => directories_among(entries@, depth, max_depth, ignored),
        }
    }
}

/// The directories found among `entries` and below them, each directory
/// before what lies in it, or the text of the first failure met. Entries that
/// are no directories and directories with an ignored name are passed over.
pub open spec fn directories_among(
    entries: Seq<TreeEntry>,
    depth: u32,
    max_depth: Option<u32>,
    ignored: Seq<Seq<char>>,
) -> Result<Seq<DirectoryRecord>, Seq<char>>
    decreases entries, 0int,
{
    if entries.len() == 0 {
        Ok(Seq::empty())
    } else {
        let e = entries[0];
        let rest = entries.subrange(1, entries.len() as int);
        if let Some(why) = e.failure {
            Err(why@)
        } else if !e.is_directory || ignored.contains(e.name@) {
            directories_among(rest, depth, max_depth, ignored)
        } else {
            match e.metadata {
                Err(why) => Err(why@),
                Ok(_) => match directories_in(e.children, deeper(depth), max_depth, ignored) {
                    Err(why) => Err(why),
                    Ok(below) => match directories_among(rest, depth, max_depth, ignored) {
                        Err(why) => Err(why),
                        Ok(after) => Ok(seq![directory_record(e, depth)] + below + after),
                    },
                },
            }
        }
    }
}

fn directories_in_listing(
    listing: &Listing,
    depth: u32,
    max_depth: Option<u32>,
    ignored: &Vec<String>,
    out: &mut Vec<DirectoryInfo>,
) -> (r: Result<(), String>)
    ensures
        match directories_in(*listing, depth, max_depth, string_texts(ignored@)) {
            Ok(found) => r is Ok && directory_records(final(out)@) == directory_records(old(out)@)
                + found,
            Err(why) => r matches Err(e) && e@ == why,
        },
    decreases listing, 1int,
{
    if let Some(m) = max_depth {
        if depth > m {
            assert(directory_records(out@) + Seq::<DirectoryRecord>::empty() =~= directory_records(
                out@,
            ));
            return Ok(());
        }
    }
    match listing {
        Listing::NotRead => {
            assert(directory_records(out@) + Seq::<DirectoryRecord>::empty() =~= directory_records(
                out@,
            ));
            Ok(())
        },
        Listing::Failed(why) => Err(why.clone()),
        Listing::Entries(entries) => {
            assert(entries@.subrange(0, entries.len() as int) =~= entries@);
            directories_among_entries(entries, 0, depth, max_depth, ignored, out)
        },
    }
}

fn directories_among_entries(
    entries: &Vec<TreeEntry>,
    from: usize,
    depth: u32,
    max_depth: Option<u32>,
    ignored: &Vec<String>,
    out: &mut Vec<DirectoryInfo>,
) -> (r: Result<(), String>)
    requires
        from <= entries.len(),
    ensures
        match directories_among(
            entries@.subrange(from as int, entries.len() as int),
            depth,
            max_depth,
            string_texts(ignored@),
        ) {
            Ok(found) => r is Ok && directory_records(final(out)@) == directory_records(old(out)@)
                + found,
            Err(why) => r matches Err(e) && e@ == why,
        },
    decreases entries, 0int, entries.len() - from,
{
    let ghost here = entries@.subrange(from as int, entries.len() as int);
    if from >= entries.len() {
        assert(directory_records(out@) + Seq::<DirectoryRecord>::empty() =~= directory_records(
            out@,
        ));
        return Ok(());
    }
    let e = &entries[from];
    proof {
        assert(here[0] == entries@[from as int]);
        assert(here.subrange(1, here.len() as int) =~= entries@.subrange(
            from + 1,
            entries.len() as int,
        ));
    }
    if let Some(why) = &e.failure {
        return Err(why.clone());
    }
    if !e.is_directory || list_has(ignored, e.name.as_str()) {
        return directories_among_entries(entries, from + 1, depth, max_depth, ignored, out);
    }
    match &e.metadata {
        Err(why) => Err(why.clone()),
        Ok(m) => {
            let ghost before = directory_records(out@);
            let ghost old_out = out@;
            let record = DirectoryInfo {
                path: e.path.clone(),
                name: e.name.clone(),
                depth,
                last_modified: m.modified,
            };
            out.push(record);
            proof {
                assert(directory_records(out@) =~= before.push(directory_record(*e, depth)));
            }
            let below: u32 = if depth == u32::MAX {
                depth
            } else {
                depth + 1
            };
            let ghost mid = directory_records(out@);
            match directories_in_listing(&e.children, below, max_depth, ignored, out) {
                Err(why) => Err(why),
                Ok(_) => {
                    let ghost mid2 = directory_records(out@);
                    match directories_among_entries(
                        entries,
                        from + 1,
                        depth,
                        max_depth,
                        ignored,
                        out,
                    ) {
                        Err(why) => Err(why),
                        Ok(_) => {
                            proof {
                                let found_below = directories_in(
                                    e.children,
                                    deeper(depth),
                                    max_depth,
                                    string_texts(ignored@),
                                )->Ok_0;
                                let found_after = directories_among(
                                    here.subrange(1, here.len() as int),
                                    depth,
                                    max_depth,
                                    string_texts(ignored@),
                                )->Ok_0;
                                assert(directory_records(out@) =~= before + (seq![
                                    directory_record(*e, depth),
                                ] + found_below + found_after));
                            }
                            Ok(())
                        },
                    }
                },
            }
        },
    }
}

/// The names that a scan of directories passes over.
pub open spec fn ignored_names(ignore_patterns: Option<Vec<String>>) -> Seq<Seq<char>> {
    match ignore_patterns {
        Some(names) => string_texts(names@),
        None => default_ignored_directories(),
    }
}

/// What the scan of directories of a tree answers: the directories found,
/// or the failure of the first read that failed.
pub open spec fn directories_scan(
    root: Listing,
    max_depth: Option<u32>,
    ignore_patterns: Option<Vec<String>>,
    r: TauriResult<Vec<DirectoryInfo>>,
) -> bool {
    &&& r.well_formed()
    &&& match directories_in(root, 0, max_depth, ignored_names(ignore_patterns)) {
        Ok(found) => r.success && (r.data matches Some(dirs) && directory_records(dirs@) == found),
        Err(why) => r.is_error(
            rendered("WALK_ERROR"@, "Failed to scan directories: "@ + why),
        ),
    }
}

/// The default list of ignored directory names.
pub fn default_ignore_list() -> (names: Vec<String>)
    ensures
        string_texts(names@) == default_ignored_directories(),
{
    let mut names: Vec<String> = Vec::new();
    names.push(String::from_str(".git"));
    names.push(String::from_str("node_modules"));
    names.push(String::from_str("target"));
    names.push(String::from_str(".next"));
    names.push(String::from_str("dist"));
    names.push(String::from_str("build"));
    assert(string_texts(names@) =~= default_ignored_directories());
    names
}

/// Scans a tree for directories only. Every directory is listed before what
/// lies in it, with its depth below the root (0 for what lies directly in
/// it); nothing is looked at deeper than `max_depth`; directories whose name
/// is among `ignore_patterns` (by default `.git`, `node_modules`, `target`,
/// `.next`, `dist`, `build`) are passed over with all they hold. The first
/// read that failed fails the scan.
pub fn scan_directories_only(
    root: &Listing,
    max_depth: Option<u32>,
    ignore_patterns: Option<Vec<String>>,
) -> (r: TauriResult<Vec<DirectoryInfo>>)
    ensures
        directories_scan(*root, max_depth, ignore_patterns, r),
{
    let ignored = match ignore_patterns {
        Some(names) => names,
        None => default_ignore_list(),
    };
    let mut out: Vec<DirectoryInfo> = Vec::new();
    assert(directory_records(out@) =~= Seq::empty());
    match directories_in_listing(root, 0, max_depth, &ignored, &mut out) {
        Ok(_) => {
            proof {
                let found = directories_in(*root, 0, max_depth, string_texts(ignored@))->Ok_0;
                assert(Seq::<DirectoryRecord>::empty() + found =~= found);
            }
            TauriResult::success(out)
        },
        Err(why) => {
            let message = concat2("Failed to scan directories: ", why.as_str());
            let e = crate::errors::AppError::filesystem("WALK_ERROR", message.as_str());
            let text = e.render();
            TauriResult::error(text.as_str())
        },
    }
}

/// A scan of directories reads what lies in `e`, found at `depth`: `e` is a
/// directory that the scan lists, and what lies in it is no deeper than
/// `max_depth`.
pub fn directory_scan_descends(
    e: &TreeEntry,
    depth: u32,
    max_depth: Option<u32>,
    ignored: &Vec<String>,
) -> (r: bool)
    ensures
        r == (e.failure is None && e.is_directory && !string_texts(ignored@).contains(e.name@)
            && e.metadata is Ok && !(max_depth matches Some(m) && deeper(depth) > m)),
{
    if e.failure.is_some() || !e.is_directory || e.metadata.is_err() {
        return false;
    }
    if list_has(ignored, e.name.as_str()) {
        return false;
    }
    let below: u32 = if depth == u32::MAX {
        depth
    } else {
        depth + 1
    };
    match max_depth {
        Some(m) => below <= m,
        None => true,
    }
}

/// The record of the entry `e` found at `depth` by a clean scan: a directory
/// has the size 0 and no extension.
pub open spec fn tree_record(e: TreeEntry, depth: u32) -> FileRecord {
    FileRecord {
        path: e.path@,
        name: e.name@,
        depth,
        size: if e.is_directory {
            0
        } else {
            e.metadata->Ok_0.len
        },
        last_modified: e.metadata->Ok_0.modified,
        extension: if e.is_directory {
            Seq::empty()
        } else {
            extension_text(e.extension)
        },
        is_directory: e.is_directory,
    }
}

/// The record of a directory has the size 0, and a record of the size 0 is
/// the record of a directory, unless it is the record of a file of no bytes.
pub proof fn lemma_tree_record_size(e: TreeEntry, depth: u32)
    ensures
        tree_record(e, depth).is_directory ==> tree_record(e, depth).size == 0,
        tree_record(e, depth).size == 0 && e.metadata->Ok_0.len != 0 ==> tree_record(
            e,
            depth,
        ).is_directory,
{
}

/// What a clean scan finds in a listing at `depth`, and the text of the
/// failure that cut the scan of this directory short, if one did.
pub open spec fn found_in(listing: Listing, depth: u32, include_hidden: bool) -> (
    Seq<FileRecord>,
    Option<Seq<char>>,
)
    decreases listing, 1int,
{
    match listing {
        Listing::NotRead => (Seq::empty(), None),
        Listing::Failed(why) => (Seq::empty(), Some(why@)),
        Listing::Entries(entries) => found_among(entries@, depth, include_hidden),
    }
}

/// What a clean scan finds among `entries` and below them: each entry
/// before what lies in it. Hidden entries are passed over unless they are
/// asked for, and so are entries whose metadata could not be read. An entry
/// that could not be read cuts the scan of its directory short; a failure
/// further down is ignored.
pub open spec fn found_among(entries: Seq<TreeEntry>, depth: u32, include_hidden: bool) -> (
    Seq<FileRecord>,
    Option<Seq<char>>,
)
    decreases entries, 0int,
{
    if entries.len() == 0 {
        (Seq::empty(), None)
    } else {
        let e = entries[0];
        let rest = entries.subrange(1, entries.len() as int);
        if let Some(why) = e.failure {
            (Seq::empty(), Some(why@))
        } else if (!include_hidden && e.name@.len() > 0 && e.name@[0] == '.') || e.metadata is Err {
            found_among(rest, depth, include_hidden)
        } else {
            let below = if e.is_directory {
                found_in(e.children, deeper(depth), include_hidden).0
            } else {
                Seq::empty()
            };
            let after = found_among(rest, depth, include_hidden);
            (seq![tree_record(e, depth)] + below + after.0, after.1)
        }
    }
}

fn found_in_listing(
    listing: &Listing,
    depth: u32,
    include_hidden: bool,
    out: &mut Vec<FileInfoChunk>,
) -> (r: Option<String>)
    ensures
        file_records(final(out)@) == file_records(old(out)@) + found_in(
            *listing,
            depth,
            include_hidden,
        ).0,
        match found_in(*listing, depth, include_hidden).1 {
            Some(why) => r matches Some(e) && e@ == why,
            None => r is None,
        },
    decreases listing, 1int,
{
    match listing {
        Listing::NotRead => {
            assert(file_records(out@) + Seq::<FileRecord>::empty() =~= file_records(out@));
            None
        },
        Listing::Failed(why) => {
            assert(file_records(out@) + Seq::<FileRecord>::empty() =~= file_records(out@));
            Some(why.clone())
        },
        Listing::Entries(entries) => {
            assert(entries@.subrange(0, entries.len() as int) =~= entries@);
            found_among_entries(entries, 0, depth, include_hidden, out)
        },
    }
}

fn found_among_entries(
    entries: &Vec<TreeEntry>,
    from: usize,
    depth: u32,
    include_hidden: bool,
    out: &mut Vec<FileInfoChunk>,
) -> (r: Option<String>)
    requires
        from <= entries.len(),
    ensures
        file_records(final(out)@) == file_records(old(out)@) + found_among(
            entries@.subrange(from as int, entries.len() as int),
            depth,
            include_hidden,
        ).0,
        match found_among(
            entries@.subrange(from as int, entries.len() as int),
            depth,
            include_hidden,
        ).1 {
            Some(why) => r matches Some(e) && e@ == why,
            None => r is None,
        },
    decreases entries, 0int, entries.len() - from,
{
    let ghost here = entries@.subrange(from as int, entries.len() as int);
    let ghost before = file_records(out@);
    if from >= entries.len() {
        assert(before + Seq::<FileRecord>::empty() =~= before);
        return None;
    }
    let e = &entries[from];
    proof {
        assert(here[0] == entries@[from as int]);
        assert(here.subrange(1, here.len() as int) =~= entries@.subrange(
            from + 1,
            entries.len() as int,
        ));
    }
    if let Some(why) = &e.failure {
        assert(before + Seq::<FileRecord>::empty() =~= before);
        return Some(why.clone());
    }
    if !include_hidden {
        let name = to_chars(e.name.as_str());
        if name.len() > 0 && name[0] == '.' {
            return found_among_entries(entries, from + 1, depth, include_hidden, out);
        }
    }
    match &e.metadata {
        Err(_) => found_among_entries(entries, from + 1, depth, include_hidden, out),
        Ok(m) => {
            let ghost old_out = out@;
            let record = FileInfoChunk {
                path: e.path.clone(),
                name: e.name.clone(),
                depth,
                size: if e.is_directory {
                    0
                } else {
                    m.len
                },
                last_modified: m.modified,
                extension: if e.is_directory {
                    String::new()
                } else {
                    shown_extension(&e.extension)
                },
                is_directory: e.is_directory,
            };
            out.push(record);
            proof {
                assert(file_records(out@) =~= before.push(tree_record(*e, depth)));
            }
            if e.is_directory {
                let below: u32 = if depth == u32::MAX {
                    depth
                } else {
                    depth + 1
                };
                let _ = found_in_listing(&e.children, below, include_hidden, out);
            }
            let r = found_among_entries(entries, from + 1, depth, include_hidden, out);
            proof {
                let found_below = if e.is_directory {
                    found_in(e.children, deeper(depth), include_hidden).0
                } else {
                    Seq::empty()
                };
                let found_after = found_among(
                    here.subrange(1, here.len() as int),
                    depth,
                    include_hidden,
                ).0;
                assert(file_records(out@) =~= before + (seq![tree_record(*e, depth)] + found_below
                    + found_after));
            }
            r
        },
    }
}

/// What a clean scan orders a record by: its path.
pub open spec fn path_key(r: FileRecord) -> KeyView {
    KeyView { rank: 0, text: r.path }
}

/// The keys of the records of a clean scan.
pub open spec fn path_keys(records: Seq<FileRecord>) -> Seq<KeyView> {
    records.map_values(|r: FileRecord| path_key(r))
}

/// What the clean scan of a tree answers: everything found, files and
/// directories alike, ordered by path; or, where reading the root or one of
/// its entries failed, that failure.
pub open spec fn clean_scan(root: Listing, include_hidden: Option<bool>, r: TauriResult<
    Vec<FileInfoChunk>,
>) -> bool {
    let found = found_in(root, 0, !(include_hidden == Some(false)));
    &&& r.well_formed()
    &&& match found.1 {
        Some(why) => r.is_error(rendered("WALK_ERROR"@, "Failed to scan directory: "@ + why)),
        None => r.success && (r.data matches Some(out) && arranged(
            found.0,
            path_keys(found.0),
            file_records(out@),
        )),
    }
}

fn keys_by_path(records: &Vec<FileInfoChunk>) -> (keys: Vec<SortKey>)
    ensures
        keys.len() == records.len(),
        key_views(keys@) == path_keys(file_records(records@)),
{
    let mut keys: Vec<SortKey> = Vec::new();
    let mut i: usize = 0;
    while i < records.len()
        invariant
            i <= records.len(),
            keys.len() == i,
            forall|k: int|
                0 <= k < i ==> (#[trigger] key_views(keys@)[k]) == path_key(records@[k]@),
        decreases records.len() - i,
    {
        let key = SortKey { rank: 0, text: to_chars(records[i].path.as_str()) };
        let ghost old_keys = keys@;
        keys.push(key);
        proof {
            assert(key_views(keys@) =~= key_views(old_keys).push(key@));
        }
        i += 1;
    }
    proof {
        assert(key_views(keys@) =~= path_keys(file_records(records@)));
    }
    keys
}

/// Scans a tree for everything in it, from metadata alone: no file is
/// opened. Hidden entries are listed unless `include_hidden` is `false`.
/// Directories have the size 0; the depth is 0 for what lies directly in
/// the root.
pub fn scan_everything_clean(root: &Listing, include_hidden: Option<bool>) -> (r: TauriResult<
    Vec<FileInfoChunk>,
>)
    ensures
        clean_scan(*root, include_hidden, r),
{
    let hidden = match include_hidden {
        Some(b) => b,
        None => true,
    };
    let mut found: Vec<FileInfoChunk> = Vec::new();
    assert(file_records(found@) =~= Seq::empty());
    let failure = found_in_listing(root, 0, hidden, &mut found);
    proof {
        let all = found_in(*root, 0, hidden).0;
        assert(Seq::<FileRecord>::empty() + all =~= all);
    }
    match failure {
        Some(why) => {
            let message = concat2("Failed to scan directory: ", why.as_str());
            let e = crate::errors::AppError::filesystem("WALK_ERROR", message.as_str());
            let text = e.render();
            TauriResult::error(text.as_str())
        },
        None => {
            let keys = keys_by_path(&found);
            let out = arrange(&found, &keys);
            TauriResult::success(out)
        },
    }
}

/// A clean scan reads what lies in `e`: `e` is a directory that the scan
/// lists.
pub fn clean_scan_descends(e: &TreeEntry, include_hidden: Option<bool>) -> (r: bool)
    ensures
        r == (e.failure is None && e.is_directory && e.metadata is Ok && !(include_hidden == Some(
            false,
        ) && e.name@.len() > 0 && e.name@[0] == '.')),
{
    if e.failure.is_some() || !e.is_directory || e.metadata.is_err() {
        return false;
    }
    match include_hidden {
        Some(false) => {
            let name = to_chars(e.name.as_str());
            !(name.len() > 0 && name[0] == '.')
        },
        _ => true,
    }
}

} // verus!
