//! Flat scans of a workspace: which of the entries a walk reports become
//! records, where a scan stops, and how the records are cut into pages.

use vstd::prelude::*;
use vstd::string::*;
use crate::text::{has_prefix, has_suffix, lowercase, string_texts, to_chars, to_lowercase};
use crate::types::{file_records, FileInfoChunk, FileRecord, ScanFilesResult, TauriResult};

verus! {

/// Largest file a chunked scan lists, in bytes (64 MiB).
pub const MAX_CHUNKED_FILE_SIZE: u64 = 67_108_864;

/// Largest file a streaming scan lists, in bytes (10 MiB).
pub const MAX_STREAMING_FILE_SIZE: u64 = 10_485_760;

/// Number of files after which a chunked scan stops collecting.
pub const MAX_FILES_SCAN: usize = 100_000;

/// Number of files a streaming scan returns where the caller names none.
pub const DEFAULT_STREAMING_CHUNK: usize = 50;

/// Size and age of an entry, as its metadata give them.
#[derive(Debug, Clone, Copy, PartialEq, Eq, Structural)]
pub struct EntryMetadata {
    /// Length in bytes.
    pub len: u64,
    /// Last modification, in seconds since the Unix epoch.
    pub modified: u64,
}

/// What a walk reports of one path.
#[derive(Debug)]
pub struct WalkEntry {
    pub path: String,
    /// The final component of the path, where it has one.
    pub file_name: Option<String>,
    /// The extension of the final component, where it has one.
    pub extension: Option<String>,
    /// Depth below the scan root: 0 for what lies directly in it.
    pub depth: u32,
    /// The path is a regular file.
    pub is_file: bool,
    /// The metadata, where they could be read.
    pub metadata: Option<EntryMetadata>,
}

/// How a walk is to be configured.
#[derive(Debug, Clone, Copy, PartialEq, Eq, Structural)]
pub struct WalkSettings {
    /// Hidden entries are passed over.
    pub skip_hidden: bool,
    /// `.ignore` files are honoured.
    pub ignore_files: bool,
    /// `.gitignore` files are honoured.
    pub git_ignore: bool,
    /// The global gitignore is honoured.
    pub git_global: bool,
    /// `.git/info/exclude` is honoured.
    pub git_exclude: bool,
    /// Ignore files of parent directories are honoured.
    pub parents: bool,
    /// Git rules apply only inside a repository.
    pub require_git: bool,
    /// Symbolic links are followed.
    pub follow_links: bool,
    /// Greatest depth the walk descends to.
    pub max_depth: usize,
}

/// The text of an optional string: empty where there is none.
pub open spec fn text_or_empty(o: Option<String>) -> Seq<char> {
    match o {
        Some(s) => s@,
        None => Seq::empty(),
    }
}

/// The pattern `pattern` passes a file named `name` over: a pattern of the
/// form `*.x` passes names over that end with `x`, any other pattern with a
/// star passes nothing over, and a pattern without a star passes names
/// over that begin with it.
pub open spec fn name_matches(pattern: Seq<char>, name: Seq<char>) -> bool {
    if pattern.contains('*') {
        has_prefix(pattern, "*."@) && has_suffix(name, pattern.skip(2))
    } else {
        has_prefix(name, pattern)
    }
}

/// One of `patterns` passes a file named `name` over.
pub open spec fn is_skipped(name: Seq<char>, patterns: Seq<Seq<char>>) -> bool {
    exists|i: int| 0 <= i < patterns.len() && name_matches(#[trigger] patterns[i], name)
}

/// The patterns that a scan passes names over by where the caller gives
/// none.
pub open spec fn default_skip_list() -> Seq<Seq<char>> {
    seq![
        ".git"@,
        "node_modules"@,
        "target"@,
        ".next"@,
        "dist"@,
        "build"@,
        "__pycache__"@,
        ".pytest_cache"@,
        ".mypy_cache"@,
        ".venv"@,
        "venv"@,
        ".env"@,
        "*.pyc"@,
        "*.pyo"@,
        "*.egg-info"@,
        ".turbo"@,
        ".vercel"@,
        ".nuxt"@,
        ".output"@,
        "coverage"@,
        "Cargo.lock"@,
        "cmake-build-debug"@,
        "cmake-build-release"@,
        ".vs"@,
        ".gradle"@,
        ".m2"@,
        "out"@,
        ".vscode"@,
        ".idea"@,
        ".eclipse"@,
        "*.swp"@,
        "*.swo"@,
        ".DS_Store"@,
        "Thumbs.db"@,
        "desktop.ini"@,
        "logs"@,
        "*.log"@,
        "*.zip"@,
        "*.tar.gz"@,
        "*.rar"@,
        "*.7z"@,
        "*.mp4"@,
        "*.avi"@,
        "*.mkv"@,
        "*.jpg"@,
        "*.jpeg"@,
        "*.png"@,
        "*.gif"@,
        "*.bmp"@,
        "*.tiff"@,
        "*.pdf"@,
        "*.doc"@,
        "*.docx"@,
        "*.xls"@,
        "*.xlsx"@,
    ]
}

/// The patterns of a scan: those the caller gives, else the default ones.
pub open spec fn skip_list(ignore_patterns: Option<Vec<String>>) -> Seq<Seq<char>> {
    match ignore_patterns {
        Some(p) => string_texts(p@),
        None => default_skip_list(),
    }
}

/// A scan with the size limit `max_size` and the patterns `patterns` lists
/// the entry `e`: it is a file whose metadata could be read, it is not
/// larger than the limit, and no pattern passes its name over.
pub open spec fn lists(e: WalkEntry, max_size: u64, patterns: Seq<Seq<char>>) -> bool {
    &&& e.is_file
    &&& e.metadata matches Some(m) && m.len <= max_size
    &&& !is_skipped(text_or_empty(e.file_name), patterns)
}

/// The extension as a record shows it: in lower case, empty where there is
/// none.
pub open spec fn extension_text(o: Option<String>) -> Seq<char> {
    match o {
        Some(s) => lowercase(s@),
        None => Seq::empty(),
    }
}

/// The extension as a record shows it.
pub fn shown_extension(o: &Option<String>) -> (r: String)
    ensures
        r@ == extension_text(*o),
{
    match o {
        Some(x) => to_lowercase(x.as_str()),
        None => String::new(),
    }
}

/// The record of a listed entry.
pub open spec fn walk_record(e: WalkEntry) -> FileRecord {
    FileRecord {
        path: e.path@,
        name: text_or_empty(e.file_name),
        depth: e.depth,
        size: e.metadata->0.len,
        last_modified: e.metadata->0.modified,
        extension: extension_text(e.extension),
        is_directory: false,
    }
}

/// The records of the first `cap` entries of `entries` that a scan with the
/// size limit `max_size` lists, in the order of the walk.
pub open spec fn collected(
    entries: Seq<WalkEntry>,
    max_size: u64,
    cap: nat,
    patterns: Seq<Seq<char>>,
) -> Seq<FileRecord>
    decreases entries.len(),
{
    if entries.len() == 0 {
        Seq::empty()
    } else {
        let earlier = collected(entries.drop_last(), max_size, cap, patterns);
        if earlier.len() < cap && lists(entries.last(), max_size, patterns) {
            earlier.push(walk_record(entries.last()))
        } else {
            earlier
        }
    }
}

/// A scan never collects more than its cap.
pub proof fn lemma_collected_within_cap(
    entries: Seq<WalkEntry>,
    max_size: u64,
    cap: nat,
    patterns: Seq<Seq<char>>,
)
    ensures
        collected(entries, max_size, cap, patterns).len() <= cap,
        collected(entries, max_size, cap, patterns).len() <= entries.len(),
    decreases entries.len(),
{
    if entries.len() != 0 {
        lemma_collected_within_cap(entries.drop_last(), max_size, cap, patterns);
    }
}

/// Once the cap is reached the rest of the walk is ignored: the scan of the
/// whole walk is the scan of the part seen until then.
pub proof fn lemma_full_scan_ignores_rest(
    entries: Seq<WalkEntry>,
    max_size: u64,
    cap: nat,
    patterns: Seq<Seq<char>>,
    seen: int,
)
    requires
        0 <= seen <= entries.len(),
        collected(entries.take(seen), max_size, cap, patterns).len() >= cap,
    ensures
        collected(entries, max_size, cap, patterns) == collected(
            entries.take(seen),
            max_size,
            cap,
            patterns,
        ),
    decreases entries.len() - seen,
{
    if seen == entries.len() {
        assert(entries.take(seen) =~= entries);
    } else {
        assert(entries.drop_last().take(seen) =~= entries.take(seen));
        lemma_full_scan_ignores_rest(entries.drop_last(), max_size, cap, patterns, seen);
        lemma_collected_within_cap(entries.take(seen), max_size, cap, patterns);
    }
}

/// The entry that the record at position `i` of a scan stands for.
pub open spec fn source_of(
    entries: Seq<WalkEntry>,
    max_size: u64,
    cap: nat,
    patterns: Seq<Seq<char>>,
    i: int,
) -> WalkEntry
    decreases entries.len(),
{
    if entries.len() == 0 {
        arbitrary()
    } else {
        let earlier = collected(entries.drop_last(), max_size, cap, patterns);
        if i < earlier.len() {
            source_of(entries.drop_last(), max_size, cap, patterns, i)
        } else {
            entries.last()
        }
    }
}

/// Every record of a scan stands for a file that the scan lists, and says
/// so: it is no directory, and its size is the length of the file. So a
/// record says "directory" exactly where its size is 0, but for the record
/// of a file of no bytes.
pub proof fn lemma_collected_records_are_files(
    entries: Seq<WalkEntry>,
    max_size: u64,
    cap: nat,
    patterns: Seq<Seq<char>>,
    i: int,
)
    requires
        0 <= i < collected(entries, max_size, cap, patterns).len(),
    ensures
        ({
            let record = collected(entries, max_size, cap, patterns)[i];
            let source = source_of(entries, max_size, cap, patterns, i);
            &&& lists(source, max_size, patterns)
            &&& record == walk_record(source)
            &&& !record.is_directory
            &&& record.size <= max_size
            &&& source.metadata->0.len != 0 ==> (record.is_directory <==> record.size == 0)
        }),
    decreases entries.len(),
{
    if entries.len() != 0 {
        let earlier = collected(entries.drop_last(), max_size, cap, patterns);
        if i < earlier.len() {
            lemma_collected_records_are_files(entries.drop_last(), max_size, cap, patterns, i);
        }
    }
}

/// Where the page that starts at `offset` and holds up to `limit` of `total`
/// items ends.
pub open spec fn page_end(total: nat, offset: nat, limit: nat) -> nat {
    if offset + limit < total {
        offset + limit
    } else {
        total
    }
}

/// The page of `all` that starts at `offset` and holds up to `limit` items.
pub open spec fn page_of<T>(all: Seq<T>, offset: nat, limit: nat) -> Seq<T> {
    if offset < all.len() {
        all.subrange(offset as int, page_end(all.len(), offset, limit) as int)
    } else {
        Seq::empty()
    }
}

/// Items remain after the page that starts at `offset`.
pub open spec fn page_has_more(total: nat, offset: nat, limit: nat) -> bool {
    page_end(total, offset, limit) < total
}

/// The pages of `all` from `offset` on, each of up to `limit` items, one after
/// the other until a page reports that nothing remains.
pub open spec fn pages_from<T>(all: Seq<T>, offset: nat, limit: nat) -> Seq<T>
    decreases all.len() - offset,
{
    if limit > 0 && page_has_more(all.len(), offset, limit) {
        page_of(all, offset, limit) + pages_from(all, offset + limit, limit)
    } else {
        page_of(all, offset, limit)
    }
}

/// Reading a scan page after page, from any offset inside it, yields
/// everything from that offset on.
pub proof fn lemma_pages_from_offset<T>(all: Seq<T>, offset: nat, limit: nat)
    requires
        limit > 0,
        offset <= all.len(),
    ensures
        pages_from(all, offset, limit) == all.subrange(offset as int, all.len() as int),
    decreases all.len() - offset,
{
    if page_has_more(all.len(), offset, limit) {
        lemma_pages_from_offset(all, offset + limit, limit);
        assert(all.subrange(offset as int, (offset + limit) as int) + all.subrange(
            (offset + limit) as int,
            all.len() as int,
        ) =~= all.subrange(offset as int, all.len() as int));
    } else {
        assert(page_of(all, offset, limit) =~= all.subrange(offset as int, all.len() as int));
    }
}

/// Successive pages of a positive size, read from offset 0 until a page says
/// that nothing remains, add up to the whole scan.
pub proof fn lemma_pages_cover_scan<T>(all: Seq<T>, limit: nat)
    requires
        limit > 0,
    ensures
        pages_from(all, 0, limit) == all,
{
    lemma_pages_from_offset(all, 0, limit);
    assert(all.subrange(0, all.len() as int) =~= all);
}

/// The record of an entry that a scan lists.
pub fn record_of(e: &WalkEntry) -> (r: FileInfoChunk)
    requires
        e.metadata is Some,
    ensures
        r@ == walk_record(*e),
{
    let m = e.metadata.unwrap();
    FileInfoChunk {
        path: e.path.clone(),
        name: match &e.file_name {
            Some(n) => n.clone(),
            None => String::new(),
        },
        depth: e.depth,
        size: m.len,
        last_modified: m.modified,
        extension: shown_extension(&e.extension),
        is_directory: false,
    }
}

/// Decides whether `pattern` passes a file named `name` over.
pub fn pattern_matches(pattern: &str, name: &str) -> (r: bool)
    ensures
        r == name_matches(pattern@, name@),
{
    let p = to_chars(pattern);
    let n = to_chars(name);
    if crate::text::chars_contain(&p, '*') {
        let star_dot = to_chars("*.");
        proof {
            reveal_strlit("*.");
        }
        if crate::text::matches_at(&p, &star_dot, 0) {
            let tail = crate::text::slice_chars(&p, 2, p.len());
            proof {
                assert(p@.subrange(2, p.len() as int) =~= p@.skip(2));
            }
            if tail.len() > n.len() {
                false
            } else {
                crate::text::matches_at(&n, &tail, n.len() - tail.len())
            }
        } else {
            false
        }
    } else {
        crate::text::matches_at(&n, &p, 0)
    }
}

/// Decides whether one of `patterns` passes a file named `name` over.
pub fn name_is_skipped(name: &str, patterns: &Vec<String>) -> (r: bool)
    ensures
        r == is_skipped(name@, string_texts(patterns@)),
{
    let mut i: usize = 0;
    while i < patterns.len()
        invariant
            i <= patterns.len(),
            forall|k: int| 0 <= k < i ==> !name_matches(#[trigger] string_texts(patterns@)[k], name@),
        decreases patterns.len() - i,
    {
        assert(string_texts(patterns@)[i as int] == patterns@[i as int]@);
        if pattern_matches(patterns[i].as_str(), name) {
            return true;
        }
        i += 1;
    }
    false
}

/// The default patterns.
pub fn default_ignore_patterns() -> (patterns: Vec<String>)
    ensures
        string_texts(patterns@) == default_skip_list(),
{
    let mut v: Vec<String> = Vec::new();
    v.push(String::from_str(".git"));
    v.push(String::from_str("node_modules"));
    v.push(String::from_str("target"));
    v.push(String::from_str(".next"));
    v.push(String::from_str("dist"));
    v.push(String::from_str("build"));
    v.push(String::from_str("__pycache__"));
    v.push(String::from_str(".pytest_cache"));
    v.push(String::from_str(".mypy_cache"));
    v.push(String::from_str(".venv"));
    v.push(String::from_str("venv"));
    v.push(String::from_str(".env"));
    v.push(String::from_str("*.pyc"));
    v.push(String::from_str("*.pyo"));
    v.push(String::from_str("*.egg-info"));
    v.push(String::from_str(".turbo"));
    v.push(String::from_str(".vercel"));
    v.push(String::from_str(".nuxt"));
    v.push(String::from_str(".output"));
    v.push(String::from_str("coverage"));
    v.push(String::from_str("Cargo.lock"));
    v.push(String::from_str("cmake-build-debug"));
    v.push(String::from_str("cmake-build-release"));
    v.push(String::from_str(".vs"));
    v.push(String::from_str(".gradle"));
    v.push(String::from_str(".m2"));
    v.push(String::from_str("out"));
    v.push(String::from_str(".vscode"));
    v.push(String::from_str(".idea"));
    v.push(String::from_str(".eclipse"));
    v.push(String::from_str("*.swp"));
    v.push(String::from_str("*.swo"));
    v.push(String::from_str(".DS_Store"));
    v.push(String::from_str("Thumbs.db"));
    v.push(String::from_str("desktop.ini"));
    v.push(String::from_str("logs"));
    v.push(String::from_str("*.log"));
    v.push(String::from_str("*.zip"));
    v.push(String::from_str("*.tar.gz"));
    v.push(String::from_str("*.rar"));
    v.push(String::from_str("*.7z"));
    v.push(String::from_str("*.mp4"));
    v.push(String::from_str("*.avi"));
    v.push(String::from_str("*.mkv"));
    v.push(String::from_str("*.jpg"));
    v.push(String::from_str("*.jpeg"));
    v.push(String::from_str("*.png"));
    v.push(String::from_str("*.gif"));
    v.push(String::from_str("*.bmp"));
    v.push(String::from_str("*.tiff"));
    v.push(String::from_str("*.pdf"));
    v.push(String::from_str("*.doc"));
    v.push(String::from_str("*.docx"));
    v.push(String::from_str("*.xls"));
    v.push(String::from_str("*.xlsx"));
    assert(string_texts(v@) =~= default_skip_list());
    v
}

/// The patterns of a scan: those the caller gives, else the default ones.
pub fn patterns_or_default(ignore_patterns: Option<Vec<String>>) -> (patterns: Vec<String>)
    ensures
        string_texts(patterns@) == skip_list(ignore_patterns),
{
    match ignore_patterns {
        Some(p) => p,
        None => default_ignore_patterns(),
    }
}

/// Decides whether a scan with the size limit `max_size` and the patterns
/// `patterns` lists `e`.
pub fn is_listed(e: &WalkEntry, max_size: u64, patterns: &Vec<String>) -> (r: bool)
    ensures
        r == lists(*e, max_size, string_texts(patterns@)),
{
    let fits = e.is_file && match e.metadata {
        Some(m) => m.len <= max_size,
        None => false,
    };
    if !fits {
        return false;
    }
    let name: &str = match &e.file_name {
        Some(n) => n.as_str(),
        None => "",
    };
    proof {
        reveal_strlit("");
        assert(""@ =~= Seq::<char>::empty());
    }
    !name_is_skipped(name, patterns)
}

/// Collects the files of a walk as its entries come in, up to a cap.
pub struct FileCollector {
    files: Vec<FileInfoChunk>,
    max_size: u64,
    cap: usize,
    patterns: Vec<String>,
    seen: Ghost<Seq<WalkEntry>>,
}

impl FileCollector {
    /// The entries offered so far.
    pub closed spec fn seen(&self) -> Seq<WalkEntry> {
        self.seen@
    }

    /// The size limit of the scan.
    pub closed spec fn max_size(&self) -> u64 {
        self.max_size
    }

    /// The cap of the scan.
    pub closed spec fn cap(&self) -> nat {
        self.cap as nat
    }

    /// The patterns of the scan.
    pub closed spec fn patterns(&self) -> Seq<Seq<char>> {
        string_texts(self.patterns@)
    }

    /// The records collected so far.
    pub closed spec fn records(&self) -> Seq<FileRecord> {
        file_records(self.files@)
    }

    /// The records are those of the entries offered so far.
    pub open spec fn well_formed(&self) -> bool {
        self.records() == collected(self.seen(), self.max_size(), self.cap(), self.patterns())
    }

    /// A collector that has seen nothing.
    pub fn new(max_size: u64, cap: usize, patterns: Vec<String>) -> (c: Self)
        ensures
            c.well_formed(),
            c.seen() == Seq::<WalkEntry>::empty(),
            c.max_size() == max_size,
            c.cap() == cap,
            c.patterns() == string_texts(patterns@),
    {
        let c = FileCollector { files: Vec::new(), max_size, cap, patterns, seen: Ghost(Seq::empty()) };
        assert(file_records(c.files@) =~= Seq::empty());
        c
    }

    /// Nothing more will be collected: the walk may stop.
    pub fn is_full(&self) -> (r: bool)
        ensures
            r == (self.records().len() >= self.cap()),
    {
        self.files.len() >= self.cap
    }

    /// The number of records collected so far.
    pub fn len(&self) -> (n: usize)
        ensures
            n == self.records().len(),
    {
        self.files.len()
    }

    /// Takes the next entry of the walk.
    pub fn offer(&mut self, entry: &WalkEntry)
        requires
            old(self).well_formed(),
        ensures
            final(self).well_formed(),
            final(self).seen() == old(self).seen().push(*entry),
            final(self).max_size() == old(self).max_size(),
            final(self).cap() == old(self).cap(),
            final(self).patterns() == old(self).patterns(),
    {
        let ghost before = self.seen@;
        proof {
            self.seen@ = before.push(*entry);
            assert(before.push(*entry).drop_last() =~= before);
        }
        if self.files.len() < self.cap && is_listed(entry, self.max_size, &self.patterns) {
            let ghost old_files = self.files@;
            let record = record_of(entry);
            self.files.push(record);
            assert(file_records(self.files@) =~= file_records(old_files).push(walk_record(*entry)));
        }
    }

    /// The collected records, in the order of the walk.
    pub fn into_files(self) -> (files: Vec<FileInfoChunk>)
        requires
            self.well_formed(),
        ensures
            file_records(files@) == collected(
                self.seen(),
                self.max_size(),
                self.cap(),
                self.patterns(),
            ),
    {
        self.files
    }
}

/// The files of a whole walk, up to `cap` of them.
pub fn collect_files(entries: &Vec<WalkEntry>, max_size: u64, cap: usize, patterns: Vec<String>) -> (files:
    Vec<FileInfoChunk>)
    ensures
        file_records(files@) == collected(entries@, max_size, cap as nat, string_texts(patterns@)),
{
    let ghost texts = string_texts(patterns@);
    let mut collector = FileCollector::new(max_size, cap, patterns);
    let mut i: usize = 0;
    proof {
        assert(entries@.take(0) =~= Seq::empty());
    }
    while i < entries.len() && !collector.is_full()
        invariant
            i <= entries.len(),
            collector.well_formed(),
            collector.seen() == entries@.take(i as int),
            collector.max_size() == max_size,
            collector.cap() == cap,
            collector.patterns() == texts,
        decreases entries.len() - i,
    {
        collector.offer(&entries[i]);
        proof {
            assert(entries@.take(i as int).push(entries@[i as int]) =~= entries@.take(i + 1));
        }
        i += 1;
    }
    proof {
        if i < entries.len() {
            lemma_full_scan_ignores_rest(entries@, max_size, cap as nat, texts, i as int);
        } else {
            assert(entries@.take(i as int) =~= entries@);
        }
    }
    collector.into_files()
}

/// Cuts the page that starts at `offset` and holds up to `limit` records out
/// of `all`, and says whether records remain behind it.
pub fn paginate(all: &Vec<FileInfoChunk>, offset: usize, limit: usize) -> (page: ScanFilesResult)
    ensures
        file_records(page.files@) == page_of(file_records(all@), offset as nat, limit as nat),
        page.has_more == page_has_more(all@.len(), offset as nat, limit as nat),
{
    let total = all.len();
    let end: usize = if offset >= total {
        total
    } else if limit >= total - offset {
        total
    } else {
        offset + limit
    };
    let mut files: Vec<FileInfoChunk> = Vec::new();
    if offset < total {
        let mut i: usize = offset;
        while i < end
            invariant
                offset <= i <= end <= total,
                total == all.len(),
                file_records(files@) == file_records(all@).subrange(offset as int, i as int),
            decreases end - i,
        {
            let ghost old_files = files@;
            files.push(all[i].clone());
            proof {
                assert(file_records(files@) =~= file_records(old_files).push(all@[i as int]@));
                assert(file_records(all@).subrange(offset as int, i as int).push(all@[i as int]@)
                    =~= file_records(all@).subrange(offset as int, i + 1));
            }
            i += 1;
        }
    } else {
        assert(file_records(files@) =~= Seq::empty());
    }
    ScanFilesResult { files, has_more: end < total }
}

/// How the walk of a chunked scan is configured: ignore rules of every kind
/// apply, links are not followed, and the walk goes 50 levels deep. Hidden
/// entries are passed over unless `include_hidden` asks for them.
pub fn chunked_walk_settings(include_hidden: Option<bool>) -> (s: WalkSettings)
    ensures
        s == (WalkSettings {
            skip_hidden: !(include_hidden == Some(true)),
            ignore_files: true,
            git_ignore: true,
            git_global: true,
            git_exclude: true,
            parents: true,
            require_git: false,
            follow_links: false,
            max_depth: 50,
        }),
{
    let show_hidden = match include_hidden {
        Some(b) => b,
        None => false,
    };
    WalkSettings {
        skip_hidden: !show_hidden,
        ignore_files: true,
        git_ignore: true,
        git_global: true,
        git_exclude: true,
        parents: true,
        require_git: false,
        follow_links: false,
        max_depth: 50,
    }
}

/// How the walk of a streaming scan is configured: as for a chunked scan, but
/// only 20 levels deep.
pub fn streaming_walk_settings(include_hidden: Option<bool>) -> (s: WalkSettings)
    ensures
        s == (WalkSettings { max_depth: 20, ..chunked_walk_settings_of(include_hidden) }),
{
    let base = chunked_walk_settings(include_hidden);
    WalkSettings { max_depth: 20, ..base }
}

/// The settings `chunked_walk_settings` returns.
pub open spec fn chunked_walk_settings_of(include_hidden: Option<bool>) -> WalkSettings {
    WalkSettings {
        skip_hidden: !(include_hidden == Some(true)),
        ignore_files: true,
        git_ignore: true,
        git_global: true,
        git_exclude: true,
        parents: true,
        require_git: false,
        follow_links: false,
        max_depth: 50,
    }
}

/// The chunked scan of a walk: the files of at most 64 MiB among its entries
/// that no pattern passes over, the first 100,000 of them, cut to the page
/// that starts at `offset` and holds up to `limit` records. The answer
/// always succeeds; hitting the cap raises no flag.
pub fn scan_files_chunked(
    entries: &Vec<WalkEntry>,
    offset: usize,
    limit: usize,
    ignore_patterns: Option<Vec<String>>,
) -> (r: TauriResult<ScanFilesResult>)
    ensures
        r.well_formed(),
        r.success,
        r.data matches Some(page) && {
            let all = collected(
                entries@,
                MAX_CHUNKED_FILE_SIZE,
                MAX_FILES_SCAN as nat,
                skip_list(ignore_patterns),
            );
            &&& file_records(page.files@) == page_of(all, offset as nat, limit as nat)
            &&& page.has_more == page_has_more(all.len(), offset as nat, limit as nat)
        },
{
    let patterns = patterns_or_default(ignore_patterns);
    let all = collect_files(entries, MAX_CHUNKED_FILE_SIZE, MAX_FILES_SCAN, patterns);
    let page = paginate(&all, offset, limit);
    TauriResult::success(page)
}

/// The number of files a streaming scan returns.
pub open spec fn streaming_chunk(chunk_size: Option<usize>) -> nat {
    match chunk_size {
        Some(n) => n as nat,
        None => DEFAULT_STREAMING_CHUNK as nat,
    }
}

/// The streaming scan of a walk: its first chunk only, the first
/// `chunk_size` files (50 where no size is given) of at most 10 MiB that no
/// pattern passes over.
pub fn scan_files_streaming(
    entries: &Vec<WalkEntry>,
    chunk_size: Option<usize>,
    ignore_patterns: Option<Vec<String>>,
) -> (r: TauriResult<Vec<FileInfoChunk>>)
    ensures
        r.well_formed(),
        r.success,
        r.data matches Some(files) && file_records(files@) == collected(
            entries@,
            MAX_STREAMING_FILE_SIZE,
            streaming_chunk(chunk_size),
            skip_list(ignore_patterns),
        ),
{
    let chunk = match chunk_size {
        Some(n) => n,
        None => DEFAULT_STREAMING_CHUNK,
    };
    let patterns = patterns_or_default(ignore_patterns);
    let files = collect_files(entries, MAX_STREAMING_FILE_SIZE, chunk, patterns);
    TauriResult::success(files)
}

/// How the walk that lists backup files is configured: nothing is ignored,
/// links are not followed, and the walk goes 10 levels deep.
pub fn backup_walk_settings() -> (s: WalkSettings)
    ensures
        s == (WalkSettings {
            skip_hidden: false,
            ignore_files: false,
            git_ignore: false,
            git_global: true,
            git_exclude: true,
            parents: false,
            require_git: true,
            follow_links: false,
            max_depth: 10,
        }),
{
    WalkSettings {
        skip_hidden: false,
        ignore_files: false,
        git_ignore: false,
        git_global: true,
        git_exclude: true,
        parents: false,
        require_git: true,
        follow_links: false,
        max_depth: 10,
    }
}

/// The entry is a backup file: a file whose name holds `.backup.`.
pub open spec fn is_backup(e: WalkEntry) -> bool {
    e.is_file && crate::text::has_substring(text_or_empty(e.file_name), ".backup."@)
}

/// The paths of the backup files among `entries`, in the order of the walk.
pub open spec fn backup_paths(entries: Seq<WalkEntry>) -> Seq<Seq<char>>
    decreases entries.len(),
{
    if entries.len() == 0 {
        Seq::empty()
    } else if is_backup(entries.last()) {
        backup_paths(entries.drop_last()).push(entries.last().path@)
    } else {
        backup_paths(entries.drop_last())
    }
}

/// Lists the backup files below a directory, from what the walk of it
/// reports. A directory that does not exist has none; that is no failure.
pub fn list_backup_files(exists: bool, entries: &Vec<WalkEntry>) -> (r: TauriResult<Vec<String>>)
    ensures
        r.well_formed(),
        r.success,
        r.data matches Some(paths) && crate::text::string_texts(paths@) == (if exists {
            backup_paths(entries@)
        } else {
            Seq::empty()
        }),
{
    let mut paths: Vec<String> = Vec::new();
    proof {
        assert(crate::text::string_texts(paths@) =~= Seq::empty());
    }
    if !exists {
        return TauriResult::success(paths);
    }
    let mut i: usize = 0;
    proof {
        assert(entries@.take(0) =~= Seq::empty());
    }
    while i < entries.len()
        invariant
            i <= entries.len(),
            crate::text::string_texts(paths@) == backup_paths(entries@.take(i as int)),
        decreases entries.len() - i,
    {
        proof {
            assert(entries@.take(i + 1).drop_last() =~= entries@.take(i as int));
        }
        let e = &entries[i];
        let name: &str = match &e.file_name {
            Some(n) => n.as_str(),
            None => "",
        };
        proof {
            reveal_strlit("");
            assert(""@ =~= Seq::<char>::empty());
        }
        if e.is_file && crate::text::str_contains(name, ".backup.") {
            let ghost old_paths = paths@;
            paths.push(e.path.clone());
            proof {
                assert(crate::text::string_texts(paths@) =~= crate::text::string_texts(
                    old_paths,
                ).push(e.path@));
            }
        }
        i += 1;
    }
    proof {
        assert(entries@.take(i as int) =~= entries@);
    }
    TauriResult::success(paths)
}

/// What is known of a path that the test command looks at.
#[derive(Debug, Clone, Copy, PartialEq, Eq, Structural)]
pub struct TestedPath {
    pub is_file: bool,
    pub is_dir: bool,
    pub len: u64,
}

/// The word for a truth value.
pub open spec fn truth(b: bool) -> Seq<char> {
    if b {
        "true"@
    } else {
        "false"@
    }
}

/// What the test command says of an existing path.
pub open spec fn test_report(path: Seq<char>, tested: TestedPath) -> Seq<char> {
    "Path: "@ + path + "\nExists: true\nIs file: "@ + truth(tested.is_file) + "\nIs dir: "@ + truth(
        tested.is_dir,
    ) + "\nSize: "@ + crate::text::decimal(tested.len as nat) + " bytes"@
}

fn word(b: bool) -> (r: &'static str)
    ensures
        r@ == truth(b),
{
    if b {
        "true"
    } else {
        "false"
    }
}

/// What the test command answers.
pub open spec fn test_answer(
    test_path: Seq<char>,
    exists: bool,
    tested: Result<TestedPath, String>,
    r: TauriResult<String>,
) -> bool {
    &&& r.well_formed()
    &&& if !exists {
        r.is_error(crate::errors::rendered("PATH_NOT_FOUND"@, "Test path does not exist"@))
    } else {
        match tested {
            Err(why) => r.is_error(
                crate::errors::rendered("METADATA_READ_FAILED"@, "Failed to get metadata: "@ + why@),
            ),
            Ok(t) => r.success && (r.data matches Some(text) && text@ == test_report(test_path, t)),
        }
    }
}

/// The test command: a report of what is known of `test_path`, or the
/// failure where the path does not exist or its metadata could not be
/// read.
pub fn debug_test_command(test_path: &str, exists: bool, tested: &Result<TestedPath, String>) -> (r:
    TauriResult<String>)
    ensures
        test_answer(test_path@, exists, *tested, r),
{
    if !exists {
        let e = crate::errors::AppError::filesystem("PATH_NOT_FOUND", "Test path does not exist");
        return TauriResult::error(e.render().as_str());
    }
    match tested {
        Err(why) => {
            let message = crate::text::concat2("Failed to get metadata: ", why.as_str());
            let e = crate::errors::AppError::filesystem("METADATA_READ_FAILED", message.as_str());
            TauriResult::error(e.render().as_str())
        },
        Ok(t) => {
            let a = crate::text::concat3("Path: ", test_path, "\nExists: true\nIs file: ");
            let b = crate::text::concat3(a.as_str(), word(t.is_file), "\nIs dir: ");
            let c = crate::text::concat3(b.as_str(), word(t.is_dir), "\nSize: ");
            let d = crate::text::concat3(
                c.as_str(),
                crate::text::decimal_string(t.len).as_str(),
                " bytes",
            );
            TauriResult::success(d)
        },
    }
}

} // verus!
