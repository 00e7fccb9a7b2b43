//! The path interner and the scanning service built on it: paths are kept
//! once and referred to by small handles.

use vstd::prelude::*;
use vstd::string::*;
use string_interner::Symbol;
use crate::errors::{AppError, AppResult, ErrorCategory};
use crate::file_utils::{file_size_text, open_advice, PathFacts};
use crate::filesystem::scanning::EntryMetadata;
use crate::state_collections::{key_position, lemma_key_position};
use crate::text::{
    byte_len, chars_eq, concat2, lowercase, str_eq, string_texts, to_chars,
    to_lowercase, trim, trim_chars,
};

verus! {

/// The interner of the `string_interner` crate, with its string backend.
/// Nothing inside it is looked at; what it holds is spoken of through
/// `interned`.
#[verifier::external_body]
pub struct InternerCore {
    inner: string_interner::StringInterner<string_interner::backend::StringBackend>,
}

/// The strings that an interner holds, each at the position that its symbol
/// stands for.
pub uninterp spec fn interned(interner: InternerCore) -> Seq<Seq<char>>;

/// Calls `StringInterner::new`, which makes an interner that holds nothing.
#[verifier::external_body]
fn interner_new() -> (interner: InternerCore)
    ensures
        interned(interner) == Seq::<Seq<char>>::empty(),
{
    InternerCore { inner: string_interner::StringInterner::new() }
}

/// Calls `StringInterner::get_or_intern` and gives the position that the
/// symbol stands for. A string that is held already keeps its symbol and
/// nothing changes; a new string is put behind all others and gets the next
/// position. The call panics where a new string finds the symbols used up,
/// which the precondition excludes.
#[verifier::external_body]
fn interner_get_or_intern(
    interner: &mut InternerCore,
    text: &str,
) -> (index: u32)
    requires
        interned(*old(interner)).len() < u32::MAX || interned(*old(interner)).contains(text@),
    ensures
        index < interned(*final(interner)).len(),
        interned(*final(interner))[index as int] == text@,
        interned(*old(interner)).contains(text@) ==> interned(*final(interner)) == interned(
            *old(interner),
        ),
        !interned(*old(interner)).contains(text@) ==> interned(*final(interner)) == interned(
            *old(interner),
        ).push(text@),
{
    interner.inner.get_or_intern(text).to_usize() as u32
}

/// Calls `StringInterner::len`: the number of strings held.
#[verifier::external_body]
fn interner_len(
    interner: &InternerCore,
) -> (n: usize)
    ensures
        n == interned(*interner).len(),
{
    interner.inner.len()
}

/// A handle for an interned path: the position of the path in the interner.
#[derive(Debug, Clone, Copy, PartialEq, Eq, Structural)]
pub struct PathHandle {
    pub index: u32,
}

/// Keeps each path once and hands out a handle for it. Handles are never
/// used again for another path.
pub struct FilePathInterner {
    interner: InternerCore,
    reverse_map: Vec<String>,
}

/// The strings once `text` is interned: as before where it is held
/// already, else with `text` behind all others.
pub open spec fn with_interned(strings: Seq<Seq<char>>, text: Seq<char>) -> Seq<Seq<char>> {
    if strings.contains(text) {
        strings
    } else {
        strings.push(text)
    }
}

/// A string that was interned is found at its handle, and interning it
/// again gives the same handle and changes nothing.
pub proof fn lemma_intern_is_idempotent(strings: Seq<Seq<char>>, text: Seq<char>)
    requires
        strings.no_duplicates(),
    ensures
        ({
            let after = with_interned(strings, text);
            let handle = key_position(after, text);
            &&& after.no_duplicates()
            &&& 0 <= handle < after.len()
            &&& after[handle] == text
            &&& with_interned(after, text) == after
            &&& with_interned(after, after[handle]) == after
            &&& key_position(with_interned(after, after[handle]), after[handle]) == handle
        }),
{
    let after = with_interned(strings, text);
    lemma_key_position(after, text);
    if !strings.contains(text) {
        assert(after[strings.len() as int] == text);
        assert forall|a: int, b: int| 0 <= a < after.len() && 0 <= b < after.len() && a
            != b implies after[a] != after[b] by {
            if a < strings.len() && b < strings.len() {
                assert(strings[a] != strings[b]);
            } else if a < strings.len() {
                assert(strings.contains(strings[a]));
            } else if b < strings.len() {
                assert(strings.contains(strings[b]));
            }
        }
    }
}

impl FilePathInterner {
    /// The paths held, each at the position its handle names.
    pub closed spec fn strings(&self) -> Seq<Seq<char>> {
        interned(self.interner)
    }

    /// The reverse entries, each at the position its handle names.
    pub closed spec fn reverse_entries(&self) -> Seq<Seq<char>> {
        string_texts(self.reverse_map@)
    }

    /// No path is held twice, there is a reverse entry for every path and no
    /// other, and the handles suffice.
    pub open spec fn well_formed(&self) -> bool {
        &&& self.strings().no_duplicates()
        &&& self.reverse_entries() == self.strings()
        &&& self.strings().len() <= u32::MAX
    }

    /// An interner that holds nothing.
    pub fn new() -> (i: Self)
        ensures
            i.well_formed(),
            i.strings() == Seq::<Seq<char>>::empty(),
    {
        let i = FilePathInterner { interner: interner_new(), reverse_map: Vec::new() };
        assert(i.reverse_entries() =~= Seq::empty());
        i
    }

    /// The handle of `path`. A path that is held already keeps its handle
    /// and nothing changes; a new path is put behind all others, which takes
    /// a handle that is still free.
    pub fn intern_path(&mut self, path: &str) -> (handle: PathHandle)
        requires
            old(self).well_formed(),
            old(self).strings().len() < u32::MAX || old(self).strings().contains(path@),
        ensures
            final(self).well_formed(),
            final(self).strings() == with_interned(old(self).strings(), path@),
            handle.index == key_position(final(self).strings(), path@),
            handle.index < final(self).strings().len(),
            final(self).strings()[handle.index as int] == path@,
    {
        let ghost before = self.strings();
        let index = interner_get_or_intern(&mut self.interner, path);
        proof {
            lemma_intern_is_idempotent(before, path@);
            let after = self.strings();
            lemma_key_position(after, path@);
            let k = key_position(after, path@);
            if k != index {
                assert(after[k] == after[index as int]);
            }
        }
        if index as usize == self.reverse_map.len() {
            let ghost old_rev = self.reverse_entries();
            self.reverse_map.push(String::from_str(path));
            proof {
                assert(self.reverse_entries() =~= old_rev.push(path@));
                if before.contains(path@) {
                    assert(index < before.len());
                }
            }
        } else {
            proof {
                if !before.contains(path@) {
                    assert(self.strings().len() == before.len() + 1);
                    if index < before.len() {
                        assert(before[index as int] == path@);
                    }
                }
            }
        }
        PathHandle { index }
    }

    /// Decides whether `path` is held.
    pub fn holds(&self, path: &str) -> (r: bool)
        requires
            self.well_formed(),
        ensures
            r == self.strings().contains(path@),
    {
        let mut i: usize = 0;
        while i < self.reverse_map.len()
            invariant
                i <= self.reverse_map.len(),
                self.reverse_entries() == self.strings(),
                forall|k: int| 0 <= k < i ==> self.strings()[k] != path@,
            decreases self.reverse_map.len() - i,
        {
            assert(self.reverse_entries()[i as int] == self.reverse_map@[i as int]@);
            if str_eq(self.reverse_map[i].as_str(), path) {
                return true;
            }
            i += 1;
        }
        false
    }

    /// The handle of `path`, for every interner and every path: as
    /// `intern_path` gives it, or nothing, with the interner left as it is,
    /// where the path is new and no handle is free.
    pub fn try_intern_path(&mut self, path: &str) -> (r: Option<PathHandle>)
        requires
            old(self).well_formed(),
        ensures
            final(self).well_formed(),
            r is Some <==> old(self).strings().len() < u32::MAX || old(self).strings().contains(
                path@,
            ),
            match r {
                Some(handle) => {
                    &&& final(self).strings() == with_interned(old(self).strings(), path@)
                    &&& handle.index == key_position(final(self).strings(), path@)
                    &&& handle.index < final(self).strings().len()
                    &&& final(self).strings()[handle.index as int] == path@
                },
                None => final(self).strings() == old(self).strings(),
            },
    {
        if self.reverse_map.len() < u32::MAX as usize || self.holds(path) {
            Some(self.intern_path(path))
        } else {
            None
        }
    }

    /// The path that `handle` stands for, or nothing where no path has
    /// that handle.
    pub fn resolve_path(&self, handle: PathHandle) -> (path: Option<String>)
        requires
            self.well_formed(),
        ensures
            match path {
                Some(p) => handle.index < self.strings().len() && p@ == self.strings()[handle.index as int],
                None => handle.index >= self.strings().len(),
            },
    {
        let i = handle.index as usize;
        if i < self.reverse_map.len() {
            assert(self.reverse_entries()[i as int] == self.reverse_map@[i as int]@);
            Some(self.reverse_map[i].clone())
        } else {
            None
        }
    }

    /// The number of paths held and the number of reverse entries; the two
    /// are equal.
    pub fn memory_stats(&self) -> (r: (usize, usize))
        requires
            self.well_formed(),
        ensures
            r.0 == self.strings().len(),
            r.1 == self.strings().len(),
    {
        (interner_len(&self.interner), self.reverse_map.len())
    }
}

/// One entry of an optimised scan; its path and its name are interned.
#[derive(Debug)]
pub struct OptimizedFileNode {
    pub path_symbol: PathHandle,
    pub name_symbol: PathHandle,
    pub extension: Option<String>,
    pub size: Option<u64>,
    pub is_directory: bool,
    pub depth: usize,
    pub last_modified: Option<u64>,
    pub icon_id: String,
    pub has_children: bool,
}

impl OptimizedFileNode {
    /// The path of the node.
    pub fn get_path(&self, interner: &FilePathInterner) -> (path: Option<String>)
        requires
            interner.well_formed(),
        ensures
            match path {
                Some(p) => self.path_symbol.index < interner.strings().len() && p@
                    == interner.strings()[self.path_symbol.index as int],
                None => self.path_symbol.index >= interner.strings().len(),
            },
    {
        interner.resolve_path(self.path_symbol)
    }

    /// The name of the node.
    pub fn get_name(&self, interner: &FilePathInterner) -> (name: Option<String>)
        requires
            interner.well_formed(),
        ensures
            match name {
                Some(n) => self.name_symbol.index < interner.strings().len() && n@
                    == interner.strings()[self.name_symbol.index as int],
                None => self.name_symbol.index >= interner.strings().len(),
            },
    {
        interner.resolve_path(self.name_symbol)
    }
}

/// `c` may not occur in a path.
pub open spec fn is_invalid_path_char(c: char) -> bool {
    c == '<' || c == '>' || c == ':' || c == '"' || c == '|' || c == '?' || c == '*'
}

/// Why the path of a file operation is refused, where it is: the code and
/// what is said after the name of the operation.
pub open spec fn path_refusal(file_path: Seq<char>) -> Option<(Seq<char>, Seq<char>)> {
    if trim(file_path).len() == 0 {
        Some(("EMPTY_PATH"@, " operation failed: File path cannot be empty"@))
    } else if exists|i: int| 0 <= i < file_path.len() && is_invalid_path_char(file_path[i]) {
        Some(("INVALID_CHARS"@, " operation failed: File path contains invalid characters"@))
    } else if vstd::utf8::encode_utf8(file_path).len() > 260 {
        Some(("PATH_TOO_LONG"@, " operation failed: File path is too long"@))
    } else {
        None
    }
}

/// The result `r` refuses the path of `operation` for the reason
/// `refusal`, or accepts it where there is none.
pub open spec fn operation_refused<T>(
    r: AppResult<T>,
    operation: Seq<char>,
    refusal: Option<(Seq<char>, Seq<char>)>,
) -> bool {
    match refusal {
        Some((code, tail)) => r matches Err(e) && e.is(
            ErrorCategory::Validation,
            code,
            operation + tail,
            Some("file_path"@),
        ),
        None => r is Ok,
    }
}

/// The icon of a file with the extension `extension`.
pub open spec fn extension_icon(extension: Option<Seq<char>>) -> Seq<char> {
    match extension {
        None => "file"@,
        Some(x) => if x == "rs"@ {
            "rust"@
        } else if x == "ts"@ {
            "typescript"@
        } else if x == "tsx"@ {
            "tsx"@
        } else if x == "js"@ {
            "javascript"@
        } else if x == "jsx"@ {
            "jsx"@
        } else if x == "py"@ {
            "python"@
        } else if x == "json"@ {
            "json"@
        } else if x == "md"@ {
            "markdown"@
        } else if x == "html"@ {
            "html"@
        } else if x == "css"@ {
            "css"@
        } else if x == "toml"@ {
            "config"@
        } else if x == "yaml"@ || x == "yml"@ {
            "yaml"@
        } else {
            "file"@
        },
    }
}

/// The icon of an entry of a scan: `folder` for a directory.
pub open spec fn node_icon(extension: Option<Seq<char>>, is_directory: bool) -> Seq<char> {
    if is_directory {
        "folder"@
    } else {
        extension_icon(extension)
    }
}

fn is(text: &Vec<char>, literal: &str) -> (r: bool)
    ensures
        r == (text@ == literal@),
{
    let other = to_chars(literal);
    chars_eq(text, &other)
}

fn icon_for_extension(extension: Option<&str>) -> (r: &'static str)
    ensures
        r@ == extension_icon(
            match extension {
                Some(x) => Some(x@),
                None => None,
            },
        ),
{
    match extension {
        None => "file",
        Some(ext) => {
            let x = to_chars(ext);
            if is(&x, "rs") {
                "rust"
            } else if is(&x, "ts") {
                "typescript"
            } else if is(&x, "tsx") {
                "tsx"
            } else if is(&x, "js") {
                "javascript"
            } else if is(&x, "jsx") {
                "jsx"
            } else if is(&x, "py") {
                "python"
            } else if is(&x, "json") {
                "json"
            } else if is(&x, "md") {
                "markdown"
            } else if is(&x, "html") {
                "html"
            } else if is(&x, "css") {
                "css"
            } else if is(&x, "toml") {
                "config"
            } else if is(&x, "yaml") || is(&x, "yml") {
                "yaml"
            } else {
                "file"
            }
        },
    }
}

/// What a walk reports of one path to an optimised scan.
#[derive(Debug)]
pub struct ScanEntry {
    /// Why the walk failed at this point, where it did; the other fields
    /// then say nothing.
    pub failure: Option<String>,
    pub path: String,
    /// The final component of the path, where it has one.
    pub name: Option<String>,
    /// The extension of the path, where it has one.
    pub extension: Option<String>,
    /// The number of components of the path.
    pub components: usize,
    /// What the metadata say, where they could be read.
    pub metadata: Option<ScanMetadata>,
}

/// What the metadata of a scanned path say.
#[derive(Debug, Clone, Copy, PartialEq, Eq, Structural)]
pub struct ScanMetadata {
    pub is_dir: bool,
    pub is_file: bool,
    pub len: u64,
    /// Last modification in seconds since the Unix epoch, where known.
    pub modified: Option<u64>,
}

/// What a node says apart from its two handles.
pub struct NodeFacts {
    pub extension: Option<Seq<char>>,
    pub size: Option<u64>,
    pub is_directory: bool,
    pub depth: usize,
    pub last_modified: Option<u64>,
    pub icon_id: Seq<char>,
    pub has_children: bool,
}

/// The name under which an entry is interned: its final component, or its
/// whole path where it has none.
pub open spec fn entry_name(e: ScanEntry) -> Seq<char> {
    match e.name {
        Some(n) => n@,
        None => e.path@,
    }
}

/// The entry is a directory.
pub open spec fn entry_is_directory(e: ScanEntry) -> bool {
    e.metadata matches Some(m) && m.is_dir
}

/// The extension an optimised scan shows: in lower case, and none for a
/// directory.
pub open spec fn entry_extension(e: ScanEntry) -> Option<Seq<char>> {
    if entry_is_directory(e) {
        None
    } else {
        match e.extension {
            Some(x) => Some(lowercase(x@)),
            None => None,
        }
    }
}

/// What the node of the entry `e` says, the root having `root_components`
/// components.
pub open spec fn node_facts(e: ScanEntry, root_components: usize) -> NodeFacts {
    NodeFacts {
        extension: entry_extension(e),
        size: match e.metadata {
            Some(m) => if m.is_file {
                Some(m.len)
            } else {
                None
            },
            None => None,
        },
        is_directory: entry_is_directory(e),
        depth: if e.components >= root_components {
            (e.components - root_components) as usize
        } else {
            0
        },
        last_modified: match e.metadata {
            Some(m) => m.modified,
            None => None,
        },
        icon_id: node_icon(entry_extension(e), entry_is_directory(e)),
        has_children: entry_is_directory(e),
    }
}

/// What a node says apart from its two handles.
pub open spec fn facts_of(n: OptimizedFileNode) -> NodeFacts {
    NodeFacts {
        extension: match n.extension {
            Some(x) => Some(x@),
            None => None,
        },
        size: n.size,
        is_directory: n.is_directory,
        depth: n.depth,
        last_modified: n.last_modified,
        icon_id: n.icon_id@,
        has_children: n.is_directory,
    }
}

/// The strings of the interner once the paths and names of `entries` are
/// interned, each path before its name.
pub open spec fn interned_all(strings: Seq<Seq<char>>, entries: Seq<ScanEntry>) -> Seq<Seq<char>>
    decreases entries.len(),
{
    if entries.len() == 0 {
        strings
    } else {
        let earlier = interned_all(strings, entries.drop_last());
        with_interned(with_interned(earlier, entries.last().path@), entry_name(entries.last()))
    }
}

/// The bytes that the paths and names of `entries` take as strings.
pub open spec fn string_bytes(entries: Seq<ScanEntry>) -> nat
    decreases entries.len(),
{
    if entries.len() == 0 {
        0
    } else {
        string_bytes(entries.drop_last()) + vstd::utf8::encode_utf8(entries.last().path@).len()
            + vstd::utf8::encode_utf8(entry_name(entries.last())).len()
    }
}

/// `n` as a 64-bit number, the largest one where it does not fit.
pub open spec fn clamp_u64(n: int) -> u64 {
    if n > u64::MAX {
        u64::MAX
    } else if n < 0 {
        0
    } else {
        n as u64
    }
}

/// The text of the first failure that the walk reports, if it reports one.
pub open spec fn first_failure(entries: Seq<ScanEntry>) -> Option<Seq<char>>
    decreases entries.len(),
{
    if entries.len() == 0 {
        None
    } else {
        match first_failure(entries.drop_last()) {
            Some(why) => Some(why),
            None => match entries.last().failure {
                Some(why) => Some(why@),
                None => None,
            },
        }
    }
}

/// Interning keeps what is held where it is.
pub proof fn lemma_interning_extends(strings: Seq<Seq<char>>, text: Seq<char>)
    ensures
        strings.len() <= with_interned(strings, text).len() <= strings.len() + 1,
        forall|i: int| 0 <= i < strings.len() ==> with_interned(strings, text)[i] == strings[i],
        with_interned(strings, text).contains(text),
{
    let after = with_interned(strings, text);
    if !strings.contains(text) {
        assert(after[strings.len() as int] == text);
    }
}

/// The bytes that interning saves for `n` nodes whose strings take `bytes`
/// bytes: the bytes of the strings less 8 for each node, and nothing where
/// that is negative.
pub open spec fn bytes_saved(bytes: nat, n: nat) -> nat {
    if bytes >= 8 * n {
        (bytes - 8 * n) as nat
    } else {
        0
    }
}

/// The node `n` is the node of the entry `e` in an interner that holds
/// `strings`: its handles stand for the path and the name of the entry.
pub open spec fn is_node_of(
    n: OptimizedFileNode,
    e: ScanEntry,
    root_components: usize,
    strings: Seq<Seq<char>>,
) -> bool {
    &&& facts_of(n) == node_facts(e, root_components)
    &&& n.has_children == n.is_directory
    &&& n.path_symbol.index < strings.len()
    &&& strings[n.path_symbol.index as int] == e.path@
    &&& n.name_symbol.index < strings.len()
    &&& strings[n.name_symbol.index as int] == entry_name(e)
}

/// A failure that the walk reports among its first `n` entries is the
/// first failure of the whole walk where none came before.
pub proof fn lemma_first_failure_stays(entries: Seq<ScanEntry>, n: int)
    requires
        0 <= n <= entries.len(),
        first_failure(entries.take(n)) is Some,
    ensures
        first_failure(entries) == first_failure(entries.take(n)),
    decreases entries.len() - n,
{
    if n == entries.len() {
        assert(entries.take(n) =~= entries);
    } else {
        assert(entries.drop_last().take(n) =~= entries.take(n));
        lemma_first_failure_stays(entries.drop_last(), n);
    }
}

/// The scanning service: the interner of the paths it has seen, and its
/// counters.
pub struct FilesystemService {
    path_interner: FilePathInterner,
    scan_count: u64,
    total_nodes: u64,
    memory_saved_bytes: u64,
}

impl FilesystemService {
    /// The interner of the service.
    pub closed spec fn interner(&self) -> FilePathInterner {
        self.path_interner
    }

    /// The number of scans made.
    pub closed spec fn scans(&self) -> u64 {
        self.scan_count
    }

    /// The number of nodes found by all scans.
    pub closed spec fn nodes(&self) -> u64 {
        self.total_nodes
    }

    /// The bytes saved by interning, over all scans.
    pub closed spec fn saved(&self) -> u64 {
        self.memory_saved_bytes
    }

    /// The interner is well formed.
    pub closed spec fn well_formed(&self) -> bool {
        self.path_interner.well_formed()
    }

    /// A service that has seen nothing.
    pub fn new() -> (s: Self)
        ensures
            s.well_formed(),
            s.interner().strings() == Seq::<Seq<char>>::empty(),
            s.scans() == 0,
            s.nodes() == 0,
            s.saved() == 0,
    {
        FilesystemService {
            path_interner: FilePathInterner::new(),
            scan_count: 0,
            total_nodes: 0,
            memory_saved_bytes: 0,
        }
    }

    /// Checks the path of a file operation before anything is done: it may
    /// not be blank, hold one of `< > : " | ? *`, or be longer than 260
    /// bytes.
    pub fn validate_file_operation(&self, operation: &str, file_path: &str) -> (r: AppResult<()>)
        ensures
            operation_refused(r, operation@, path_refusal(file_path@)),
    {
        let chars = to_chars(file_path);
        let trimmed = trim_chars(&chars);
        if trimmed.len() == 0 {
            let message = concat2(operation, " operation failed: File path cannot be empty");
            return Err(AppError::validation_with_field("EMPTY_PATH", message.as_str(), "file_path"));
        }
        let mut i: usize = 0;
        while i < chars.len()
            invariant
                i <= chars.len(),
                chars@ == file_path@,
                trim(file_path@).len() != 0,
                forall|k: int| 0 <= k < i ==> !is_invalid_path_char(chars@[k]),
            decreases chars.len() - i,
        {
            let c = chars[i];
            if c == '<' || c == '>' || c == ':' || c == '"' || c == '|' || c == '?' || c == '*' {
                assert(is_invalid_path_char(file_path@[i as int]));
                let message = concat2(
                    operation,
                    " operation failed: File path contains invalid characters",
                );
                return Err(
                    AppError::validation_with_field("INVALID_CHARS", message.as_str(), "file_path"),
                );
            }
            i += 1;
        }
        if byte_len(file_path) > 260 {
            let message = concat2(operation, " operation failed: File path is too long");
            return Err(
                AppError::validation_with_field("PATH_TOO_LONG", message.as_str(), "file_path"),
            );
        }
        Ok(())
    }

    /// Whether `file_path` is an existing file, given what the filesystem
    /// says of it; the path is checked first.
    pub fn file_exists(&self, file_path: &str, facts: PathFacts) -> (r: AppResult<bool>)
        ensures
            operation_refused(r, "existence_check"@, path_refusal(file_path@)),
            r matches Ok(b) ==> b == (facts.exists && facts.is_file),
    {
        match self.validate_file_operation("existence_check", file_path) {
            Err(e) => Err(e),
            Ok(_) => Ok(facts.exists && facts.is_file),
        }
    }

    /// Whether `dir_path` is an existing directory, given what the
    /// filesystem says of it; the path is checked first.
    pub fn dir_exists(&self, dir_path: &str, facts: PathFacts) -> (r: AppResult<bool>)
        ensures
            operation_refused(r, "existence_check"@, path_refusal(dir_path@)),
            r matches Ok(b) ==> b == (facts.exists && facts.is_dir),
    {
        match self.validate_file_operation("existence_check", dir_path) {
            Err(e) => Err(e),
            Ok(_) => Ok(facts.exists && facts.is_dir),
        }
    }

    /// The metadata of `file_path`, given what reading them gave; the path
    /// is checked first.
    pub fn get_file_metadata(&self, file_path: &str, metadata: &Result<EntryMetadata, String>) -> (r:
        AppResult<EntryMetadata>)
        ensures
            match path_refusal(file_path@) {
                Some(refusal) => operation_refused(r, "metadata_read"@, Some(refusal)),
                None => match metadata {
                    Ok(m) => r == Ok::<EntryMetadata, AppError>(*m),
                    Err(why) => r matches Err(e) && e.is(
                        ErrorCategory::Filesystem,
                        "METADATA_READ_FAILED"@,
                        "Failed to read file metadata: "@ + why@,
                        Some(file_path@),
                    ),
                },
            },
    {
        match self.validate_file_operation("metadata_read", file_path) {
            Err(e) => Err(e),
            Ok(_) => match metadata {
                Ok(m) => Ok(*m),
                Err(why) => {
                    let message = concat2("Failed to read file metadata: ", why.as_str());
                    Err(
                        AppError::filesystem_with_path(
                            "METADATA_READ_FAILED",
                            message.as_str(),
                            file_path,
                        ),
                    )
                },
            },
        }
    }

    /// Makes the nodes of what a walk below `root_path` reports, interning
    /// every path and every name. `root_components` is the number of
    /// components of the root, by which the depth of a node is counted. The
    /// scan fails where the root path is refused or the walk reports a
    /// failure. A scan that was begun is counted, whatever comes of it.
    pub fn scan_directory_optimized(
        &mut self,
        root_path: &str,
        root_components: usize,
        entries: &Vec<ScanEntry>,
    ) -> (r: AppResult<Vec<OptimizedFileNode>>)
        requires
            old(self).well_formed(),
            old(self).interner().strings().len() + 2 * entries.len() < u32::MAX,
        ensures
            final(self).well_formed(),
            path_refusal(root_path@) is Some ==> operation_refused(
                r,
                "directory_scan"@,
                path_refusal(root_path@),
            ) && final(self).interner() == old(self).interner() && final(self).scans() == old(self).scans() && final(self).nodes() == old(self).nodes() && final(self).saved() == old(self).saved(),
            path_refusal(root_path@) is None ==> final(self).scans() == clamp_u64(
                old(self).scans() + 1,
            ),
            path_refusal(root_path@) is None && first_failure(entries@) is Some ==> (r matches Err(
                e,
            ) && e.is(
                ErrorCategory::Filesystem,
                "WALK_ERROR"@,
                "Walk error: "@ + first_failure(entries@)->0,
                Some(root_path@),
            )),
            path_refusal(root_path@) is None && first_failure(entries@) is None ==> (r matches Ok(
                nodes,
            ) && {
                &&& nodes@.len() == entries@.len()
                &&& final(self).interner().strings() == interned_all(
                    old(self).interner().strings(),
                    entries@,
                )
                &&& forall|i: int|
                    0 <= i < nodes@.len() ==> is_node_of(
                        #[trigger] nodes@[i],
                        entries@[i],
                        root_components,
                        final(self).interner().strings(),
                    )
                &&& final(self).nodes() == clamp_u64(old(self).nodes() + entries@.len())
                &&& final(self).saved() == clamp_u64(
                    old(self).saved() + bytes_saved(string_bytes(entries@), entries@.len()),
                )
            }),
    {
        if let Err(e) = self.validate_file_operation("directory_scan", root_path) {
            return Err(e);
        }
        self.scan_count = if self.scan_count == u64::MAX {
            u64::MAX
        } else {
            self.scan_count + 1
        };
        let ghost start = self.path_interner.strings();
        let mut nodes: Vec<OptimizedFileNode> = Vec::new();
        let mut bytes: u128 = 0;
        let mut i: usize = 0;
        proof {
            assert(entries@.take(0) =~= Seq::empty());
        }
        while i < entries.len()
            invariant
                i <= entries.len(),
                self.path_interner.well_formed(),
                start.len() + 2 * entries.len() < u32::MAX,
                self.path_interner.strings() == interned_all(start, entries@.take(i as int)),
                start.len() <= self.path_interner.strings().len() <= start.len() + 2 * i,
                first_failure(entries@.take(i as int)) is None,
                nodes@.len() == i,
                forall|k: int|
                    0 <= k < i ==> is_node_of(
                        #[trigger] nodes@[k],
                        entries@[k],
                        root_components,
                        self.path_interner.strings(),
                    ),
                bytes == string_bytes(entries@.take(i as int)),
                bytes <= 2 * i * 0x1_0000_0000_0000_0000,
                self.scan_count == clamp_u64(old(self).scans() + 1),
                self.total_nodes == old(self).nodes(),
                self.memory_saved_bytes == old(self).saved(),
                path_refusal(root_path@) is None,
            decreases entries.len() - i,
        {
            let e = &entries[i];
            proof {
                assert(entries@.take(i + 1).drop_last() =~= entries@.take(i as int));
                assert(entries@.take(i + 1).last() == entries@[i as int]);
            }
            if let Some(why) = &e.failure {
                proof {
                    lemma_first_failure_stays(entries@, i + 1);
                }
                let message = concat2("Walk error: ", why.as_str());
                return Err(AppError::filesystem_with_path("WALK_ERROR", message.as_str(), root_path));
            }
            let ghost before = self.path_interner.strings();
            let path_symbol = self.path_interner.intern_path(e.path.as_str());
            let ghost mid = self.path_interner.strings();
            let name: &str = match &e.name {
                Some(n) => n.as_str(),
                None => e.path.as_str(),
            };
            proof {
                lemma_interning_extends(before, e.path@);
            }
            let name_symbol = self.path_interner.intern_path(name);
            proof {
                lemma_interning_extends(mid, name@);
            }
            bytes = bytes + (byte_len(e.path.as_str()) as u128) + (byte_len(name) as u128);
            let is_directory = match e.metadata {
                Some(m) => m.is_dir,
                None => false,
            };
            let extension: Option<String> = if is_directory {
                None
            } else {
                match &e.extension {
                    Some(x) => Some(to_lowercase(x.as_str())),
                    None => None,
                }
            };
            let icon_id = self.get_cached_icon_id(
                match &extension {
                    Some(x) => Some(x.as_str()),
                    None => None,
                },
                is_directory,
            );
            let node = OptimizedFileNode {
                path_symbol,
                name_symbol,
                extension,
                size: match e.metadata {
                    Some(m) => if m.is_file {
                        Some(m.len)
                    } else {
                        None
                    },
                    None => None,
                },
                is_directory,
                depth: if e.components >= root_components {
                    e.components - root_components
                } else {
                    0
                },
                last_modified: match e.metadata {
                    Some(m) => m.modified,
                    None => None,
                },
                icon_id,
                has_children: is_directory,
            };
            let ghost old_nodes = nodes@;
            nodes.push(node);
            proof {
                let now = self.path_interner.strings();
                assert forall|k: int| 0 <= k < i + 1 implies is_node_of(
                    #[trigger] nodes@[k],
                    entries@[k],
                    root_components,
                    now,
                ) by {
                    if k < i {
                        assert(nodes@[k] == old_nodes[k]);
                        assert(is_node_of(old_nodes[k], entries@[k], root_components, before));
                    }
                }
            }
            i += 1;
        }
        proof {
            assert(entries@.take(i as int) =~= entries@);
        }
        let n: u128 = nodes.len() as u128;
        let saved: u128 = if bytes >= 8 * n {
            bytes - 8 * n
        } else {
            0
        };
        self.total_nodes = if (self.total_nodes as u128) + n > u64::MAX as u128 {
            u64::MAX
        } else {
            ((self.total_nodes as u128) + n) as u64
        };
        self.memory_saved_bytes = if (self.memory_saved_bytes as u128) + saved > u64::MAX as u128 {
            u64::MAX
        } else {
            ((self.memory_saved_bytes as u128) + saved) as u64
        };
        Ok(nodes)
    }

    /// The icon of an entry of a scan, by its extension in lower case.
    pub fn get_cached_icon_id(&self, extension: Option<&str>, is_directory: bool) -> (r: String)
        ensures
            r@ == node_icon(
                match extension {
                    Some(x) => Some(x@),
                    None => None,
                },
                is_directory,
            ),
    {
        if is_directory {
            return String::from_str("folder");
        }
        String::from_str(icon_for_extension(extension))
    }

    /// The counters of the service: scans made, nodes found, bytes saved,
    /// and the statistics of the interner.
    pub fn get_performance_metrics(&self) -> (r: (u64, u64, u64, (usize, usize)))
        requires
            self.well_formed(),
        ensures
            r.0 == self.scans(),
            r.1 == self.nodes(),
            r.2 == self.saved(),
            r.3.0 == self.interner().strings().len(),
            r.3.1 == self.interner().strings().len(),
    {
        (self.scan_count, self.total_nodes, self.memory_saved_bytes, self.path_interner.memory_stats())
    }

    /// Writes a size for people.
    pub fn format_file_size(size: u64) -> (r: String)
        ensures
            r@ == file_size_text(size),
    {
        crate::file_utils::format_file_size(size)
    }

    /// Whether an editor should open a file of `size` bytes, and what it
    /// should say.
    pub fn is_safe_to_open(&self, file_path: &str, size: u64) -> (r: (bool, Option<String>))
        ensures
            r.0 == (size <= crate::file_utils::MAX_SAFE_SIZE),
            match open_advice(size) {
                Some(text) => r.1 matches Some(t) && t@ == text,
                None => r.1 is None,
            },
    {
        crate::file_utils::is_safe_to_open(size)
    }
}

} // verus!
