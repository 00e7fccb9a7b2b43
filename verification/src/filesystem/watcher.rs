//! The rules of the change watcher: how a project is watched, which paths
//! are watched at all, what kind of change a notification stands for, and
//! which paths are being watched.

use vstd::prelude::*;
use vstd::string::*;
use crate::filesystem::tree::{Listing, TreeEntry};
use crate::text::{
    concat2, concat3, decimal, decimal_string, has_prefix, has_substring, str_contains, str_eq,
    str_starts_with, string_texts,
};

verus! {

/// A change in the workspace, as the user interface is told of it.
#[derive(Debug)]
pub struct FileSystemEvent {
    /// `created`, `modified` or `deleted`.
    pub event_type: String,
    pub path: String,
    pub is_directory: bool,
    /// Seconds since the Unix epoch.
    pub timestamp: u64,
}

/// What is known of one watcher.
#[derive(Debug)]
pub struct WatcherInfo {
    pub root_path: String,
    pub last_activity: u64,
    pub event_count: usize,
}

/// What a look at the root of a project found.
#[derive(Debug)]
pub struct ProjectAnalysis {
    pub path: String,
    pub project_type: String,
    pub file_count: usize,
    pub dir_count: usize,
    pub has_build_artifacts: bool,
    pub estimated_total_files: usize,
}

/// What the user is told when a watch starts.
#[derive(Debug)]
pub struct ProjectWatchNotification {
    pub notification_type: String,
    pub title: String,
    pub message: String,
    pub strategy: String,
    pub performance_note: String,
    pub auto_dismiss: bool,
}

/// How a project is watched.
#[derive(Debug)]
pub enum WatchStrategy {
    /// Everything below the root.
    Full,
    /// The root itself and the conventional code directories; the patterns
    /// name what matters.
    Selective(Vec<String>),
    /// The root itself only.
    Hybrid,
}

/// The event of the kind `event_type` at `path`.
pub fn event_of(event_type: &str, path: &str, is_directory: bool, timestamp: u64) -> (e:
    FileSystemEvent)
    ensures
        e.event_type@ == event_type@,
        e.path@ == path@,
        e.is_directory == is_directory,
        e.timestamp == timestamp,
{
    FileSystemEvent {
        event_type: String::from_str(event_type),
        path: String::from_str(path),
        is_directory,
        timestamp,
    }
}

// ---------------------------------------------------------------------------
// Which paths are watched at all
// ---------------------------------------------------------------------------
/// One of `patterns` occurs in `path`.
pub open spec fn mentions_any(path: Seq<char>, patterns: Seq<Seq<char>>) -> bool {
    exists|i: int| 0 <= i < patterns.len() && has_substring(path, #[trigger] patterns[i])
}

/// The texts that mark a directory as too noisy to watch.
pub open spec fn problematic_patterns() -> Seq<Seq<char>> {
    seq![
        "anaconda"@,
        "miniconda"@,
        "node_modules"@,
        ".npm"@,
        ".cache"@,
        "/tmp/"@,
        "/temp/"@,
        "/.local/"@,
        "/.vscode/"@,
        "/Library/"@,
        "/System/"@,
        "Program Files"@,
        "__pycache__"@,
    ]
}

/// The texts that mark a changed path as noise.
pub open spec fn noise_patterns() -> Seq<Seq<char>> {
    seq![
        "__pycache__"@,
        ".pyc"@,
        "/.cache/"@,
        "/temp/"@,
        "/tmp/"@,
        ".syntari_permission_test"@,
    ]
}

fn mentions(path: &str, patterns: &Vec<&'static str>, Ghost(texts): Ghost<Seq<Seq<char>>>) -> (r:
    bool)
    requires
        texts.len() == patterns.len(),
        forall|i: int| 0 <= i < patterns.len() ==> (#[trigger] patterns@[i])@ == texts[i],
    ensures
        r == mentions_any(path@, texts),
{
    let mut i: usize = 0;
    while i < patterns.len()
        invariant
            i <= patterns.len(),
            texts.len() == patterns.len(),
            forall|k: int| 0 <= k < patterns.len() ==> (#[trigger] patterns@[k])@ == texts[k],
            forall|k: int| 0 <= k < i ==> !has_substring(path@, #[trigger] texts[k]),
        decreases patterns.len() - i,
    {
        if str_contains(path, patterns[i]) {
            assert(patterns@[i as int]@ == texts[i as int]);
            return true;
        }
        assert(patterns@[i as int]@ == texts[i as int]);
        i += 1;
    }
    false
}

/// A watch on `path` is accepted without being set up: the path holds one
/// of the texts that mark noisy directories.
pub fn is_problematic_directory(path: &str) -> (r: bool)
    ensures
        r == mentions_any(path@, problematic_patterns()),
{
    let mut patterns: Vec<&'static str> = Vec::new();
    patterns.push("anaconda");
    patterns.push("miniconda");
    patterns.push("node_modules");
    patterns.push(".npm");
    patterns.push(".cache");
    patterns.push("/tmp/");
    patterns.push("/temp/");
    patterns.push("/.local/");
    patterns.push("/.vscode/");
    patterns.push("/Library/");
    patterns.push("/System/");
    patterns.push("Program Files");
    patterns.push("__pycache__");
    mentions(path, &patterns, Ghost(problematic_patterns()))
}

/// A change at `path` is dropped: the path holds one of the texts that mark
/// noise.
pub fn should_ignore_path(path: &str) -> (r: bool)
    ensures
        r == mentions_any(path@, noise_patterns()),
{
    let mut patterns: Vec<&'static str> = Vec::new();
    patterns.push("__pycache__");
    patterns.push(".pyc");
    patterns.push("/.cache/");
    patterns.push("/temp/");
    patterns.push("/tmp/");
    patterns.push(".syntari_permission_test");
    mentions(path, &patterns, Ghost(noise_patterns()))
}

// ---------------------------------------------------------------------------
// How a project is watched
// ---------------------------------------------------------------------------
/// Number of entries of the root that are looked at.
pub const ROOT_SAMPLE: usize = 100;

/// What reading the root reports of one entry.
#[derive(Debug)]
pub struct RootEntry {
    /// The name, where it is valid UTF-8.
    pub name: Option<String>,
    pub is_directory: bool,
}

/// What the look at the root counted.
pub struct RootCounts {
    pub files: nat,
    pub dirs: nat,
    pub has_node_modules: bool,
    pub has_target: bool,
    pub has_git: bool,
    pub has_cargo_toml: bool,
    pub has_package_json: bool,
}

/// The entry is named `name`.
pub open spec fn named(e: RootEntry, name: Seq<char>) -> bool {
    e.name matches Some(n) && n@ == name
}

/// The counts over `entries`, where an entry that could not be read counts
/// for nothing.
pub open spec fn root_counts(entries: Seq<Option<RootEntry>>) -> RootCounts
    decreases entries.len(),
{
    if entries.len() == 0 {
        RootCounts {
            files: 0,
            dirs: 0,
            has_node_modules: false,
            has_target: false,
            has_git: false,
            has_cargo_toml: false,
            has_package_json: false,
        }
    } else {
        let c = root_counts(entries.drop_last());
        match entries.last() {
            None => c,
            Some(e) => if e.is_directory {
                RootCounts {
                    dirs: c.dirs + 1,
                    has_node_modules: c.has_node_modules || named(e, "node_modules"@),
                    has_target: c.has_target || named(e, "target"@),
                    has_git: c.has_git || named(e, ".git"@),
                    ..c
                }
            } else {
                RootCounts {
                    files: c.files + 1,
                    has_cargo_toml: c.has_cargo_toml || named(e, "Cargo.toml"@),
                    has_package_json: c.has_package_json || named(e, "package.json"@),
                    ..c
                }
            },
        }
    }
}

/// The first `ROOT_SAMPLE` of the entries of the root.
pub open spec fn sampled(entries: Seq<Option<RootEntry>>) -> Seq<Option<RootEntry>> {
    if entries.len() > ROOT_SAMPLE {
        entries.take(ROOT_SAMPLE as int)
    } else {
        entries
    }
}

/// The kind of strategy that fits the counts: full for fewer than 1000
/// files and fewer than 50 directories, else selective where build
/// artifacts were seen, else hybrid.
#[derive(Debug, Clone, Copy, PartialEq, Eq, Structural)]
pub enum StrategyKind {
    Full,
    Selective,
    Hybrid,
}

/// The kind of strategy that fits the counts.
pub open spec fn strategy_kind(c: RootCounts) -> StrategyKind {
    if c.files < 1000 && c.dirs < 50 {
        StrategyKind::Full
    } else if c.has_node_modules || c.has_target {
        StrategyKind::Selective
    } else {
        StrategyKind::Hybrid
    }
}

/// The patterns a selective watch names.
pub open spec fn selective_patterns(has_git: bool) -> Seq<Seq<char>> {
    let base = seq![
        "src/**/*"@,
        "*.rs"@,
        "*.ts"@,
        "*.tsx"@,
        "*.js"@,
        "*.jsx"@,
        "*.json"@,
        "*.md"@,
        "Cargo.toml"@,
        "package.json"@,
    ];
    if has_git {
        base.push(".gitignore"@)
    } else {
        base
    }
}

/// The kind of project the counts speak of.
pub open spec fn project_kind(c: RootCounts) -> Seq<char> {
    if c.has_cargo_toml {
        "Rust"@
    } else if c.has_package_json {
        "Node.js"@
    } else if c.has_git {
        "Git Repository"@
    } else {
        "General"@
    }
}

/// The kind of a strategy.
pub open spec fn kind_of(s: WatchStrategy) -> StrategyKind {
    match s {
        WatchStrategy::Full => StrategyKind::Full,
        WatchStrategy::Selective(_) => StrategyKind::Selective,
        WatchStrategy::Hybrid => StrategyKind::Hybrid,
    }
}

/// The strategy and the analysis are those that the entries of the root at
/// `path` call for.
pub open spec fn is_watch_decision(
    path: Seq<char>,
    entries: Seq<Option<RootEntry>>,
    strategy: WatchStrategy,
    analysis: ProjectAnalysis,
) -> bool {
    let c = root_counts(sampled(entries));
    &&& kind_of(strategy) == strategy_kind(c)
    &&& strategy matches WatchStrategy::Selective(patterns) ==> string_texts(patterns@)
        == selective_patterns(c.has_git)
    &&& analysis.path@ == path
    &&& analysis.project_type@ == project_kind(c)
    &&& analysis.file_count == c.files
    &&& analysis.dir_count == c.dirs
    &&& analysis.has_build_artifacts == (c.has_node_modules || c.has_target)
    &&& analysis.estimated_total_files == (if c.has_node_modules {
        c.files * 100
    } else {
        c.files * 10
    })
}

fn name_is(e: &RootEntry, name: &str) -> (r: bool)
    ensures
        r == named(*e, name@),
{
    match &e.name {
        Some(n) => str_eq(n.as_str(), name),
        None => false,
    }
}

fn patterns_for(has_git: bool) -> (patterns: Vec<String>)
    ensures
        string_texts(patterns@) == selective_patterns(has_git),
{
    let mut patterns: Vec<String> = Vec::new();
    patterns.push(String::from_str("src/**/*"));
    patterns.push(String::from_str("*.rs"));
    patterns.push(String::from_str("*.ts"));
    patterns.push(String::from_str("*.tsx"));
    patterns.push(String::from_str("*.js"));
    patterns.push(String::from_str("*.jsx"));
    patterns.push(String::from_str("*.json"));
    patterns.push(String::from_str("*.md"));
    patterns.push(String::from_str("Cargo.toml"));
    patterns.push(String::from_str("package.json"));
    if has_git {
        patterns.push(String::from_str(".gitignore"));
    }
    assert(string_texts(patterns@) =~= selective_patterns(has_git));
    patterns
}

/// Chooses how the project at `path` is watched, from the entries of its
/// root in the order they were read (an entry that could not be read is
/// `None`). Only the first 100 entries are looked at.
pub fn determine_watch_strategy(path: &str, entries: &Vec<Option<RootEntry>>) -> (r: (
    WatchStrategy,
    ProjectAnalysis,
))
    ensures
        is_watch_decision(path@, entries@, r.0, r.1),
{
    let n: usize = if entries.len() > ROOT_SAMPLE {
        ROOT_SAMPLE
    } else {
        entries.len()
    };
    let ghost sample = sampled(entries@);
    let mut files: usize = 0;
    let mut dirs: usize = 0;
    let mut has_node_modules = false;
    let mut has_target = false;
    let mut has_git = false;
    let mut has_cargo_toml = false;
    let mut has_package_json = false;
    let mut i: usize = 0;
    proof {
        assert(sample.take(0) =~= Seq::empty());
    }
    while i < n
        invariant
            i <= n <= entries.len(),
            n <= ROOT_SAMPLE,
            n == sample.len(),
            sample == sampled(entries@),
            forall|k: int| 0 <= k < n ==> sample[k] == entries@[k],
            files + dirs <= i,
            root_counts(sample.take(i as int)) == (RootCounts {
                files: files as nat,
                dirs: dirs as nat,
                has_node_modules,
                has_target,
                has_git,
                has_cargo_toml,
                has_package_json,
            }),
        decreases n - i,
    {
        proof {
            assert(sample.take(i + 1).drop_last() =~= sample.take(i as int));
            assert(sample.take(i + 1).last() == entries@[i as int]);
        }
        if let Some(e) = &entries[i] {
            if e.is_directory {
                dirs += 1;
                if name_is(e, "node_modules") {
                    has_node_modules = true;
                }
                if name_is(e, "target") {
                    has_target = true;
                }
                if name_is(e, ".git") {
                    has_git = true;
                }
            } else {
                files += 1;
                if name_is(e, "Cargo.toml") {
                    has_cargo_toml = true;
                }
                if name_is(e, "package.json") {
                    has_package_json = true;
                }
            }
        }
        i += 1;
    }
    proof {
        assert(sample.take(n as int) =~= sample);
    }
    let project_type = if has_cargo_toml {
        "Rust"
    } else if has_package_json {
        "Node.js"
    } else if has_git {
        "Git Repository"
    } else {
        "General"
    };
    let analysis = ProjectAnalysis {
        path: String::from_str(path),
        project_type: String::from_str(project_type),
        file_count: files,
        dir_count: dirs,
        has_build_artifacts: has_node_modules || has_target,
        estimated_total_files: if has_node_modules {
            files * 100
        } else {
            files * 10
        },
    };
    let strategy = if files < 1000 && dirs < 50 {
        WatchStrategy::Full
    } else if has_node_modules || has_target {
        WatchStrategy::Selective(patterns_for(has_git))
    } else {
        WatchStrategy::Hybrid
    };
    (strategy, analysis)
}

/// How a watch of the given kind is set up.
#[derive(Debug, Clone, Copy, PartialEq, Eq, Structural)]
pub struct WatchSetup {
    /// The root is watched with all that lies below it.
    pub root_recursive: bool,
    /// The conventional code directories that exist are watched with all
    /// that lies below them.
    pub code_directories: bool,
    /// How long changes are gathered before they are reported, in
    /// milliseconds.
    pub debounce_millis: u64,
}

/// How a watch of the given kind is set up: a full watch takes the whole
/// tree, a selective one the root and the code directories, both reporting
/// after 100 ms; a hybrid one the root only, reporting after 500 ms.
pub open spec fn setup_of(kind: StrategyKind) -> WatchSetup {
    match kind {
        StrategyKind::Full => WatchSetup {
            root_recursive: true,
            code_directories: false,
            debounce_millis: 100,
        },
        StrategyKind::Selective => WatchSetup {
            root_recursive: false,
            code_directories: true,
            debounce_millis: 100,
        },
        StrategyKind::Hybrid => WatchSetup {
            root_recursive: false,
            code_directories: false,
            debounce_millis: 500,
        },
    }
}

/// How a watch with the given strategy is set up.
pub fn watch_setup(strategy: &WatchStrategy) -> (s: WatchSetup)
    ensures
        s == setup_of(kind_of(*strategy)),
{
    match strategy {
        WatchStrategy::Full => WatchSetup {
            root_recursive: true,
            code_directories: false,
            debounce_millis: 100,
        },
        WatchStrategy::Selective(_) => WatchSetup {
            root_recursive: false,
            code_directories: true,
            debounce_millis: 100,
        },
        WatchStrategy::Hybrid => WatchSetup {
            root_recursive: false,
            code_directories: false,
            debounce_millis: 500,
        },
    }
}

/// The conventional code directories of a selective watch.
pub open spec fn code_directories() -> Seq<Seq<char>> {
    seq!["src"@, "components"@, "pages"@, "lib"@, "utils"@, "config"@]
}

/// The conventional code directories of a selective watch.
pub fn important_directories() -> (names: Vec<String>)
    ensures
        string_texts(names@) == code_directories(),
{
    let mut names: Vec<String> = Vec::new();
    names.push(String::from_str("src"));
    names.push(String::from_str("components"));
    names.push(String::from_str("pages"));
    names.push(String::from_str("lib"));
    names.push(String::from_str("utils"));
    names.push(String::from_str("config"));
    assert(string_texts(names@) =~= code_directories());
    names
}

/// The notification `n` tells of a watch of the kind `kind` on the project
/// that `analysis` describes.
pub open spec fn is_watch_notification(
    kind: StrategyKind,
    analysis: ProjectAnalysis,
    n: ProjectWatchNotification,
) -> bool {
    match kind {
        StrategyKind::Full => {
            &&& n.notification_type@ == "info"@
            &&& n.title@ == "Project Analysis"@
            &&& n.message@ == "Small "@ + analysis.project_type@
                + " project detected. Using full file watching for optimal responsiveness."@
            &&& n.strategy@ == "Full Watching"@
            &&& n.performance_note@ == "Real-time updates for all files"@
            &&& n.auto_dismiss
        },
        StrategyKind::Selective => {
            &&& n.notification_type@ == "info"@
            &&& n.title@ == "Large Project Detected"@
            &&& n.message@ == "Medium-sized "@ + analysis.project_type@ + " project with "@
                + decimal(analysis.file_count as nat)
                + " files detected. Using selective watching for optimal performance."@
            &&& n.strategy@ == "Selective Watching"@
            &&& n.performance_note@
                == "Watching important directories (src/, config files, etc.)"@
            &&& n.auto_dismiss
        },
        StrategyKind::Hybrid => {
            &&& n.notification_type@ == "warning"@
            &&& n.title@ == "Very Large Project Detected"@
            &&& n.message@ == "Large "@ + analysis.project_type@ + " project detected (~"@
                + decimal(analysis.estimated_total_files as nat)
                + " estimated files). Using hybrid watching to maintain performance."@
            &&& n.strategy@ == "Hybrid Watching"@
            &&& n.performance_note@
                == "Root directory + periodic scanning for optimal memory usage"@
            &&& !n.auto_dismiss
        },
    }
}

/// What the user is told when a watch with `strategy` starts.
pub fn project_analysis_notification(strategy: &WatchStrategy, analysis: &ProjectAnalysis) -> (n:
    ProjectWatchNotification)
    ensures
        is_watch_notification(kind_of(*strategy), *analysis, n),
{
    match strategy {
        WatchStrategy::Full => ProjectWatchNotification {
            notification_type: String::from_str("info"),
            title: String::from_str("Project Analysis"),
            message: concat3(
                "Small ",
                analysis.project_type.as_str(),
                " project detected. Using full file watching for optimal responsiveness.",
            ),
            strategy: String::from_str("Full Watching"),
            performance_note: String::from_str("Real-time updates for all files"),
            auto_dismiss: true,
        },
        WatchStrategy::Selective(_) => {
            let start = concat3("Medium-sized ", analysis.project_type.as_str(), " project with ");
            ProjectWatchNotification {
                notification_type: String::from_str("info"),
                title: String::from_str("Large Project Detected"),
                message: concat3(
                    start.as_str(),
                    decimal_string(analysis.file_count as u64).as_str(),
                    " files detected. Using selective watching for optimal performance.",
                ),
                strategy: String::from_str("Selective Watching"),
                performance_note: String::from_str(
                    "Watching important directories (src/, config files, etc.)",
                ),
                auto_dismiss: true,
            }
        },
        WatchStrategy::Hybrid => {
            let start = concat3("Large ", analysis.project_type.as_str(), " project detected (~");
            ProjectWatchNotification {
                notification_type: String::from_str("warning"),
                title: String::from_str("Very Large Project Detected"),
                message: concat3(
                    start.as_str(),
                    decimal_string(analysis.estimated_total_files as u64).as_str(),
                    " estimated files). Using hybrid watching to maintain performance.",
                ),
                strategy: String::from_str("Hybrid Watching"),
                performance_note: String::from_str(
                    "Root directory + periodic scanning for optimal memory usage",
                ),
                auto_dismiss: false,
            }
        },
    }
}

/// The failure text speaks of a limit of the system on watches.
pub open spec fn is_watch_limit(message: Seq<char>) -> bool {
    ||| has_substring(message, "No space left on device"@)
    ||| has_substring(message, "file watch limit"@)
    ||| has_substring(message, "too many"@)
}

/// What is said where a watch could not be started for the reason `error`.
pub open spec fn watch_failure_text(error: Seq<char>) -> Seq<char> {
    let message = "Failed to start watching: "@ + error;
    if is_watch_limit(message) {
        "inotify limit reached. Run our fix script:\n./fix_file_watcher.sh\n\nOr manually increase limits:\nsudo sysctl fs.inotify.max_user_watches=524288\nsudo sysctl fs.inotify.max_user_instances=256\n\nOriginal error: "@
            + error
    } else {
        message
    }
}

/// What is said where a watch could not be started: where the system's
/// limit on watches was hit, how to raise it.
pub fn format_watch_error(error: &str) -> (r: String)
    ensures
        r@ == watch_failure_text(error@),
{
    let message = concat2("Failed to start watching: ", error);
    if str_contains(message.as_str(), "No space left on device") || str_contains(
        message.as_str(),
        "file watch limit",
    ) || str_contains(message.as_str(), "too many") {
        concat2(
            "inotify limit reached. Run our fix script:\n./fix_file_watcher.sh\n\nOr manually increase limits:\nsudo sysctl fs.inotify.max_user_watches=524288\nsudo sysctl fs.inotify.max_user_instances=256\n\nOriginal error: ",
            error,
        )
    } else {
        message
    }
}

// ---------------------------------------------------------------------------
// The files known to exist
// ---------------------------------------------------------------------------
/// Most entries the scan at the start of a watch puts into the cache.
pub const MAX_CACHED_FILES: usize = 10_000;

/// Most entries of one directory that the scan looks at.
pub const MAX_CACHED_PER_DIRECTORY: usize = 1_000;

/// Greatest depth at which the scan descends into a directory.
pub const MAX_CACHE_DEPTH: u32 = 5;

/// A file known to exist, with the time it was first seen.
#[derive(Debug)]
pub struct KnownFile {
    pub path: String,
    pub seen: u64,
}

/// The paths of known files, in order.
pub open spec fn paths_of(v: Seq<KnownFile>) -> Seq<Seq<char>> {
    v.map_values(|f: KnownFile| f.path@)
}

/// `p` is one of the first `n` of `paths`.
pub open spec fn drawn_from(paths: Seq<Seq<char>>, n: int, p: Seq<char>) -> bool {
    exists|k: int| 0 <= k < n && paths[k] == p
}

/// The files known to exist. No path occurs twice.
#[derive(Debug)]
pub struct KnownFiles {
    files: Vec<KnownFile>,
}

impl KnownFiles {
    /// The paths known, in the order they became known.
    pub closed spec fn paths(&self) -> Seq<Seq<char>> {
        paths_of(self.files@)
    }

    /// The path `p` is known.
    pub open spec fn knows(&self, p: Seq<char>) -> bool {
        self.paths().contains(p)
    }

    /// No path occurs twice.
    pub open spec fn well_formed(&self) -> bool {
        self.paths().no_duplicates()
    }

    /// A cache that knows nothing.
    pub fn new() -> (c: Self)
        ensures
            c.well_formed(),
            c.paths() == Seq::<Seq<char>>::empty(),
    {
        let c = KnownFiles { files: Vec::new() };
        assert(c.paths() =~= Seq::empty());
        c
    }

    /// The number of paths known.
    pub fn len(&self) -> (n: usize)
        ensures
            n == self.paths().len(),
    {
        self.files.len()
    }

    fn position(&self, path: &str) -> (r: Option<usize>)
        ensures
            match r {
                Some(i) => i < self.paths().len() && self.paths()[i as int] == path@,
                None => !self.knows(path@),
            },
    {
        let mut i: usize = 0;
        while i < self.files.len()
            invariant
                i <= self.files.len(),
                forall|k: int| 0 <= k < i ==> self.paths()[k] != path@,
            decreases self.files.len() - i,
        {
            if str_eq(self.files[i].path.as_str(), path) {
                return Some(i);
            }
            i += 1;
        }
        None
    }

    /// Decides whether `path` is known.
    pub fn contains(&self, path: &str) -> (r: bool)
        ensures
            r == self.knows(path@),
    {
        self.position(path).is_some()
    }

    /// Makes `path` known, first seen at `seen` unless it was known before.
    pub fn insert(&mut self, path: &str, seen: u64)
        requires
            old(self).well_formed(),
        ensures
            final(self).well_formed(),
            old(self).knows(path@) ==> final(self).paths() == old(self).paths(),
            !old(self).knows(path@) ==> final(self).paths() == old(self).paths().push(path@),
    {
        if self.position(path).is_none() {
            let ghost before = self.paths();
            self.files.push(KnownFile { path: String::from_str(path), seen });
            proof {
                assert(self.paths() =~= before.push(path@));
            }
        }
    }

    /// Forgets `path`.
    pub fn remove(&mut self, path: &str)
        requires
            old(self).well_formed(),
        ensures
            final(self).well_formed(),
            forall|p: Seq<char>| final(self).knows(p) <==> (old(self).knows(p) && p != path@),
            final(self).paths().len() == old(self).paths().len() - (if old(self).knows(path@) {
                1int
            } else {
                0int
            }),
    {
        if let Some(i) = self.position(path) {
            let ghost before = self.paths();
            let _ = self.files.remove(i);
            proof {
                assert(self.paths() =~= before.remove(i as int));
                assert forall|p: Seq<char>| self.knows(p) <==> (before.contains(p) && p
                    != path@) by {
                    if before.contains(p) && p != path@ {
                        let k = choose|k: int| 0 <= k < before.len() && before[k] == p;
                        if k < i {
                            assert(before.remove(i as int)[k] == p);
                        } else {
                            assert(before.remove(i as int)[k - 1] == p);
                        }
                    }
                    if self.knows(p) {
                        let k = choose|k: int|
                            0 <= k < self.paths().len() && self.paths()[k] == p;
                        if k < i {
                            assert(before[k] == p);
                        } else {
                            assert(before[k + 1] == p);
                        }
                    }
                }
            }
        }
    }

    /// Forgets every path that begins with `root`.
    pub fn evict_under(&mut self, root: &str)
        requires
            old(self).well_formed(),
        ensures
            final(self).well_formed(),
            forall|p: Seq<char>|
                final(self).knows(p) <==> (old(self).knows(p) && !has_prefix(p, root@)),
    {
        let ghost before = self.paths();
        let mut kept: Vec<KnownFile> = Vec::new();
        let mut i: usize = 0;
        while i < self.files.len()
            invariant
                i <= self.files.len(),
                before == self.paths(),
                before.no_duplicates(),
                paths_of(kept@).no_duplicates(),
                forall|a: int|
                    0 <= a < paths_of(kept@).len() ==> !has_prefix(
                        #[trigger] paths_of(kept@)[a],
                        root@,
                    ),
                forall|a: int|
                    0 <= a < paths_of(kept@).len() ==> drawn_from(
                        before,
                        i as int,
                        #[trigger] paths_of(kept@)[a],
                    ),
                forall|k: int|
                    0 <= k < i && !has_prefix(#[trigger] before[k], root@) ==> paths_of(
                        kept@,
                    ).contains(before[k]),
            decreases self.files.len() - i,
        {
            let ghost old_kept = paths_of(kept@);
            assert(before[i as int] == self.files@[i as int].path@);
            if !str_starts_with(self.files[i].path.as_str(), root) {
                let f = KnownFile { path: self.files[i].path.clone(), seen: self.files[i].seen };
                kept.push(f);
                proof {
                    let now = paths_of(kept@);
                    assert(now =~= old_kept.push(before[i as int]));
                    assert forall|a: int, b: int| 0 <= a < now.len() && 0 <= b < now.len() && a
                        != b implies now[a] != now[b] by {
                        if a < old_kept.len() && b == old_kept.len() {
                            assert(drawn_from(before, i as int, old_kept[a]));
                            let k = choose|k: int| 0 <= k < i && before[k] == old_kept[a];
                            assert(before[k] != before[i as int]);
                        }
                        if b < old_kept.len() && a == old_kept.len() {
                            assert(drawn_from(before, i as int, old_kept[b]));
                            let k = choose|k: int| 0 <= k < i && before[k] == old_kept[b];
                            assert(before[k] != before[i as int]);
                        }
                    }
                    assert forall|k: int|
                        0 <= k < i + 1 && !has_prefix(#[trigger] before[k], root@) implies now.contains(
                        before[k],
                    ) by {
                        if k < i {
                            let a = choose|a: int|
                                0 <= a < old_kept.len() && old_kept[a] == before[k];
                            assert(now[a] == before[k]);
                        } else {
                            assert(now[old_kept.len() as int] == before[k]);
                        }
                    }
                }
            }
            proof {
                let now = paths_of(kept@);
                assert forall|a: int| 0 <= a < now.len() implies drawn_from(
                    before,
                    i + 1,
                    #[trigger] now[a],
                ) by {
                    if a < old_kept.len() {
                        assert(now[a] == old_kept[a]);
                        assert(drawn_from(before, i as int, old_kept[a]));
                        let k = choose|k: int| 0 <= k < i && before[k] == old_kept[a];
                        assert(0 <= k < i + 1 && before[k] == now[a]);
                    } else {
                        assert(before[i as int] == now[a]);
                    }
                }
            }
            i += 1;
        }
        self.files = kept;
        proof {
            let now = self.paths();
            assert(now == paths_of(kept@));
            assert forall|p: Seq<char>| now.contains(p) <==> (before.contains(p) && !has_prefix(
                p,
                root@,
            )) by {
                if now.contains(p) {
                    let a = choose|a: int| 0 <= a < now.len() && now[a] == p;
                    assert(drawn_from(before, i as int, now[a]));
                    let k = choose|k: int| 0 <= k < i && before[k] == now[a];
                }
                if before.contains(p) && !has_prefix(p, root@) {
                    let k = choose|k: int| 0 <= k < before.len() && before[k] == p;
                    assert(now.contains(before[k]));
                }
            }
        }
    }
}

/// The known paths once `path` is made known.
pub open spec fn with_path(known: Seq<Seq<char>>, path: Seq<char>) -> Seq<Seq<char>> {
    if known.contains(path) {
        known
    } else {
        known.push(path)
    }
}

/// The first `MAX_CACHED_PER_DIRECTORY` entries of a directory.
pub open spec fn looked_at(entries: Seq<TreeEntry>) -> Seq<TreeEntry> {
    if entries.len() > MAX_CACHED_PER_DIRECTORY {
        entries.subrange(0, MAX_CACHED_PER_DIRECTORY as int)
    } else {
        entries
    }
}

/// The paths known once the scan at the start of a watch has gone through
/// a listing at `depth`.
pub open spec fn cached_in(listing: Listing, depth: u32, known: Seq<Seq<char>>) -> Seq<Seq<char>>
    decreases listing, 1int,
{
    match listing {
        Listing::Entries(entries) => cached_among(looked_at(entries@), depth, known),
        _ => known,
    }
}

/// The paths known once the scan has gone through `entries` and what lies
/// below them. An entry that could not be read or whose path is noise is
/// passed over; a file is made known while fewer than `MAX_CACHED_FILES`
/// are; a directory is gone into while the depth is below
/// `MAX_CACHE_DEPTH`.
pub open spec fn cached_among(entries: Seq<TreeEntry>, depth: u32, known: Seq<Seq<char>>) -> Seq<
    Seq<char>,
>
    decreases entries, 0int,
{
    if entries.len() == 0 {
        known
    } else {
        let e = entries[0];
        let rest = entries.subrange(1, entries.len() as int);
        let next = if e.failure is Some || mentions_any(e.path@, noise_patterns()) {
            known
        } else if e.is_file {
            if known.len() < MAX_CACHED_FILES {
                with_path(known, e.path@)
            } else {
                known
            }
        } else if e.is_directory && depth < MAX_CACHE_DEPTH {
            cached_in(e.children, (depth + 1) as u32, known)
        } else {
            known
        };
        cached_among(rest, depth, next)
    }
}

fn cache_listing(known: &mut KnownFiles, listing: &Listing, depth: u32, timestamp: u64)
    requires
        old(known).well_formed(),
        depth <= MAX_CACHE_DEPTH,
    ensures
        final(known).well_formed(),
        final(known).paths() == cached_in(*listing, depth, old(known).paths()),
    decreases listing, 1int,
{
    match listing {
        Listing::Entries(entries) => {
            let limit: usize = if entries.len() > MAX_CACHED_PER_DIRECTORY {
                MAX_CACHED_PER_DIRECTORY
            } else {
                entries.len()
            };
            proof {
                assert(entries@.subrange(0, limit as int) =~= looked_at(entries@));
            }
            cache_entries(known, entries, 0, limit, depth, timestamp);
        },
        _ => {},
    }
}

fn cache_entries(
    known: &mut KnownFiles,
    entries: &Vec<TreeEntry>,
    from: usize,
    limit: usize,
    depth: u32,
    timestamp: u64,
)
    requires
        old(known).well_formed(),
        from <= limit <= entries.len(),
        depth <= MAX_CACHE_DEPTH,
    ensures
        final(known).well_formed(),
        final(known).paths() == cached_among(
            entries@.subrange(from as int, limit as int),
            depth,
            old(known).paths(),
        ),
    decreases entries, 0int, limit - from,
{
    let ghost here = entries@.subrange(from as int, limit as int);
    if from >= limit {
        return ;
    }
    let e = &entries[from];
    proof {
        assert(here[0] == entries@[from as int]);
        assert(here.subrange(1, here.len() as int) =~= entries@.subrange(from + 1, limit as int));
    }
    if e.failure.is_none() && !should_ignore_path(e.path.as_str()) {
        if e.is_file {
            if known.len() < MAX_CACHED_FILES {
                known.insert(e.path.as_str(), timestamp);
            }
        } else if e.is_directory && depth < MAX_CACHE_DEPTH {
            cache_listing(known, &e.children, depth + 1, timestamp);
        }
    }
    cache_entries(known, entries, from + 1, limit, depth, timestamp);
}

/// Fills the cache with the files that exist when a watch starts. The scan
/// goes `MAX_CACHE_DEPTH` levels below the root, looks at the first
/// `MAX_CACHED_PER_DIRECTORY` entries of each directory, passes noise over,
/// and stops making files known at `MAX_CACHED_FILES`.
pub fn populate_file_cache(known: &mut KnownFiles, root: &Listing, timestamp: u64)
    requires
        old(known).well_formed(),
    ensures
        final(known).well_formed(),
        final(known).paths() == cached_in(*root, 0, old(known).paths()),
{
    cache_listing(known, root, 0, timestamp);
}

/// Filling the cache reads what lies in `e`, found at `depth`: `e` is a
/// directory that is no noise, less than `MAX_CACHE_DEPTH` levels below the
/// root.
pub fn cache_scan_descends(e: &TreeEntry, depth: u32) -> (r: bool)
    ensures
        r == (e.failure is None && !mentions_any(e.path@, noise_patterns()) && !e.is_file
            && e.is_directory && depth < MAX_CACHE_DEPTH),
{
    e.failure.is_none() && !should_ignore_path(e.path.as_str()) && !e.is_file && e.is_directory
        && depth < MAX_CACHE_DEPTH
}

/// The kind of change that a notification at a path stands for.
#[derive(Debug, Clone, Copy, PartialEq, Eq, Structural)]
pub enum ChangeKind {
    Created,
    Modified,
    Deleted,
}

/// The kind of change: a path that exists was modified if it was known and
/// created otherwise; a path that does not exist was deleted.
pub open spec fn change_kind(exists: bool, known: bool) -> ChangeKind {
    if !exists {
        ChangeKind::Deleted
    } else if known {
        ChangeKind::Modified
    } else {
        ChangeKind::Created
    }
}

/// The name of a kind of change.
pub open spec fn kind_name(kind: ChangeKind) -> Seq<char> {
    match kind {
        ChangeKind::Created => "created"@,
        ChangeKind::Modified => "modified"@,
        ChangeKind::Deleted => "deleted"@,
    }
}

/// The name of a kind of change.
pub fn change_name(kind: ChangeKind) -> (r: &'static str)
    ensures
        r@ == kind_name(kind),
{
    match kind {
        ChangeKind::Created => "created",
        ChangeKind::Modified => "modified",
        ChangeKind::Deleted => "deleted",
    }
}

/// Turns a notification that something changed at `path` into the event that
/// is reported, and brings the cache up to date. `exists` says whether the
/// path exists now. A path that is noise yields nothing and leaves the cache
/// alone. A deletion is reported only of a path that does not exist.
pub fn convert_debounced_event(
    known: &mut KnownFiles,
    path: &str,
    exists: bool,
    is_directory: bool,
    timestamp: u64,
) -> (r: Option<FileSystemEvent>)
    requires
        old(known).well_formed(),
    ensures
        final(known).well_formed(),
        mentions_any(path@, noise_patterns()) ==> r is None && final(known).paths() == old(known).paths(),
        !mentions_any(path@, noise_patterns()) ==> (r matches Some(e) && {
            &&& e.event_type@ == kind_name(change_kind(exists, old(known).knows(path@)))
            &&& e.path@ == path@
            &&& e.is_directory == is_directory
            &&& e.timestamp == timestamp
        }),
        !mentions_any(path@, noise_patterns()) ==> forall|p: Seq<char>|
            final(known).knows(p) <==> (if exists {
                old(known).knows(p) || p == path@
            } else {
                old(known).knows(p) && p != path@
            }),
        r matches Some(e) && e.event_type@ == "deleted"@ ==> !exists,
{
    if should_ignore_path(path) {
        return None;
    }
    let kind = if exists {
        if known.contains(path) {
            ChangeKind::Modified
        } else {
            known.insert(path, timestamp);
            ChangeKind::Created
        }
    } else {
        known.remove(path);
        ChangeKind::Deleted
    };
    proof {
        reveal_strlit("created");
        reveal_strlit("modified");
        reveal_strlit("deleted");
        assert("created"@ != "deleted"@) by {
            assert("created"@[0] == 'c');
            assert("deleted"@[0] == 'd');
        }
        assert("modified"@ != "deleted"@) by {
            assert("modified"@[0] == 'm');
            assert("deleted"@[0] == 'd');
        }
        if exists {
            assert forall|p: Seq<char>| known.knows(p) <==> (old(known).knows(p) || p == path@) by {
                if !old(known).knows(path@) {
                    let before = old(known).paths();
                    if known.knows(p) {
                        let k = choose|k: int| 0 <= k < known.paths().len() && known.paths()[k] == p;
                        if k < before.len() {
                            assert(before[k] == p);
                        }
                    }
                    if before.contains(p) {
                        let k = choose|k: int| 0 <= k < before.len() && before[k] == p;
                        assert(before.push(path@)[k] == p);
                    }
                    if p == path@ {
                        assert(before.push(path@)[before.len() as int] == p);
                    }
                }
            }
        }
    }
    Some(event_of(change_name(kind), path, is_directory, timestamp))
}

/// The streams an event goes to: every event to the stream of all changes, a
/// deletion to the stream of deletions as well.
pub open spec fn streams_of(event_type: Seq<char>) -> Seq<Seq<char>> {
    if event_type == "deleted"@ {
        seq!["file-deleted"@, "file-system-change"@]
    } else {
        seq!["file-system-change"@]
    }
}

/// The streams the event `e` goes to.
pub fn event_streams(e: &FileSystemEvent) -> (streams: Vec<String>)
    ensures
        string_texts(streams@) == streams_of(e.event_type@),
{
    let mut streams: Vec<String> = Vec::new();
    if str_eq(e.event_type.as_str(), "deleted") {
        streams.push(String::from_str("file-deleted"));
    }
    streams.push(String::from_str("file-system-change"));
    assert(string_texts(streams@) =~= streams_of(e.event_type@));
    streams
}

// ---------------------------------------------------------------------------
// The watched paths
// ---------------------------------------------------------------------------
/// One watch: its identifier and the path it watches.
#[derive(Debug)]
pub struct Watch {
    pub id: String,
    pub path: String,
}

/// The watches that are set up. No identifier occurs twice, and no path is
/// watched twice.
#[derive(Debug)]
pub struct WatchRegistry {
    watches: Vec<Watch>,
}

/// What is done when a watch on a path is asked for.
#[derive(Debug)]
pub enum WatchRequest {
    /// Nothing: the path is too noisy to watch. The identifier is answered
    /// as if the watch had been set up.
    Ignored(String),
    /// Nothing: the path is watched already, under this identifier.
    AlreadyWatching(String),
    /// The watch is to be set up and then recorded under this identifier.
    Start(String),
}

/// What a `WatchRequest` holds.
pub enum RequestView {
    Ignored(Seq<char>),
    AlreadyWatching(Seq<char>),
    Start(Seq<char>),
}

impl View for WatchRequest {
    type V = RequestView;

    open spec fn view(&self) -> RequestView {
        match self {
            WatchRequest::Ignored(id) => RequestView::Ignored(id@),
            WatchRequest::AlreadyWatching(id) => RequestView::AlreadyWatching(id@),
            WatchRequest::Start(id) => RequestView::Start(id@),
        }
    }
}

/// What a request to watch `path` leads to while the watches `ids` are set
/// up. The identifier of a watch is the path it watches. A path that is too
/// noisy is not watched; a path that is watched already is not watched again.
pub open spec fn request_for(ids: Seq<Seq<char>>, path: Seq<char>) -> RequestView {
    if mentions_any(path, problematic_patterns()) {
        RequestView::Ignored(path)
    } else if ids.contains(path) {
        RequestView::AlreadyWatching(path)
    } else {
        RequestView::Start(path)
    }
}

/// The identifier that a request answers.
pub open spec fn request_id(request: RequestView) -> Seq<char> {
    match request {
        RequestView::Ignored(id) => id,
        RequestView::AlreadyWatching(id) => id,
        RequestView::Start(id) => id,
    }
}

/// The watches once the watch `id` is recorded: as before where it is
/// recorded already, else with `id` behind all others.
pub open spec fn with_watch(ids: Seq<Seq<char>>, id: Seq<char>) -> Seq<Seq<char>> {
    if ids.contains(id) {
        ids
    } else {
        ids.push(id)
    }
}

/// The watches once what a request asked for is done: a watch that was to be
/// started is recorded.
pub open spec fn after_request(ids: Seq<Seq<char>>, request: RequestView) -> Seq<Seq<char>> {
    match request {
        RequestView::Start(id) => with_watch(ids, id),
        _ => ids,
    }
}

/// A text that is not among distinct texts may be put behind them: the
/// texts stay distinct.
proof fn lemma_push_keeps_distinct(texts: Seq<Seq<char>>, text: Seq<char>)
    requires
        texts.no_duplicates(),
        !texts.contains(text),
    ensures
        texts.push(text).no_duplicates(),
{
    let after = texts.push(text);
    assert forall|a: int, b: int| 0 <= a < after.len() && 0 <= b < after.len() && a
        != b implies after[a] != after[b] by {
        if a < texts.len() && b < texts.len() {
            assert(texts[a] != texts[b]);
        } else if a < texts.len() {
            assert(texts.contains(texts[a]));
        } else if b < texts.len() {
            assert(texts.contains(texts[b]));
        }
    }
}

impl WatchRegistry {
    /// The identifiers of the watches, in the order they were set up.
    pub closed spec fn ids(&self) -> Seq<Seq<char>> {
        self.watches@.map_values(|w: Watch| w.id@)
    }

    /// The watched paths, in the order the watches were set up.
    pub closed spec fn watched(&self) -> Seq<Seq<char>> {
        self.watches@.map_values(|w: Watch| w.path@)
    }

    /// No identifier occurs twice, and no path is watched twice.
    pub open spec fn well_formed(&self) -> bool {
        &&& self.ids().no_duplicates()
        &&& self.watched().no_duplicates()
        &&& self.ids().len() == self.watched().len()
    }

    /// A registry without watches.
    pub fn new() -> (r: Self)
        ensures
            r.well_formed(),
            r.ids() == Seq::<Seq<char>>::empty(),
            r.watched() == Seq::<Seq<char>>::empty(),
    {
        let r = WatchRegistry { watches: Vec::new() };
        assert(r.ids() =~= Seq::empty());
        assert(r.watched() =~= Seq::empty());
        r
    }

    fn position(&self, id: &str) -> (r: Option<usize>)
        ensures
            match r {
                Some(i) => i < self.ids().len() && self.ids()[i as int] == id@,
                None => !self.ids().contains(id@),
            },
    {
        let mut i: usize = 0;
        while i < self.watches.len()
            invariant
                i <= self.watches.len(),
                forall|k: int| 0 <= k < i ==> self.ids()[k] != id@,
            decreases self.watches.len() - i,
        {
            if str_eq(self.watches[i].id.as_str(), id) {
                return Some(i);
            }
            i += 1;
        }
        None
    }

    /// Decides what a request to watch the canonical path `path` leads to.
    /// The identifier of a watch is the path it watches.
    pub fn start_watching(&self, path: &str) -> (r: WatchRequest)
        ensures
            r@ == request_for(self.ids(), path@),
    {
        if is_problematic_directory(path) {
            WatchRequest::Ignored(String::from_str(path))
        } else if self.position(path).is_some() {
            WatchRequest::AlreadyWatching(String::from_str(path))
        } else {
            WatchRequest::Start(String::from_str(path))
        }
    }

    fn path_position(&self, path: &str) -> (r: Option<usize>)
        ensures
            match r {
                Some(i) => i < self.watched().len() && self.watched()[i as int] == path@,
                None => !self.watched().contains(path@),
            },
    {
        let mut i: usize = 0;
        while i < self.watches.len()
            invariant
                i <= self.watches.len(),
                forall|k: int| 0 <= k < i ==> self.watched()[k] != path@,
            decreases self.watches.len() - i,
        {
            if str_eq(self.watches[i].path.as_str(), path) {
                return Some(i);
            }
            i += 1;
        }
        None
    }

    /// Records that the watch `id` on `path` was set up. Where a watch is
    /// recorded under `id` already, or `path` is watched already, the
    /// registry is left as it is: no path is watched twice.
    pub fn store_watcher(&mut self, id: &str, path: &str)
        requires
            old(self).well_formed(),
        ensures
            final(self).well_formed(),
            old(self).ids().contains(id@) || old(self).watched().contains(path@) ==> final(self).ids() == old(self).ids() && final(self).watched() == old(self).watched(),
            !old(self).ids().contains(id@) && !old(self).watched().contains(path@) ==> final(self).ids() == old(self).ids().push(id@) && final(self).watched() == old(self).watched().push(path@),
            id@ == path@ && old(self).ids() == old(self).watched() ==> final(self).ids()
                == with_watch(old(self).ids(), id@) && final(self).watched() == final(self).ids(),
    {
        if self.position(id).is_some() || self.path_position(path).is_some() {
            return ;
        }
        let ghost ids = self.ids();
        let ghost watched = self.watched();
        self.watches.push(Watch { id: String::from_str(id), path: String::from_str(path) });
        proof {
            assert(self.ids() =~= ids.push(id@));
            assert(self.watched() =~= watched.push(path@));
            lemma_push_keeps_distinct(ids, id@);
            lemma_push_keeps_distinct(watched, path@);
        }
    }

    /// Forgets the watch `id` and answers the path it watched, where there
    /// was such a watch.
    pub fn stop_watching(&mut self, id: &str) -> (r: Option<String>)
        requires
            old(self).well_formed(),
        ensures
            final(self).well_formed(),
            !final(self).ids().contains(id@),
            match r {
                Some(path) => exists|i: int|
                    0 <= i < old(self).ids().len() && old(self).ids()[i] == id@ && old(self).watched()[i] == path@ && final(self).ids() == old(self).ids().remove(i)
                        && final(self).watched() == old(self).watched().remove(i),
                None => !old(self).ids().contains(id@) && final(self).ids() == old(self).ids()
                    && final(self).watched() == old(self).watched(),
            },
    {
        match self.position(id) {
            Some(i) => {
                let ghost ids = self.ids();
                let ghost watched = self.watched();
                let w = self.watches.remove(i);
                proof {
                    assert(self.ids() =~= ids.remove(i as int));
                    assert(self.watched() =~= watched.remove(i as int));
                    assert(w.path@ == watched[i as int]);
                    assert forall|k: int| 0 <= k < self.ids().len() implies self.ids()[k]
                        != id@ by {
                        if k < i {
                            assert(ids[k] != ids[i as int]);
                        } else {
                            assert(ids[k + 1] != ids[i as int]);
                        }
                    }
                    assert forall|a: int, b: int|
                        0 <= a < self.ids().len() && 0 <= b < self.ids().len() && a
                            != b implies self.ids()[a] != self.ids()[b] by {
                        let a2 = if a < i {
                            a
                        } else {
                            a + 1
                        };
                        let b2 = if b < i {
                            b
                        } else {
                            b + 1
                        };
                        assert(ids[a2] != ids[b2]);
                    }
                    assert forall|a: int, b: int|
                        0 <= a < self.watched().len() && 0 <= b < self.watched().len() && a
                            != b implies self.watched()[a] != self.watched()[b] by {
                        let a2 = if a < i {
                            a
                        } else {
                            a + 1
                        };
                        let b2 = if b < i {
                            b
                        } else {
                            b + 1
                        };
                        assert(watched[a2] != watched[b2]);
                    }
                }
                Some(w.path)
            },
            None => None,
        }
    }

    /// The watched paths, each once.
    pub fn list_watched_paths(&self) -> (paths: Vec<String>)
        ensures
            string_texts(paths@) == self.watched(),
            self.well_formed() ==> string_texts(paths@).no_duplicates(),
    {
        let mut paths: Vec<String> = Vec::new();
        let mut i: usize = 0;
        while i < self.watches.len()
            invariant
                i <= self.watches.len(),
                string_texts(paths@) == self.watched().take(i as int),
            decreases self.watches.len() - i,
        {
            let ghost old_paths = paths@;
            paths.push(self.watches[i].path.clone());
            proof {
                assert(string_texts(paths@) =~= string_texts(old_paths).push(
                    self.watched()[i as int],
                ));
                assert(self.watched().take(i as int).push(self.watched()[i as int])
                    =~= self.watched().take(i + 1));
            }
            i += 1;
        }
        proof {
            assert(self.watched().take(i as int) =~= self.watched());
        }
        paths
    }

    /// The number of watches and the number of watched paths; the two are
    /// equal.
    pub fn get_watcher_stats(&self) -> (r: (usize, usize))
        ensures
            r.0 == self.ids().len(),
            r.1 == self.watched().len(),
    {
        (self.watches.len(), self.watches.len())
    }
}

/// Asking twice for a watch on one path sets up one watch. Once what the
/// first request asked for is done, the second request answers the same
/// identifier and starts nothing, and the path is watched at most once.
pub proof fn lemma_second_request_finds_the_watch(ids: Seq<Seq<char>>, path: Seq<char>)
    requires
        ids.no_duplicates(),
    ensures
        ({
            let first = request_for(ids, path);
            let recorded = after_request(ids, first);
            let second = request_for(recorded, path);
            &&& request_id(second) == request_id(first)
            &&& !(second is Start)
            &&& after_request(recorded, second) == recorded
            &&& recorded.no_duplicates()
            &&& first is Start ==> second is AlreadyWatching && recorded == ids.push(path)
            &&& !(first is Start) ==> second == first && recorded == ids
        }),
{
    let first = request_for(ids, path);
    let recorded = after_request(ids, first);
    if first is Start {
        assert(recorded == ids.push(path));
        assert(recorded[ids.len() as int] == path);
        assert forall|a: int, b: int| 0 <= a < recorded.len() && 0 <= b < recorded.len() && a
            != b implies recorded[a] != recorded[b] by {
            if a < ids.len() && b < ids.len() {
                assert(ids[a] != ids[b]);
            } else if a < ids.len() {
                assert(ids.contains(ids[a]));
            } else if b < ids.len() {
                assert(ids.contains(ids[b]));
            }
        }
    }
}

/// The watched paths of the registry of the process, each once, or none
/// where there is no registry yet.
pub fn get_watched_paths(registry: Option<&WatchRegistry>) -> (paths: Vec<String>)
    ensures
        match registry {
            Some(r) => string_texts(paths@) == r.watched() && (r.well_formed() ==> string_texts(
                paths@,
            ).no_duplicates()),
            None => paths@.len() == 0,
        },
{
    match registry {
        Some(r) => r.list_watched_paths(),
        None => Vec::new(),
    }
}

/// The counts of the registry of the process, or zeros where there is no
/// registry yet.
pub fn get_watcher_statistics(registry: Option<&WatchRegistry>) -> (r: (usize, usize))
    ensures
        match registry {
            Some(w) => r.0 == w.ids().len() && r.1 == w.watched().len(),
            None => r == (0usize, 0usize),
        },
{
    match registry {
        Some(w) => w.get_watcher_stats(),
        None => (0, 0),
    }
}

} // verus!
