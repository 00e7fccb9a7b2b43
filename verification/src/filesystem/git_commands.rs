//! The optional Git adapter: what is answered of a repository, from what
//! the Git library reports of it.

use vstd::prelude::*;
use vstd::string::*;
use crate::errors::{AppError, AppResult, ErrorCategory};
use crate::text::{
    concat2, from_chars, has_prefix, slice_chars, str_eq, str_starts_with, strip_leading, to_chars,
};

verus! {

/// The state of one file in the index and in the working tree.
#[derive(Debug)]
pub struct GitFileStatus {
    pub path: String,
    pub index_status: String,
    pub working_tree_status: String,
}

/// What is known of a repository.
#[derive(Debug)]
pub struct GitRepositoryInfo {
    pub is_git_repo: bool,
    pub current_branch: Option<String>,
    pub remote_url: Option<String>,
    pub upstream_branch: Option<String>,
    pub ahead: i32,
    pub behind: i32,
}

/// A local branch.
#[derive(Debug)]
pub struct GitBranch {
    pub name: String,
    pub upstream: Option<String>,
    pub ahead: i32,
    pub behind: i32,
    pub is_default: bool,
    pub is_current: bool,
}

/// A commit.
#[derive(Debug)]
pub struct GitCommit {
    pub hash: String,
    pub short_hash: String,
    pub author: String,
    pub timestamp: i64,
    pub message: String,
    pub files: Vec<String>,
}

/// Number of commits that are listed where the caller names none.
pub const DEFAULT_COMMIT_LIMIT: u32 = 20;

/// Number of characters of a short hash.
pub const SHORT_HASH_LENGTH: usize = 7;

/// What the Git library says of a file.
#[derive(Debug, Clone, Copy, PartialEq, Eq, Structural)]
pub struct StatusFlags {
    pub index_new: bool,
    pub index_modified: bool,
    pub index_deleted: bool,
    pub index_renamed: bool,
    pub index_typechange: bool,
    pub wt_new: bool,
    pub wt_modified: bool,
    pub wt_deleted: bool,
    pub wt_renamed: bool,
    pub wt_typechange: bool,
    pub ignored: bool,
}

/// The letter for the state of a file in the index.
pub open spec fn index_letter(f: StatusFlags) -> Seq<char> {
    if f.index_new {
        "A"@
    } else if f.index_modified {
        "M"@
    } else if f.index_deleted {
        "D"@
    } else if f.index_renamed {
        "R"@
    } else if f.index_typechange {
        "T"@
    } else {
        " "@
    }
}

/// The letter for the state of a file in the working tree.
pub open spec fn working_tree_letter(f: StatusFlags) -> Seq<char> {
    if f.wt_new {
        "?"@
    } else if f.wt_modified {
        "M"@
    } else if f.wt_deleted {
        "D"@
    } else if f.wt_renamed {
        "R"@
    } else if f.wt_typechange {
        "T"@
    } else if f.ignored {
        "!"@
    } else {
        " "@
    }
}

/// What the Git library reports of one file.
#[derive(Debug)]
pub struct StatusEntry {
    /// The path, where it is valid UTF-8.
    pub path: Option<String>,
    pub flags: StatusFlags,
}

/// The status of the file that `e` reports.
pub open spec fn status_of(e: StatusEntry, s: GitFileStatus) -> bool {
    &&& s.path@ == (match e.path {
        Some(p) => p@,
        None => Seq::empty(),
    })
    &&& s.index_status@ == index_letter(e.flags)
    &&& s.working_tree_status@ == working_tree_letter(e.flags)
}

/// The status of every file that the Git library reports, in its order.
pub fn git_get_status(entries: &Vec<StatusEntry>) -> (r: Vec<GitFileStatus>)
    ensures
        r@.len() == entries@.len(),
        forall|i: int| 0 <= i < r@.len() ==> status_of(entries@[i], #[trigger] r@[i]),
{
    let mut r: Vec<GitFileStatus> = Vec::new();
    let mut i: usize = 0;
    while i < entries.len()
        invariant
            i <= entries.len(),
            r@.len() == i,
            forall|k: int| 0 <= k < i ==> status_of(entries@[k], #[trigger] r@[k]),
        decreases entries.len() - i,
    {
        let f = entries[i].flags;
        let index_status = if f.index_new {
            "A"
        } else if f.index_modified {
            "M"
        } else if f.index_deleted {
            "D"
        } else if f.index_renamed {
            "R"
        } else if f.index_typechange {
            "T"
        } else {
            " "
        };
        let working = if f.wt_new {
            "?"
        } else if f.wt_modified {
            "M"
        } else if f.wt_deleted {
            "D"
        } else if f.wt_renamed {
            "R"
        } else if f.wt_typechange {
            "T"
        } else if f.ignored {
            "!"
        } else {
            " "
        };
        r.push(
            GitFileStatus {
                path: match &entries[i].path {
                    Some(p) => p.clone(),
                    None => String::new(),
                },
                index_status: String::from_str(index_status),
                working_tree_status: String::from_str(working),
            },
        );
        i += 1;
    }
    r
}

/// What the Git library reports of a repository that was found.
#[derive(Debug)]
pub struct RepositoryFacts {
    pub current_branch: Option<String>,
    pub remote_url: Option<String>,
    pub upstream_branch: Option<String>,
}

/// What is known of the repository at a path: where none was found, that
/// it is none; else its branch, its remote and its upstream. How far the
/// branch is ahead or behind is not counted.
pub fn git_initialize_repo(found: Option<RepositoryFacts>) -> (r: AppResult<GitRepositoryInfo>)
    ensures
        r matches Ok(info) && info.ahead == 0 && info.behind == 0 && match found {
            Some(f) => info.is_git_repo && info.current_branch == f.current_branch
                && info.remote_url == f.remote_url && info.upstream_branch == f.upstream_branch,
            None => !info.is_git_repo && info.current_branch is None && info.remote_url is None
                && info.upstream_branch is None,
        },
{
    match found {
        Some(f) => Ok(
            GitRepositoryInfo {
                is_git_repo: true,
                current_branch: f.current_branch,
                remote_url: f.remote_url,
                upstream_branch: f.upstream_branch,
                ahead: 0,
                behind: 0,
            },
        ),
        None => Ok(
            GitRepositoryInfo {
                is_git_repo: false,
                current_branch: None,
                remote_url: None,
                upstream_branch: None,
                ahead: 0,
                behind: 0,
            },
        ),
    }
}

/// What the Git library reports of a local branch.
#[derive(Debug)]
pub struct BranchFacts {
    pub name: String,
    pub upstream: Option<String>,
}

/// The branch `b` is the report `f` as seen from the branch `current`.
pub open spec fn branch_of_facts(f: BranchFacts, current: Option<Seq<char>>, b: GitBranch) -> bool {
    &&& b.name@ == f.name@
    &&& crate::errors::opt_text(b.upstream) == crate::errors::opt_text(f.upstream)
    &&& b.ahead == 0
    &&& b.behind == 0
    &&& b.is_default == (f.name@ == "main"@ || f.name@ == "master"@)
    &&& b.is_current == (current == Some(f.name@))
}

/// The local branches, in the order the Git library reports them. The
/// branches `main` and `master` are default branches.
pub fn git_get_branches(current: Option<&str>, branches: &Vec<BranchFacts>) -> (r: Vec<GitBranch>)
    ensures
        r@.len() == branches@.len(),
        forall|i: int|
            0 <= i < r@.len() ==> branch_of_facts(
                branches@[i],
                match current {
                    Some(c) => Some(c@),
                    None => None,
                },
                #[trigger] r@[i],
            ),
{
    let mut r: Vec<GitBranch> = Vec::new();
    let mut i: usize = 0;
    while i < branches.len()
        invariant
            i <= branches.len(),
            r@.len() == i,
            forall|k: int|
                0 <= k < i ==> branch_of_facts(
                    branches@[k],
                    match current {
                        Some(c) => Some(c@),
                        None => None,
                    },
                    #[trigger] r@[k],
                ),
        decreases branches.len() - i,
    {
        let name = branches[i].name.as_str();
        r.push(
            GitBranch {
                name: String::from_str(name),
                upstream: match &branches[i].upstream {
                    Some(u) => Some(u.clone()),
                    None => None,
                },
                ahead: 0,
                behind: 0,
                is_default: str_eq(name, "main") || str_eq(name, "master"),
                is_current: match current {
                    Some(c) => str_eq(c, name),
                    None => false,
                },
            },
        );
        i += 1;
    }
    r
}

/// The path of a file as the repository sees it: what follows the path of
/// the repository, without the slashes it begins with, where the path of
/// the file begins with that of the repository; else the path as it is.
pub open spec fn repository_relative(repository_path: Seq<char>, file_path: Seq<char>) -> Seq<char> {
    if has_prefix(file_path, repository_path) {
        strip_leading(file_path.skip(repository_path.len() as int), '/')
    } else {
        file_path
    }
}

/// The path of a file as the repository sees it.
pub fn relative_path(repository_path: &str, file_path: &str) -> (r: String)
    ensures
        r@ == repository_relative(repository_path@, file_path@),
{
    if !str_starts_with(file_path, repository_path) {
        return String::from_str(file_path);
    }
    let file = to_chars(file_path);
    let repository = to_chars(repository_path);
    let mut i: usize = repository.len();
    proof {
        assert(file@.skip(i as int) =~= file@.skip(repository@.len() as int));
    }
    while i < file.len() && file[i] == '/'
        invariant
            repository.len() <= i <= file.len(),
            strip_leading(file@.skip(repository@.len() as int), '/') == strip_leading(
                file@.skip(i as int),
                '/',
            ),
        decreases file.len() - i,
    {
        proof {
            assert(file@.skip(i as int).drop_first() =~= file@.skip(i + 1));
        }
        i += 1;
    }
    let rest = slice_chars(&file, i, file.len());
    proof {
        assert(file@.subrange(i as int, file.len() as int) =~= file@.skip(i as int));
    }
    from_chars(&rest)
}

/// What the Git library reports of a commit.
#[derive(Debug)]
pub struct CommitFacts {
    /// The identifier of the commit in hexadecimal digits.
    pub hash: String,
    pub author: Option<String>,
    pub timestamp: i64,
    pub message: Option<String>,
}

/// The first `SHORT_HASH_LENGTH` characters of a hash, or all where it has
/// fewer.
pub open spec fn short_hash(hash: Seq<char>) -> Seq<char> {
    if hash.len() > SHORT_HASH_LENGTH {
        hash.take(SHORT_HASH_LENGTH as int)
    } else {
        hash
    }
}

/// The commit `c` is the report `f`.
pub open spec fn commit_of_facts(f: CommitFacts, c: GitCommit) -> bool {
    &&& c.hash@ == f.hash@
    &&& c.short_hash@ == short_hash(f.hash@)
    &&& c.author@ == (match f.author {
        Some(a) => a@,
        None => "Unknown"@,
    })
    &&& c.timestamp == f.timestamp
    &&& c.message@ == (match f.message {
        Some(m) => m@,
        None => Seq::empty(),
    })
    &&& c.files@.len() == 0
}

/// The number of commits that are listed.
pub open spec fn commit_limit(limit: Option<u32>) -> nat {
    match limit {
        Some(l) => l as nat,
        None => DEFAULT_COMMIT_LIMIT as nat,
    }
}

/// The history of a repository: the first `limit` (by default 20) of the
/// commits that the walk of the history reports, in its order. The files
/// of a commit are not listed.
pub fn git_get_commits(history: &Vec<CommitFacts>, limit: Option<u32>) -> (r: Vec<GitCommit>)
    ensures
        r@.len() == (if history@.len() < commit_limit(limit) {
            history@.len()
        } else {
            commit_limit(limit)
        }),
        forall|i: int| 0 <= i < r@.len() ==> commit_of_facts(history@[i], #[trigger] r@[i]),
{
    let cap: usize = match limit {
        Some(l) => l as usize,
        None => DEFAULT_COMMIT_LIMIT as usize,
    };
    let n: usize = if history.len() < cap {
        history.len()
    } else {
        cap
    };
    let mut r: Vec<GitCommit> = Vec::new();
    let mut i: usize = 0;
    while i < n
        invariant
            i <= n <= history.len(),
            r@.len() == i,
            forall|k: int| 0 <= k < i ==> commit_of_facts(history@[k], #[trigger] r@[k]),
        decreases n - i,
    {
        let f = &history[i];
        let hash = to_chars(f.hash.as_str());
        let short = if hash.len() > SHORT_HASH_LENGTH {
            let s = slice_chars(&hash, 0, SHORT_HASH_LENGTH);
            proof {
                assert(hash@.subrange(0, SHORT_HASH_LENGTH as int) =~= hash@.take(
                    SHORT_HASH_LENGTH as int,
                ));
            }
            from_chars(&s)
        } else {
            f.hash.clone()
        };
        r.push(
            GitCommit {
                hash: f.hash.clone(),
                short_hash: short,
                author: match &f.author {
                    Some(a) => a.clone(),
                    None => String::from_str("Unknown"),
                },
                timestamp: f.timestamp,
                message: match &f.message {
                    Some(m) => m.clone(),
                    None => String::new(),
                },
                files: Vec::new(),
            },
        );
        i += 1;
    }
    r
}

/// One line of a difference: its origin and, where it is valid UTF-8, its
/// text.
#[derive(Debug)]
pub struct DiffLine {
    pub origin: char,
    pub content: Option<String>,
}

/// The text of a difference: each added, removed or unchanged line with
/// its origin before it; other lines are left out.
pub open spec fn diff_text(lines: Seq<DiffLine>) -> Seq<char>
    decreases lines.len(),
{
    if lines.len() == 0 {
        Seq::empty()
    } else {
        let line = lines.last();
        let earlier = diff_text(lines.drop_last());
        if line.origin == '+' || line.origin == '-' || line.origin == ' ' {
            earlier.push(line.origin) + (match line.content {
                Some(c) => c@,
                None => Seq::empty(),
            })
        } else {
            earlier
        }
    }
}

/// Writes the text of a difference.
pub fn git_get_diff(lines: &Vec<DiffLine>) -> (r: String)
    ensures
        r@ == diff_text(lines@),
{
    let mut out: Vec<char> = Vec::new();
    let mut i: usize = 0;
    proof {
        assert(lines@.take(0) =~= Seq::empty());
    }
    while i < lines.len()
        invariant
            i <= lines.len(),
            out@ == diff_text(lines@.take(i as int)),
        decreases lines.len() - i,
    {
        proof {
            assert(lines@.take(i + 1).drop_last() =~= lines@.take(i as int));
        }
        let origin = lines[i].origin;
        if origin == '+' || origin == '-' || origin == ' ' {
            out.push(origin);
            if let Some(c) = &lines[i].content {
                let mut text = to_chars(c.as_str());
                out.append(&mut text);
            } else {
                assert(out@ + Seq::<char>::empty() =~= out@);
            }
        }
        i += 1;
    }
    proof {
        assert(lines@.take(i as int) =~= lines@);
    }
    from_chars(&out)
}

/// The failure of a step of a Git operation: an internal failure with the
/// code of the step, whose message says what failed and why, and whose
/// source is `git`.
pub fn git_error(code: &str, what: &str, why: &str) -> (e: AppError)
    ensures
        e.is(ErrorCategory::Internal, code@, what@ + why@, Some("git"@)),
{
    AppError::Internal {
        code: String::from_str(code),
        message: concat2(what, why),
        source: Some(String::from_str("git")),
    }
}

} // verus!
