//! Project-wide search: how a query becomes a pattern, which files are
//! selected, how the matches of a line are reported, and where a search stops.

use vstd::prelude::*;
use vstd::string::*;
use crate::errors::{AppError, ErrorCategory, rendered};
use crate::text::{
    concat2, concat3, from_chars, has_substring, lines_of, split_lines, str_contains,
    str_eq, string_texts, texts, to_chars, trim, trim_chars,
};
use crate::types::TauriResult;

verus! {

/// Most matches reported of one file.
pub const MAX_MATCHES_PER_FILE: usize = 20;

/// Number of matches after which a bulk search stops.
pub const MAX_BULK_MATCHES: u32 = 10_000;

/// Number of matches after which a streaming search stops where the caller
/// names none.
pub const DEFAULT_MAX_RESULTS: u32 = 1000;

/// Largest file that is searched, in bytes (1 MiB).
pub const MAX_SEARCHED_FILE_SIZE: u64 = 1_048_576;

/// Depth of the walk of a search.
pub const SEARCH_WALK_DEPTH: usize = 20;

/// How a query is to be understood and which files are searched.
#[derive(Debug)]
pub struct SearchOptions {
    pub case_sensitive: bool,
    pub whole_word: bool,
    pub use_regex: bool,
    /// Dotted extensions; where any is given, only such files are searched.
    pub include_file_types: Vec<String>,
    /// Dotted extensions of files that are not searched.
    pub exclude_file_types: Vec<String>,
    /// Texts that the directory of a searched file may not contain.
    pub exclude_directories: Vec<String>,
}

/// One match: where it stands and the line it stands in.
#[derive(Debug)]
pub struct SearchMatch {
    pub file: String,
    /// Line number, from 1.
    pub line: u32,
    /// Column of the first byte of the match, from 1.
    pub column: u32,
    /// The whole line.
    pub text: String,
    /// Byte offset of the match in the line.
    pub match_start: u32,
    /// Byte offset behind the match in the line.
    pub match_end: u32,
}

/// What a `SearchMatch` holds.
pub struct MatchRecord {
    pub file: Seq<char>,
    pub line: u32,
    pub column: u32,
    pub text: Seq<char>,
    pub match_start: u32,
    pub match_end: u32,
}

impl View for SearchMatch {
    type V = MatchRecord;

    open spec fn view(&self) -> MatchRecord {
        MatchRecord {
            file: self.file@,
            line: self.line,
            column: self.column,
            text: self.text@,
            match_start: self.match_start,
            match_end: self.match_end,
        }
    }
}

/// The records that a vector of matches holds, in order.
pub open spec fn match_records(v: Seq<SearchMatch>) -> Seq<MatchRecord> {
    v.map_values(|m: SearchMatch| m@)
}

/// The matches of one file.
#[derive(Debug)]
pub struct SearchResult {
    pub file: String,
    pub matches: Vec<SearchMatch>,
    pub total_matches: u32,
}

/// What a `SearchResult` holds.
pub struct ResultRecord {
    pub file: Seq<char>,
    pub matches: Seq<MatchRecord>,
    pub total_matches: u32,
}

impl View for SearchResult {
    type V = ResultRecord;

    open spec fn view(&self) -> ResultRecord {
        ResultRecord {
            file: self.file@,
            matches: match_records(self.matches@),
            total_matches: self.total_matches,
        }
    }
}

/// The records that a vector of results holds, in order.
pub open spec fn result_records(v: Seq<SearchResult>) -> Seq<ResultRecord> {
    v.map_values(|r: SearchResult| r@)
}

/// The outcome of a search.
#[derive(Debug)]
pub struct SearchData {
    pub results: Vec<SearchResult>,
    pub total_matches: u32,
    pub files_searched: u32,
    pub total_files: u32,
}

/// What a `SearchData` holds.
pub struct SearchTotals {
    pub results: Seq<ResultRecord>,
    pub total_matches: u32,
    pub files_searched: u32,
    pub total_files: u32,
}

impl View for SearchData {
    type V = SearchTotals;

    open spec fn view(&self) -> SearchTotals {
        SearchTotals {
            results: result_records(self.results@),
            total_matches: self.total_matches,
            files_searched: self.files_searched,
            total_files: self.total_files,
        }
    }
}

// ---------------------------------------------------------------------------
// The pattern
// ---------------------------------------------------------------------------
/// `c` has a meaning of its own in a pattern.
pub open spec fn is_meta_character(c: char) -> bool {
    ||| c == '\\'
    ||| c == '.'
    ||| c == '+'
    ||| c == '*'
    ||| c == '?'
    ||| c == '('
    ||| c == ')'
    ||| c == '|'
    ||| c == '['
    ||| c == ']'
    ||| c == '{'
    ||| c == '}'
    ||| c == '^'
    ||| c == '$'
    ||| c == '#'
    ||| c == '&'
    ||| c == '-'
    ||| c == '~'
}

/// `text` with a backslash before each character that has a meaning of its own
/// in a pattern.
pub open spec fn escaped(text: Seq<char>) -> Seq<char>
    decreases text.len(),
{
    if text.len() == 0 {
        Seq::empty()
    } else if is_meta_character(text.last()) {
        escaped(text.drop_last()).push('\\').push(text.last())
    } else {
        escaped(text.drop_last()).push(text.last())
    }
}

/// What compiling `pattern` fails with: nothing where it compiles, else the
/// text of the failure.
pub uninterp spec fn compile_failure(pattern: Seq<char>) -> Option<Seq<char>>;

/// The matches of `pattern` in `haystack`, each by the byte offsets of its
/// start and its end, in the order they are found.
pub uninterp spec fn match_spans(pattern: Seq<char>, haystack: Seq<char>) -> Seq<(usize, usize)>;

/// Spans lie in a text of `len` bytes, none before its predecessor's end and
/// none ending before it starts.
pub open spec fn spans_in_order(spans: Seq<(usize, usize)>, len: nat) -> bool {
    &&& forall|i: int| 0 <= i < spans.len() ==> (#[trigger] spans[i]).0 <= spans[i].1 <= len
    &&& forall|i: int, j: int|
        0 <= i < j < spans.len() ==> (#[trigger] spans[i]).1 <= (#[trigger] spans[j]).0
}

/// A pattern that compiled. It is made by `compile_pattern` alone, which
/// keeps the text it was compiled from beside the compiled form.
#[derive(Debug)]
pub struct CompiledPattern {
    source: String,
    regex: regex::Regex,
}

#[verifier::external_type_specification]
#[verifier::external_body]
pub struct ExRegex(regex::Regex);

impl View for CompiledPattern {
    type V = Seq<char>;

    closed spec fn view(&self) -> Seq<char> {
        self.source@
    }
}

/// Calls `regex::escape`, which copies `text` and puts a backslash before
/// each of the characters `\ . + * ? ( ) | [ ] { } ^ $ # & - ~`.
#[verifier::external_body]
fn escape_text(text: &str) -> (r: String)
    ensures
        r@ == escaped(text@),
{
    regex::escape(text)
}

/// Calls `regex::Regex::new`. Whether a pattern compiles, and the text of the
/// failure where it does not, depend on the pattern alone; a compiled pattern
/// remembers the text it came from.
#[verifier::external_body]
fn compile_pattern(pattern: &str) -> (r: Result<CompiledPattern, String>)
    ensures
        match r {
            Ok(c) => compile_failure(pattern@) is None && c@ == pattern@,
            Err(e) => compile_failure(pattern@) == Some(e@),
        },
{
    match regex::Regex::new(pattern) {
        Ok(regex) => Ok(CompiledPattern { source: pattern.to_string(), regex }),
        Err(e) => Err(e.to_string()),
    }
}

/// Calls `regex::Regex::find_iter` and lists the byte offsets of each match.
/// The matches depend on the pattern and the haystack alone. They are
/// successive and do not overlap, each starts no later than it ends, and all
/// lie inside the haystack.
#[verifier::external_body]
fn find_spans(pattern: &CompiledPattern, haystack: &str) -> (r: Vec<(usize, usize)>)
    ensures
        r@ == match_spans(pattern@, haystack@),
        spans_in_order(r@, haystack.spec_bytes().len()),
{
    pattern.regex.find_iter(haystack).map(|m| (m.start(), m.end())).collect()
}

/// The text of the pattern that stands for `query`: the query itself where it
/// is a regular expression; otherwise the escaped query, between word
/// boundaries for a whole-word search, after the flag `(?i)` unless the
/// search is case sensitive.
pub open spec fn pattern_text(
    query: Seq<char>,
    case_sensitive: bool,
    whole_word: bool,
    use_regex: bool,
) -> Seq<char> {
    if use_regex {
        query
    } else {
        let body = if whole_word {
            "\\b"@ + escaped(query) + "\\b"@
        } else {
            escaped(query)
        };
        if case_sensitive {
            body
        } else {
            "(?i)"@ + body
        }
    }
}

/// What is said before the failure text where a pattern does not compile.
pub open spec fn compile_failure_prefix(use_regex: bool) -> Seq<char> {
    if use_regex {
        "Invalid regex: "@
    } else {
        "Failed to create search regex: "@
    }
}

/// The text of the pattern that stands for `query` under `options`.
pub fn search_pattern_text(query: &str, options: &SearchOptions) -> (r: String)
    ensures
        r@ == pattern_text(
            query@,
            options.case_sensitive,
            options.whole_word,
            options.use_regex,
        ),
{
    if options.use_regex {
        String::from_str(query)
    } else {
        let quoted = escape_text(query);
        let body = if options.whole_word {
            concat3("\\b", quoted.as_str(), "\\b")
        } else {
            quoted
        };
        if options.case_sensitive {
            body
        } else {
            concat2("(?i)", body.as_str())
        }
    }
}

/// Compiles the pattern that stands for `query` under `options`. It fails
/// exactly where that pattern does not compile, with the failure text behind
/// "Invalid regex: " for a regular expression and behind "Failed to create
/// search regex: " otherwise.
pub fn build_search_regex(query: &str, options: &SearchOptions) -> (r: Result<
    CompiledPattern,
    String,
>)
    ensures
        ({
            let text = pattern_text(
                query@,
                options.case_sensitive,
                options.whole_word,
                options.use_regex,
            );
            match r {
                Ok(c) => compile_failure(text) is None && c@ == text,
                Err(e) => compile_failure(text) matches Some(why) && e@ == compile_failure_prefix(
                    options.use_regex,
                ) + why,
            }
        }),
{
    let text = search_pattern_text(query, options);
    match compile_pattern(text.as_str()) {
        Ok(c) => Ok(c),
        Err(why) => {
            if options.use_regex {
                Err(concat2("Invalid regex: ", why.as_str()))
            } else {
                Err(concat2("Failed to create search regex: ", why.as_str()))
            }
        },
    }
}

// ---------------------------------------------------------------------------
// The matches of a text
// ---------------------------------------------------------------------------
/// `n` as a 32-bit number, the largest one where `n` does not fit.
pub open spec fn clamp_u32(n: nat) -> u32 {
    if n > u32::MAX {
        u32::MAX
    } else {
        n as u32
    }
}

/// Converts to 32 bits, to the largest number where `n` does not fit.
pub fn to_u32(n: usize) -> (r: u32)
    ensures
        r == clamp_u32(n as nat),
{
    if n > u32::MAX as usize {
        u32::MAX
    } else {
        n as u32
    }
}

/// The report of the match `span` in line number `line_no` of `file`.
pub open spec fn match_record(
    file: Seq<char>,
    line_no: nat,
    text: Seq<char>,
    span: (usize, usize),
) -> MatchRecord {
    MatchRecord {
        file,
        line: clamp_u32(line_no),
        column: clamp_u32(span.0 as nat + 1),
        text,
        match_start: clamp_u32(span.0 as nat),
        match_end: clamp_u32(span.1 as nat),
    }
}

/// The reports of the first `room` of the matches `spans` of a line.
pub open spec fn line_records(
    file: Seq<char>,
    line_no: nat,
    text: Seq<char>,
    spans: Seq<(usize, usize)>,
    room: nat,
) -> Seq<MatchRecord> {
    Seq::new(
        if spans.len() < room {
            spans.len()
        } else {
            room
        },
        |i: int| match_record(file, line_no, text, spans[i]),
    )
}

/// The match lies in a line numbered from 1, at a column from 1, ends no
/// earlier than it starts, and ends inside the text of its line.
pub open spec fn is_sound(m: MatchRecord) -> bool {
    &&& m.line >= 1
    &&& m.column >= 1
    &&& m.match_start <= m.match_end
    &&& m.match_end <= vstd::utf8::encode_utf8(m.text).len()
}

/// Every one of the matches is sound.
pub open spec fn all_sound(matches: Seq<MatchRecord>) -> bool {
    forall|i: int| 0 <= i < matches.len() ==> is_sound(#[trigger] matches[i])
}

/// The match `a` stands before the match `b` in reading order: in no later
/// line, and where both stand in one line, `a` ends no later than `b` starts.
/// A line number that has reached the largest 32-bit number no longer tells
/// lines apart.
pub open spec fn reads_before(a: MatchRecord, b: MatchRecord) -> bool {
    &&& a.line <= b.line
    &&& a.line == b.line && b.line < u32::MAX ==> a.match_end <= b.match_start
}

/// The matches stand in reading order: line by line, and in a line from left
/// to right without overlap.
pub open spec fn in_reading_order(matches: Seq<MatchRecord>) -> bool {
    forall|i: int, j: int|
        0 <= i < j < matches.len() ==> reads_before(#[trigger] matches[i], #[trigger] matches[j])
}

/// The matches of every file are sound and stand in reading order.
pub open spec fn results_sound(results: Seq<ResultRecord>) -> bool {
    forall|i: int|
        0 <= i < results.len() ==> all_sound((#[trigger] results[i]).matches) && in_reading_order(
            results[i].matches,
        )
}

/// Reports the first `room` of the matches `spans` found in line number
/// `line_no` of `file`: the line and column from 1, the column and both
/// offsets counted in bytes.
pub fn line_matches(
    file: &str,
    line_no: usize,
    text: &str,
    spans: &Vec<(usize, usize)>,
    room: usize,
) -> (r: Vec<SearchMatch>)
    ensures
        match_records(r@) == line_records(file@, line_no as nat, text@, spans@, room as nat),
        line_no >= 1 && spans_in_order(spans@, text.spec_bytes().len()) ==> all_sound(
            match_records(r@),
        ),
        spans_in_order(spans@, text.spec_bytes().len()) ==> in_reading_order(match_records(r@)),
{
    let mut r: Vec<SearchMatch> = Vec::new();
    let n: usize = if spans.len() < room {
        spans.len()
    } else {
        room
    };
    let mut i: usize = 0;
    while i < n
        invariant
            i <= n <= spans.len(),
            n <= room,
            n == (if spans.len() < room {
                spans.len()
            } else {
                room
            }),
            match_records(r@).len() == i,
            forall|k: int|
                0 <= k < i ==> (#[trigger] match_records(r@)[k]) == match_record(
                    file@,
                    line_no as nat,
                    text@,
                    spans@[k],
                ),
        decreases n - i,
    {
        let span = spans[i];
        let column: u32 = if span.0 >= u32::MAX as usize {
            u32::MAX
        } else {
            (span.0 + 1) as u32
        };
        let m = SearchMatch {
            file: String::from_str(file),
            line: to_u32(line_no),
            column,
            text: String::from_str(text),
            match_start: to_u32(span.0),
            match_end: to_u32(span.1),
        };
        let ghost old_r = r@;
        r.push(m);
        proof {
            assert(match_records(r@) =~= match_records(old_r).push(m@));
        }
        i += 1;
    }
    proof {
        assert(match_records(r@) =~= line_records(
            file@,
            line_no as nat,
            text@,
            spans@,
            room as nat,
        ));
        if spans_in_order(spans@, text.spec_bytes().len()) {
            assert forall|a: int, b: int| 0 <= a < b < match_records(r@).len() implies reads_before(
                #[trigger] match_records(r@)[a],
                #[trigger] match_records(r@)[b],
            ) by {
                assert(spans@[a].1 <= spans@[b].0);
            }
        }
        if line_no >= 1 && spans_in_order(spans@, text.spec_bytes().len()) {
            assert forall|k: int| 0 <= k < match_records(r@).len() implies is_sound(
                #[trigger] match_records(r@)[k],
            ) by {
                lemma_line_records_are_sound(
                    file@,
                    line_no as nat,
                    text@,
                    spans@,
                    room as nat,
                    text.spec_bytes().len(),
                    k,
                );
            }
        }
    }
    r
}

/// The reports of the matches of `pattern` in the lines `lines` of `file`,
/// at most `MAX_MATCHES_PER_FILE` of them: line by line, and in a line from
/// left to right.
pub open spec fn content_records(file: Seq<char>, lines: Seq<Seq<char>>, pattern: Seq<char>) -> Seq<
    MatchRecord,
>
    decreases lines.len(),
{
    if lines.len() == 0 {
        Seq::empty()
    } else {
        let earlier = content_records(file, lines.drop_last(), pattern);
        earlier + line_records(
            file,
            lines.len(),
            lines.last(),
            match_spans(pattern, lines.last()),
            (MAX_MATCHES_PER_FILE - earlier.len()) as nat,
        )
    }
}

/// No more than `MAX_MATCHES_PER_FILE` matches are reported of a file.
pub proof fn lemma_content_records_bounded(file: Seq<char>, lines: Seq<Seq<char>>, pattern: Seq<char>)
    ensures
        content_records(file, lines, pattern).len() <= MAX_MATCHES_PER_FILE,
    decreases lines.len(),
{
    if lines.len() != 0 {
        lemma_content_records_bounded(file, lines.drop_last(), pattern);
    }
}

/// Once a file has its `MAX_MATCHES_PER_FILE` matches, further lines add none.
pub proof fn lemma_full_content_ignores_rest(
    file: Seq<char>,
    lines: Seq<Seq<char>>,
    pattern: Seq<char>,
    seen: int,
)
    requires
        0 <= seen <= lines.len(),
        content_records(file, lines.take(seen), pattern).len() >= MAX_MATCHES_PER_FILE,
    ensures
        content_records(file, lines, pattern) == content_records(file, lines.take(seen), pattern),
    decreases lines.len() - seen,
{
    if seen == lines.len() {
        assert(lines.take(seen) =~= lines);
    } else {
        assert(lines.drop_last().take(seen) =~= lines.take(seen));
        lemma_full_content_ignores_rest(file, lines.drop_last(), pattern, seen);
        lemma_content_records_bounded(file, lines.take(seen), pattern);
        let earlier = content_records(file, lines.drop_last(), pattern);
        assert(line_records(
            file,
            lines.len(),
            lines.last(),
            match_spans(pattern, lines.last()),
            (MAX_MATCHES_PER_FILE - earlier.len()) as nat,
        ) =~= Seq::empty());
        assert(earlier + Seq::<MatchRecord>::empty() =~= earlier);
    }
}

/// Searches the text `content` of the file `path` line by line and reports
/// its first `MAX_MATCHES_PER_FILE` matches.
pub fn search_in_content(content: &str, pattern: &CompiledPattern, path: &str) -> (r: Vec<
    SearchMatch,
>)
    ensures
        match_records(r@) == content_records(path@, lines_of(content@), pattern@),
        all_sound(match_records(r@)),
        in_reading_order(match_records(r@)),
{
    let chars = to_chars(content);
    let lines = split_lines(&chars);
    let mut r: Vec<SearchMatch> = Vec::new();
    let mut i: usize = 0;
    proof {
        assert(texts(lines@).take(0) =~= Seq::empty());
        assert(match_records(r@) =~= Seq::empty());
    }
    while i < lines.len() && r.len() < MAX_MATCHES_PER_FILE
        invariant
            i <= lines.len(),
            texts(lines@) == lines_of(content@),
            match_records(r@) == content_records(path@, texts(lines@).take(i as int), pattern@),
            all_sound(match_records(r@)),
            in_reading_order(match_records(r@)),
            forall|k: int|
                0 <= k < match_records(r@).len() ==> (#[trigger] match_records(r@)[k]).line
                    <= clamp_u32(i as nat),
        decreases lines.len() - i,
    {
        let line = from_chars(&lines[i]);
        let spans = find_spans(pattern, line.as_str());
        let room: usize = MAX_MATCHES_PER_FILE - r.len();
        let mut found = line_matches(path, i + 1, line.as_str(), &spans, room);
        proof {
            let now = texts(lines@).take(i + 1);
            assert(now.drop_last() =~= texts(lines@).take(i as int));
            assert(now.last() == line@);
            assert(match_records(r@ + found@) =~= match_records(r@) + match_records(found@));
            assert(all_sound(match_records(found@)));
            assert forall|k: int| 0 <= k < match_records(r@ + found@).len() implies is_sound(
                #[trigger] match_records(r@ + found@)[k],
            ) by {
                if k < r@.len() {
                    assert(match_records(r@ + found@)[k] == match_records(r@)[k]);
                } else {
                    assert(match_records(r@ + found@)[k] == match_records(found@)[k - r@.len()]);
                }
            }
            let all = match_records(r@ + found@);
            assert forall|k: int| 0 <= k < all.len() implies (#[trigger] all[k]).line <= clamp_u32(
                (i + 1) as nat,
            ) by {
                if k < r@.len() {
                    assert(all[k] == match_records(r@)[k]);
                } else {
                    assert(all[k] == match_records(found@)[k - r@.len()]);
                }
            }
            assert forall|a: int, b: int| 0 <= a < b < all.len() implies reads_before(
                #[trigger] all[a],
                #[trigger] all[b],
            ) by {
                if b < r@.len() {
                    assert(all[a] == match_records(r@)[a]);
                    assert(all[b] == match_records(r@)[b]);
                } else if a < r@.len() {
                    assert(all[a] == match_records(r@)[a]);
                    assert(all[b] == match_records(found@)[b - r@.len()]);
                    assert(all[b].line == clamp_u32((i + 1) as nat));
                } else {
                    assert(all[a] == match_records(found@)[a - r@.len()]);
                    assert(all[b] == match_records(found@)[b - r@.len()]);
                }
            }
        }
        r.append(&mut found);
        i += 1;
    }
    proof {
        if i < lines.len() {
            lemma_full_content_ignores_rest(path@, texts(lines@), pattern@, i as int);
        } else {
            assert(texts(lines@).take(i as int) =~= texts(lines@));
        }
    }
    r
}

/// Every reported match stands in a line numbered from 1, at a column from 1,
/// ends no earlier than it starts, and ends inside its line.
pub proof fn lemma_line_records_are_sound(
    file: Seq<char>,
    line_no: nat,
    text: Seq<char>,
    spans: Seq<(usize, usize)>,
    room: nat,
    len: nat,
    i: int,
)
    requires
        line_no >= 1,
        spans_in_order(spans, len),
        0 <= i < line_records(file, line_no, text, spans, room).len(),
    ensures
        ({
            let m = line_records(file, line_no, text, spans, room)[i];
            &&& m.line >= 1
            &&& m.column >= 1
            &&& m.match_start <= m.match_end
            &&& m.match_end <= len
            &&& m.text == text
            &&& spans[i].0 < spans[i].1 && spans[i].1 <= u32::MAX ==> m.match_start < m.match_end
        }),
{
}

// ---------------------------------------------------------------------------
// The selection of files
// ---------------------------------------------------------------------------
/// One of `needles` occurs in `text`.
pub open spec fn has_any_substring(text: Seq<char>, needles: Seq<Seq<char>>) -> bool {
    exists|i: int| 0 <= i < needles.len() && has_substring(text, #[trigger] needles[i])
}

/// A file in the directory `parent` and with the extension `extension` is
/// searched: no excluded text occurs in the directory; where included types
/// are given, the file has an extension whose dotted form is among them; and
/// the dotted form of its extension is not among the excluded types. So a
/// file without an extension is searched only where no included types are
/// given.
pub open spec fn type_allowed(
    parent: Option<Seq<char>>,
    extension: Option<Seq<char>>,
    include_types: Seq<Seq<char>>,
    exclude_types: Seq<Seq<char>>,
    exclude_dirs: Seq<Seq<char>>,
) -> bool {
    &&& parent matches Some(p) ==> !has_any_substring(p, exclude_dirs)
    &&& include_types.len() == 0 || (extension matches Some(x) && include_types.contains(
        seq!['.'] + x,
    ))
    &&& extension matches Some(x) ==> !exclude_types.contains(seq!['.'] + x)
}

/// Decides whether one of `needles` occurs in `text`.
pub fn contains_any(text: &str, needles: &Vec<String>) -> (r: bool)
    ensures
        r == has_any_substring(text@, string_texts(needles@)),
{
    let mut i: usize = 0;
    while i < needles.len()
        invariant
            i <= needles.len(),
            forall|k: int| 0 <= k < i ==> !has_substring(text@, #[trigger] string_texts(needles@)[k]),
        decreases needles.len() - i,
    {
        if str_contains(text, needles[i].as_str()) {
            assert(string_texts(needles@)[i as int] == needles@[i as int]@);
            return true;
        }
        assert(string_texts(needles@)[i as int] == needles@[i as int]@);
        i += 1;
    }
    false
}

/// Decides whether `text` is among `list`.
pub fn list_contains(list: &Vec<String>, text: &str) -> (r: bool)
    ensures
        r == string_texts(list@).contains(text@),
{
    let mut i: usize = 0;
    while i < list.len()
        invariant
            i <= list.len(),
            forall|k: int| 0 <= k < i ==> (#[trigger] string_texts(list@)[k]) != text@,
        decreases list.len() - i,
    {
        if str_eq(list[i].as_str(), text) {
            assert(string_texts(list@)[i as int] == text@);
            return true;
        }
        assert(string_texts(list@)[i as int] == list@[i as int]@);
        i += 1;
    }
    false
}

/// Decides whether a file is searched, from the directory it lies in and its
/// extension.
pub fn is_file_type_allowed(
    parent: Option<&str>,
    extension: Option<&str>,
    include_types: &Vec<String>,
    exclude_types: &Vec<String>,
    exclude_dirs: &Vec<String>,
) -> (r: bool)
    ensures
        r == type_allowed(
            match parent {
                Some(p) => Some(p@),
                None => None,
            },
            match extension {
                Some(x) => Some(x@),
                None => None,
            },
            string_texts(include_types@),
            string_texts(exclude_types@),
            string_texts(exclude_dirs@),
        ),
{
    if let Some(p) = parent {
        if contains_any(p, exclude_dirs) {
            return false;
        }
    }
    match extension {
        Some(x) => {
            let dotted = concat2(".", x);
            proof {
                reveal_strlit(".");
                assert("."@ =~= seq!['.']);
            }
            if include_types.len() != 0 && !list_contains(include_types, dotted.as_str()) {
                return false;
            }
            !list_contains(exclude_types, dotted.as_str())
        },
        None => include_types.len() == 0,
    }
}

/// The same decision under its other name.
pub fn is_file_type_allowed_new(
    parent: Option<&str>,
    extension: Option<&str>,
    include_types: &Vec<String>,
    exclude_types: &Vec<String>,
    exclude_dirs: &Vec<String>,
) -> (r: bool)
    ensures
        r == type_allowed(
            match parent {
                Some(p) => Some(p@),
                None => None,
            },
            match extension {
                Some(x) => Some(x@),
                None => None,
            },
            string_texts(include_types@),
            string_texts(exclude_types@),
            string_texts(exclude_dirs@),
        ),
{
    is_file_type_allowed(parent, extension, include_types, exclude_types, exclude_dirs)
}

// ---------------------------------------------------------------------------
// The search of a project
// ---------------------------------------------------------------------------
/// What the walk and the filesystem report of one path of the project.
#[derive(Debug)]
pub struct SearchCandidate {
    pub path: String,
    /// The directory the path lies in, where it has one.
    pub parent: Option<String>,
    /// The extension of the path, where it has one.
    pub extension: Option<String>,
    /// The path is a regular file.
    pub is_file: bool,
    /// The length of the file in bytes, where its metadata could be read.
    pub size: Option<u64>,
    /// The text of the file, where it was read and is valid UTF-8.
    pub content: Option<String>,
}

/// The text of an optional string, where there is one.
pub open spec fn opt_text(o: Option<String>) -> Option<Seq<char>> {
    match o {
        Some(s) => Some(s@),
        None => None,
    }
}

/// The search selects the candidate `c`.
pub open spec fn selects(c: SearchCandidate, options: SearchOptions) -> bool {
    c.is_file && type_allowed(
        opt_text(c.parent),
        opt_text(c.extension),
        string_texts(options.include_file_types@),
        string_texts(options.exclude_file_types@),
        string_texts(options.exclude_directories@),
    )
}

/// The text of the selected candidate `c` is looked at: it is no larger
/// than `MAX_SEARCHED_FILE_SIZE`.
pub open spec fn reads(c: SearchCandidate) -> bool {
    !(c.size matches Some(n) && n > MAX_SEARCHED_FILE_SIZE)
}

/// A search with `options` looks at the text of `c`: it selects `c`, and `c`
/// is not too large.
pub fn is_searched(c: &SearchCandidate, options: &SearchOptions) -> (r: bool)
    ensures
        r == (selects(*c, *options) && reads(*c)),
{
    if !c.is_file {
        return false;
    }
    let allowed = is_file_type_allowed(
        match &c.parent {
            Some(p) => Some(p.as_str()),
            None => None,
        },
        match &c.extension {
            Some(x) => Some(x.as_str()),
            None => None,
        },
        &options.include_file_types,
        &options.exclude_file_types,
        &options.exclude_directories,
    );
    allowed && match c.size {
        Some(n) => n <= MAX_SEARCHED_FILE_SIZE,
        None => true,
    }
}

/// The sum of `a` and `b`, the largest 32-bit number where it does not fit.
pub open spec fn sat_add(a: u32, b: nat) -> u32 {
    clamp_u32(a as nat + b)
}

/// The matches reported of the candidate `c`.
pub open spec fn candidate_records(c: SearchCandidate, pattern: Seq<char>) -> Seq<MatchRecord> {
    match c.content {
        Some(text) => if reads(c) {
            content_records(c.path@, lines_of(text@), pattern)
        } else {
            Seq::empty()
        },
        None => Seq::empty(),
    }
}

/// The totals once the candidate `c` has been offered to a search that stood
/// at `before`. A search that has reached its limit of `cap` matches takes
/// nothing more. Otherwise a file is counted; a selected file is counted as
/// searched; and where matches are found in it, they are reported and
/// counted.
pub open spec fn after_candidate(
    before: SearchTotals,
    c: SearchCandidate,
    pattern: Seq<char>,
    options: SearchOptions,
    cap: u32,
) -> SearchTotals {
    if before.total_matches >= cap || !c.is_file {
        before
    } else if !selects(c, options) {
        SearchTotals { total_files: sat_add(before.total_files, 1), ..before }
    } else {
        let found = candidate_records(c, pattern);
        if found.len() == 0 {
            SearchTotals {
                total_files: sat_add(before.total_files, 1),
                files_searched: sat_add(before.files_searched, 1),
                ..before
            }
        } else {
            SearchTotals {
                results: before.results.push(
                    ResultRecord {
                        file: c.path@,
                        matches: found,
                        total_matches: clamp_u32(found.len()),
                    },
                ),
                total_matches: sat_add(before.total_matches, found.len()),
                files_searched: sat_add(before.files_searched, 1),
                total_files: sat_add(before.total_files, 1),
            }
        }
    }
}

/// A candidate whose text the search would not look at is taken the same
/// way whatever text it carries: reading the file can be spared.
pub proof fn lemma_unread_text_is_not_missed(
    before: SearchTotals,
    c: SearchCandidate,
    text: Option<String>,
    pattern: Seq<char>,
    options: SearchOptions,
    cap: u32,
)
    requires
        !(before.total_matches < cap && selects(c, options) && reads(c)),
    ensures
        after_candidate(before, (SearchCandidate { content: text, ..c }), pattern, options, cap)
            == after_candidate(before, c, pattern, options, cap),
{
}

/// The totals of a search that has been offered `files`, one after the other.
pub open spec fn searched(
    files: Seq<SearchCandidate>,
    pattern: Seq<char>,
    options: SearchOptions,
    cap: u32,
) -> SearchTotals
    decreases files.len(),
{
    if files.len() == 0 {
        SearchTotals { results: Seq::empty(), total_matches: 0, files_searched: 0, total_files: 0 }
    } else {
        after_candidate(
            searched(files.drop_last(), pattern, options, cap),
            files.last(),
            pattern,
            options,
            cap,
        )
    }
}

/// A search that has reached its limit takes nothing more: its totals are
/// those of the part of the walk seen until then.
pub proof fn lemma_full_search_ignores_rest(
    files: Seq<SearchCandidate>,
    pattern: Seq<char>,
    options: SearchOptions,
    cap: u32,
    seen: int,
)
    requires
        0 <= seen <= files.len(),
        searched(files.take(seen), pattern, options, cap).total_matches >= cap,
    ensures
        searched(files, pattern, options, cap) == searched(files.take(seen), pattern, options, cap),
    decreases files.len() - seen,
{
    if seen == files.len() {
        assert(files.take(seen) =~= files);
    } else {
        assert(files.drop_last().take(seen) =~= files.take(seen));
        lemma_full_search_ignores_rest(files.drop_last(), pattern, options, cap, seen);
    }
}

/// The number of regular files among `files`, the largest 32-bit number where
/// it does not fit.
pub open spec fn count_files(files: Seq<SearchCandidate>) -> u32
    decreases files.len(),
{
    if files.len() == 0 {
        0
    } else if files.last().is_file {
        sat_add(count_files(files.drop_last()), 1)
    } else {
        count_files(files.drop_last())
    }
}

/// A search in progress: it is offered the paths of a walk one by one.
pub struct ProjectSearch<'a> {
    pattern: &'a CompiledPattern,
    options: &'a SearchOptions,
    cap: u32,
    results: Vec<SearchResult>,
    total_matches: u32,
    files_searched: u32,
    total_files: u32,
    files_offered: u32,
    seen: Ghost<Seq<SearchCandidate>>,
}

fn bump(n: u32) -> (r: u32)
    ensures
        r == sat_add(n, 1),
{
    if n == u32::MAX {
        n
    } else {
        n + 1
    }
}

impl<'a> ProjectSearch<'a> {
    /// The candidates offered so far.
    pub closed spec fn seen(&self) -> Seq<SearchCandidate> {
        self.seen@
    }

    /// The text of the pattern searched for.
    pub closed spec fn pattern(&self) -> Seq<char> {
        self.pattern@
    }

    /// The options of the search.
    pub closed spec fn options(&self) -> SearchOptions {
        *self.options
    }

    /// The number of matches at which the search stops.
    pub closed spec fn cap(&self) -> u32 {
        self.cap
    }

    /// The totals so far.
    pub closed spec fn totals(&self) -> SearchTotals {
        SearchTotals {
            results: result_records(self.results@),
            total_matches: self.total_matches,
            files_searched: self.files_searched,
            total_files: self.total_files,
        }
    }

    /// The number of regular files among the candidates offered so far,
    /// whether or not the search had reached its limit.
    pub closed spec fn files_offered(&self) -> u32 {
        self.files_offered
    }

    /// The totals are those of the candidates offered so far.
    pub open spec fn well_formed(&self) -> bool {
        &&& self.totals() == searched(self.seen(), self.pattern(), self.options(), self.cap())
        &&& results_sound(self.totals().results)
        &&& self.files_offered() == count_files(self.seen())
    }

    /// A search that has seen nothing.
    pub fn new(pattern: &'a CompiledPattern, options: &'a SearchOptions, cap: u32) -> (s: Self)
        ensures
            s.well_formed(),
            s.seen() == Seq::<SearchCandidate>::empty(),
            s.pattern() == pattern@,
            s.options() == *options,
            s.cap() == cap,
    {
        let s = ProjectSearch {
            pattern,
            options,
            cap,
            results: Vec::new(),
            total_matches: 0,
            files_searched: 0,
            total_files: 0,
            files_offered: 0,
            seen: Ghost(Seq::empty()),
        };
        assert(result_records(s.results@) =~= Seq::empty());
        s
    }

    /// The search has reached its limit: the walk may stop.
    pub fn is_done(&self) -> (r: bool)
        ensures
            r == (self.totals().total_matches >= self.cap()),
    {
        self.total_matches >= self.cap
    }

    /// The text of `c` would be looked at if `c` were offered now, so it is
    /// worth reading.
    pub fn needs_content(&self, c: &SearchCandidate) -> (r: bool)
        ensures
            r == (self.totals().total_matches < self.cap() && selects(*c, self.options()) && reads(
                *c,
            )),
    {
        self.total_matches < self.cap && is_searched(c, self.options)
    }

    /// Takes the next path of the walk.
    pub fn offer(&mut self, c: &SearchCandidate)
        requires
            old(self).well_formed(),
        ensures
            final(self).well_formed(),
            final(self).seen() == old(self).seen().push(*c),
            final(self).pattern() == old(self).pattern(),
            final(self).options() == old(self).options(),
            final(self).cap() == old(self).cap(),
    {
        let ghost before = self.seen@;
        proof {
            self.seen@ = before.push(*c);
            assert(before.push(*c).drop_last() =~= before);
        }
        if c.is_file {
            self.files_offered = bump(self.files_offered);
        }
        if self.total_matches >= self.cap || !c.is_file {
            return ;
        }
        self.total_files = bump(self.total_files);
        let allowed = is_file_type_allowed(
            match &c.parent {
                Some(p) => Some(p.as_str()),
                None => None,
            },
            match &c.extension {
                Some(x) => Some(x.as_str()),
                None => None,
            },
            &self.options.include_file_types,
            &self.options.exclude_file_types,
            &self.options.exclude_directories,
        );
        if !allowed {
            return ;
        }
        self.files_searched = bump(self.files_searched);
        let too_large = match c.size {
            Some(n) => n > MAX_SEARCHED_FILE_SIZE,
            None => false,
        };
        if too_large {
            return ;
        }
        if let Some(text) = &c.content {
            let found = search_in_content(text.as_str(), self.pattern, c.path.as_str());
            if found.len() != 0 {
                let count = to_u32(found.len());
                self.total_matches = if self.total_matches > u32::MAX - count {
                    u32::MAX
                } else {
                    self.total_matches + count
                };
                let ghost old_results = self.results@;
                let result = SearchResult { file: c.path.clone(), matches: found, total_matches: count };
                self.results.push(result);
                proof {
                    assert(result_records(self.results@) =~= result_records(old_results).push(
                        result@,
                    ));
                }
            }
        }
    }

    /// The outcome of the search.
    pub fn finish(self) -> (data: SearchData)
        requires
            self.well_formed(),
        ensures
            data@ == searched(self.seen(), self.pattern(), self.options(), self.cap()),
            results_sound(data@.results),
    {
        SearchData {
            results: self.results,
            total_matches: self.total_matches,
            files_searched: self.files_searched,
            total_files: self.total_files,
        }
    }

    /// The outcome of a search that was offered a whole walk and counts all
    /// its regular files, also those that came after the limit was reached.
    pub fn finish_counting_all(self) -> (data: SearchData)
        requires
            self.well_formed(),
        ensures
            data@ == (SearchTotals {
                total_files: count_files(self.seen()),
                ..searched(self.seen(), self.pattern(), self.options(), self.cap())
            }),
            results_sound(data@.results),
    {
        SearchData {
            results: self.results,
            total_matches: self.total_matches,
            files_searched: self.files_searched,
            total_files: self.files_offered,
        }
    }
}

/// The totals of the search for `pattern` over a whole walk.
pub fn search_files(
    files: &Vec<SearchCandidate>,
    pattern: &CompiledPattern,
    options: &SearchOptions,
    cap: u32,
) -> (data: SearchData)
    ensures
        data@ == searched(files@, pattern@, *options, cap),
        results_sound(data@.results),
{
    let mut search = ProjectSearch::new(pattern, options, cap);
    let mut i: usize = 0;
    proof {
        assert(files@.take(0) =~= Seq::empty());
    }
    while i < files.len() && !search.is_done()
        invariant
            i <= files.len(),
            search.well_formed(),
            search.seen() == files@.take(i as int),
            search.pattern() == pattern@,
            search.options() == *options,
            search.cap() == cap,
        decreases files.len() - i,
    {
        search.offer(&files[i]);
        proof {
            assert(files@.take(i as int).push(files@[i as int]) =~= files@.take(i + 1));
        }
        i += 1;
    }
    proof {
        if i < files.len() {
            lemma_full_search_ignores_rest(files@, pattern@, *options, cap, i as int);
        } else {
            assert(files@.take(i as int) =~= files@);
        }
    }
    search.finish()
}

/// Counts the regular files of a walk.
pub fn count_regular_files(files: &Vec<SearchCandidate>) -> (n: u32)
    ensures
        n == count_files(files@),
{
    let mut n: u32 = 0;
    let mut i: usize = 0;
    proof {
        assert(files@.take(0) =~= Seq::empty());
    }
    while i < files.len()
        invariant
            i <= files.len(),
            n == count_files(files@.take(i as int)),
        decreases files.len() - i,
    {
        proof {
            assert(files@.take(i + 1).drop_last() =~= files@.take(i as int));
        }
        if files[i].is_file {
            n = bump(n);
        }
        i += 1;
    }
    proof {
        assert(files@.take(i as int) =~= files@);
    }
    n
}

/// Why a query is refused: it is empty or a single character once the white
/// space around it is removed. A streaming search says the same of both.
pub open spec fn query_refusal(query: Seq<char>, streaming: bool) -> Option<Seq<char>> {
    let n = trim(query).len();
    if n == 0 && !streaming {
        Some("Search query cannot be empty"@)
    } else if n < 2 {
        Some("Search query must be at least 2 characters"@)
    } else {
        None
    }
}

/// Checks a query before anything is searched.
pub fn check_query(query: &str, streaming: bool) -> (r: Result<(), AppError>)
    ensures
        match r {
            Ok(_) => query_refusal(query@, streaming) is None,
            Err(e) => query_refusal(query@, streaming) matches Some(why) && e.is(
                ErrorCategory::Validation,
                "INVALID_INPUT"@,
                why,
                Some("query"@),
            ),
        },
{
    let chars = to_chars(query);
    let trimmed = trim_chars(&chars);
    if trimmed.len() == 0 && !streaming {
        Err(AppError::validation_with_field("INVALID_INPUT", "Search query cannot be empty", "query"))
    } else if trimmed.len() < 2 {
        Err(
            AppError::validation_with_field(
                "INVALID_INPUT",
                "Search query must be at least 2 characters",
                "query",
            ),
        )
    } else {
        Ok(())
    }
}

/// Why a search is refused before anything is searched, with the field the
/// refusal is about: a query that is empty or a single character, a project
/// path that is no directory, or a pattern that does not compile.
pub open spec fn search_refusal(
    project_is_directory: bool,
    query: Seq<char>,
    options: SearchOptions,
    streaming: bool,
) -> Option<(Seq<char>, Seq<char>)> {
    let text = pattern_text(query, options.case_sensitive, options.whole_word, options.use_regex);
    if let Some(why) = query_refusal(query, streaming) {
        Some((why, "query"@))
    } else if !project_is_directory {
        Some(("Invalid project path"@, "project_path"@))
    } else if let Some(why) = compile_failure(text) {
        Some((compile_failure_prefix(options.use_regex) + why, "query"@))
    } else {
        None
    }
}

/// What a search answers, or the failure it is refused with. A refusal is a
/// validation failure. Otherwise the search runs over the walk until `cap`
/// matches are reached; a streaming search counts the files seen until it
/// stopped, any other the files of the whole walk.
pub open spec fn search_outcome(
    project_is_directory: bool,
    files: Seq<SearchCandidate>,
    query: Seq<char>,
    options: SearchOptions,
    cap: u32,
    streaming: bool,
    outcome: Result<SearchData, AppError>,
) -> bool {
    let text = pattern_text(query, options.case_sensitive, options.whole_word, options.use_regex);
    match search_refusal(project_is_directory, query, options, streaming) {
        Some((why, field)) => outcome matches Err(e) && e.is(
            ErrorCategory::Validation,
            "INVALID_INPUT"@,
            why,
            Some(field),
        ),
        None => outcome matches Ok(data) && {
            let totals = searched(files, text, options, cap);
            &&& results_sound(data@.results)
            &&& if streaming {
                data@ == totals
            } else {
                data@ == (SearchTotals { total_files: count_files(files), ..totals })
            }
        },
    }
}

/// Checks a search before anything is walked or read, and compiles its
/// pattern: the refusal, or the pattern that stands for the query.
pub fn begin_search(project_is_directory: bool, query: &str, options: &SearchOptions, streaming: bool) -> (r:
    Result<CompiledPattern, AppError>)
    ensures
        match search_refusal(project_is_directory, query@, *options, streaming) {
            Some((why, field)) => r matches Err(e) && e.is(
                ErrorCategory::Validation,
                "INVALID_INPUT"@,
                why,
                Some(field),
            ),
            None => r matches Ok(c) && c@ == pattern_text(
                query@,
                options.case_sensitive,
                options.whole_word,
                options.use_regex,
            ),
        },
{
    match check_query(query, streaming) {
        Err(e) => {
            return Err(e);
        },
        Ok(_) => {},
    }
    if !project_is_directory {
        return Err(
            AppError::validation_with_field("INVALID_INPUT", "Invalid project path", "project_path"),
        );
    }
    match build_search_regex(query, options) {
        Ok(p) => Ok(p),
        Err(why) => Err(AppError::validation_with_field("INVALID_INPUT", why.as_str(), "query")),
    }
}

/// The number of matches at which a search stops: `MAX_BULK_MATCHES`, or for
/// a streaming search `max_results` (`DEFAULT_MAX_RESULTS` where none is
/// given).
pub open spec fn match_cap(streaming: bool, max_results: Option<u32>) -> u32 {
    if streaming {
        streaming_cap(max_results)
    } else {
        MAX_BULK_MATCHES
    }
}

/// The number of matches at which a search stops.
pub fn search_cap(streaming: bool, max_results: Option<u32>) -> (cap: u32)
    ensures
        cap == match_cap(streaming, max_results),
{
    if !streaming {
        return MAX_BULK_MATCHES;
    }
    match max_results {
        Some(n) => n,
        None => DEFAULT_MAX_RESULTS,
    }
}

fn run_search(
    project_is_directory: bool,
    files: &Vec<SearchCandidate>,
    query: &str,
    options: &SearchOptions,
    cap: u32,
    streaming: bool,
) -> (r: Result<SearchData, AppError>)
    ensures
        search_outcome(project_is_directory, files@, query@, *options, cap, streaming, r),
{
    let pattern = match begin_search(project_is_directory, query, options, streaming) {
        Ok(p) => p,
        Err(e) => {
            return Err(e);
        },
    };
    let mut data = search_files(files, &pattern, options, cap);
    if !streaming {
        data.total_files = count_regular_files(files);
    }
    Ok(data)
}

/// The bulk search of a project. `files` holds what the walk of the project
/// reports, in its order, with the text of each file that could be read;
/// `project_is_directory` says that the project path is an existing
/// directory. The search stops at `MAX_BULK_MATCHES` matches, and counts the
/// files of the whole walk.
pub fn search_project(
    project_is_directory: bool,
    files: &Vec<SearchCandidate>,
    query: &str,
    options: &SearchOptions,
) -> (r: Result<SearchData, AppError>)
    ensures
        search_outcome(project_is_directory, files@, query@, *options, MAX_BULK_MATCHES, false, r),
{
    run_search(project_is_directory, files, query, options, MAX_BULK_MATCHES, false)
}

/// The number of matches at which a streaming search stops.
pub open spec fn streaming_cap(max_results: Option<u32>) -> u32 {
    match max_results {
        Some(n) => n,
        None => DEFAULT_MAX_RESULTS,
    }
}

/// The streaming search of a project: as the bulk search, but it stops at
/// `max_results` matches (1000 where none is given) and counts the files seen
/// until then.
pub fn search_project_streaming(
    project_is_directory: bool,
    files: &Vec<SearchCandidate>,
    query: &str,
    options: &SearchOptions,
    max_results: Option<u32>,
) -> (r: Result<SearchData, AppError>)
    ensures
        search_outcome(
            project_is_directory,
            files@,
            query@,
            *options,
            streaming_cap(max_results),
            true,
            r,
        ),
{
    let cap = search_cap(true, max_results);
    run_search(project_is_directory, files, query, options, cap, true)
}

/// The envelope of a search outcome: the data on success, the rendered
/// failure otherwise.
pub open spec fn search_envelope(outcome: Result<SearchData, AppError>, r: TauriResult<SearchData>) -> bool {
    &&& r.well_formed()
    &&& match outcome {
        Ok(data) => r.is_success(data),
        Err(e) => r.is_error(rendered(e.code_text(), e.message_text())),
    }
}

/// The bulk search of a project, answered in an envelope.
pub fn search_in_project(
    project_is_directory: bool,
    files: &Vec<SearchCandidate>,
    query: &str,
    options: &SearchOptions,
) -> (r: TauriResult<SearchData>)
    ensures
        exists|outcome: Result<SearchData, AppError>|
            search_outcome(
                project_is_directory,
                files@,
                query@,
                *options,
                MAX_BULK_MATCHES,
                false,
                outcome,
            ) && search_envelope(outcome, r),
{
    let outcome = search_project(project_is_directory, files, query, options);
    let r = TauriResult::from_result(outcome);
    assert(search_envelope(outcome, r));
    r
}

/// The streaming search of a project, answered in an envelope.
pub fn search_in_project_streaming(
    project_is_directory: bool,
    files: &Vec<SearchCandidate>,
    query: &str,
    options: &SearchOptions,
    max_results: Option<u32>,
) -> (r: TauriResult<SearchData>)
    ensures
        exists|outcome: Result<SearchData, AppError>|
            search_outcome(
                project_is_directory,
                files@,
                query@,
                *options,
                streaming_cap(max_results),
                true,
                outcome,
            ) && search_envelope(outcome, r),
{
    let outcome = search_project_streaming(project_is_directory, files, query, options, max_results);
    let r = TauriResult::from_result(outcome);
    assert(search_envelope(outcome, r));
    r
}

} // verus!
