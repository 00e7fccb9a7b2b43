use syntari_desktop_lib::errors::ErrorCategory;
use syntari_desktop_lib::filesystem::search::{
    begin_search, build_search_regex, check_query, contains_any, count_regular_files, is_file_type_allowed,
    is_file_type_allowed_new, is_searched, line_matches, list_contains, search_in_content, search_in_project,
    search_cap, search_in_project_streaming, search_pattern_text, search_project,
    search_project_streaming, ProjectSearch, SearchCandidate, SearchOptions,
};

fn options(case_sensitive: bool, whole_word: bool, use_regex: bool) -> SearchOptions {
    SearchOptions {
        case_sensitive,
        whole_word,
        use_regex,
        include_file_types: Vec::new(),
        exclude_file_types: Vec::new(),
        exclude_directories: Vec::new(),
    }
}

fn candidate(path: &str, content: &str) -> SearchCandidate {
    let parent = path.rfind('/').map(|i| path[..i].to_string());
    let name = path.rsplit('/').next().unwrap();
    SearchCandidate {
        path: path.to_string(),
        parent,
        extension: name.rfind('.').filter(|i| *i > 0).map(|i| name[i + 1..].to_string()),
        is_file: true,
        size: Some(content.len() as u64),
        content: Some(content.to_string()),
    }
}

#[test]
fn search_with_word_boundary_and_exclude() {
    let files = vec![
        candidate("/p/one.txt", "foo"),
        candidate("/p/two.txt", "foobar"),
        candidate("/p/three.txt", "barfoo"),
    ];
    let r = search_in_project(true, &files, "foo", &options(false, true, false));
    assert!(r.success);
    let data = r.data.unwrap();
    assert_eq!(data.total_matches, 1);
    assert_eq!(data.results.len(), 1);
    assert_eq!(data.results[0].file, "/p/one.txt");
    assert_eq!(data.results[0].total_matches, 1);
    assert_eq!(data.files_searched, 3);
    assert_eq!(data.total_files, 3);
    let m = &data.results[0].matches[0];
    assert_eq!((m.line, m.column, m.match_start, m.match_end), (1, 1, 0, 3));
    assert_eq!(m.text, "foo");
    assert_eq!(m.file, "/p/one.txt");

    let upper = vec![candidate("/p/one.txt", "say FOO twice: Foo")];
    let data = search_in_project(true, &upper, "foo", &options(false, true, false)).data.unwrap();
    assert_eq!(data.total_matches, 2);
    let data = search_in_project(true, &upper, "foo", &options(true, true, false)).data.unwrap();
    assert_eq!(data.total_matches, 0);
    assert!(data.results.is_empty());
}

#[test]
fn every_match_lies_in_its_line() {
    let text = "let alpha = 1;\n\nlet beta = alpha + alpha;\r\nzażółć alpha\n";
    let pattern = build_search_regex("alpha", &options(true, false, false)).unwrap();
    let found = search_in_content(text, &pattern, "/p/a.rs");
    let places: Vec<(u32, u32, u32, u32)> =
        found.iter().map(|m| (m.line, m.column, m.match_start, m.match_end)).collect();
    assert_eq!(places, vec![(1, 5, 4, 9), (3, 12, 11, 16), (3, 20, 19, 24), (4, 12, 11, 16)]);
    assert_eq!(found[1].text, "let beta = alpha + alpha;");
    assert_eq!(found[3].text, "zażółć alpha");
    for m in &found {
        assert!(m.match_end > m.match_start);
        assert!(m.line >= 1);
        assert!(m.column >= 1);
        assert!(m.text.len() >= m.match_end as usize);
        assert_eq!(&m.text[m.match_start as usize..m.match_end as usize], "alpha");
    }
}

#[test]
fn no_more_than_twenty_matches_of_a_file() {
    let line = "x ".repeat(15);
    let text = format!("{}\n{}\n", line, line);
    let pattern = build_search_regex("x", &options(true, false, false)).unwrap();
    let found = search_in_content(&text, &pattern, "/p/a");
    assert_eq!(found.len(), 20);
    assert_eq!(found[14].line, 1);
    assert_eq!(found[15].line, 2);
    assert_eq!(found[19].column, 9);
}

#[test]
fn the_pattern_of_a_query() {
    assert_eq!(search_pattern_text("a.b", &options(true, false, false)), "a\\.b");
    assert_eq!(search_pattern_text("a.b", &options(false, false, false)), "(?i)a\\.b");
    assert_eq!(search_pattern_text("a.b", &options(true, true, false)), "\\ba\\.b\\b");
    assert_eq!(search_pattern_text("a.b", &options(false, true, false)), "(?i)\\ba\\.b\\b");
    assert_eq!(search_pattern_text("a.b", &options(false, true, true)), "a.b");
    assert_eq!(
        search_pattern_text("\\.+*?()|[]{}^$#&-~x", &options(true, false, false)),
        "\\\\\\.\\+\\*\\?\\(\\)\\|\\[\\]\\{\\}\\^\\$\\#\\&\\-\\~x"
    );
}

#[test]
fn a_literal_query_matches_itself_only() {
    let pattern = build_search_regex("a.b", &options(true, false, false)).unwrap();
    assert_eq!(search_in_content("a.b axb", &pattern, "f").len(), 1);
    let regex = build_search_regex("a.b", &options(true, false, true)).unwrap();
    assert_eq!(search_in_content("a.b axb", &regex, "f").len(), 2);
}

#[test]
fn an_invalid_pattern_is_a_validation_failure() {
    let e = build_search_regex("(", &options(true, false, true)).unwrap_err();
    assert!(e.starts_with("Invalid regex: "), "{}", e);
    assert!(e.len() > "Invalid regex: ".len());
    let r = search_project(true, &Vec::new(), "((", &options(true, false, true)).unwrap_err();
    assert_eq!(r.category(), syntari_desktop_lib::errors::ErrorCategory::Validation);
    assert_eq!(r.code(), "INVALID_INPUT");
    assert!(r.message().starts_with("Invalid regex: "));
    let envelope = search_in_project(true, &Vec::new(), "((", &options(true, false, true));
    assert!(!envelope.success);
    assert!(envelope.error.unwrap().starts_with("[INVALID_INPUT] Invalid regex: "));
}

#[test]
fn queries_are_checked() {
    assert!(check_query("ab", false).is_ok());
    assert!(check_query(" ab ", true).is_ok());
    assert_eq!(check_query("", false).unwrap_err().message(), "Search query cannot be empty");
    assert_eq!(check_query("  \t", false).unwrap_err().message(), "Search query cannot be empty");
    assert_eq!(check_query(" a ", false).unwrap_err().message(), "Search query must be at least 2 characters");
    assert_eq!(check_query("", true).unwrap_err().message(), "Search query must be at least 2 characters");
    assert_eq!(check_query("é", true).unwrap_err().message(), "Search query must be at least 2 characters");
    let r = search_in_project(true, &Vec::new(), " ", &options(true, false, false));
    assert_eq!(r.error, Some("[INVALID_INPUT] Search query cannot be empty".to_string()));
    let r = search_in_project_streaming(true, &Vec::new(), "a", &options(true, false, false), None);
    assert_eq!(r.error, Some("[INVALID_INPUT] Search query must be at least 2 characters".to_string()));
    let r = search_in_project(false, &Vec::new(), "ab", &options(true, false, false));
    assert_eq!(r.error, Some("[INVALID_INPUT] Invalid project path".to_string()));
}

#[test]
fn files_are_selected_by_type_and_directory() {
    let none: Vec<String> = Vec::new();
    let rs = vec![".rs".to_string()];
    let md = vec![".md".to_string()];
    let dirs = vec!["node_modules".to_string()];
    assert!(is_file_type_allowed(Some("/p/src"), Some("rs"), &none, &none, &none));
    assert!(is_file_type_allowed(Some("/p/src"), Some("rs"), &rs, &none, &none));
    assert!(!is_file_type_allowed(Some("/p/src"), Some("rs"), &md, &none, &none));
    assert!(!is_file_type_allowed(Some("/p/src"), Some("rs"), &none, &rs, &none));
    assert!(!is_file_type_allowed(Some("/p/node_modules/x"), Some("rs"), &none, &none, &dirs));
    assert!(!is_file_type_allowed(Some("/p"), None, &rs, &none, &none));
    assert!(!is_file_type_allowed(Some("/p/src"), None, &md, &rs, &dirs));
    assert!(is_file_type_allowed(Some("/p/src"), None, &none, &rs, &dirs));
    assert!(is_file_type_allowed(Some("/p"), None, &none, &none, &none));
    assert!(is_file_type_allowed(None, Some("rs"), &rs, &none, &dirs));
    assert!(is_file_type_allowed_new(Some("/p/src"), Some("md"), &md, &none, &dirs));
    assert!(contains_any("/a/b", &vec!["x".to_string(), "/b".to_string()]));
    assert!(!contains_any("/a/b", &none));
    assert!(list_contains(&rs, ".rs"));
    assert!(!list_contains(&rs, "rs"));
}

#[test]
fn a_search_counts_files_and_skips_what_it_cannot_read() {
    let mut large = candidate("/p/large.txt", "needle");
    large.size = Some(1_048_577);
    let mut edge = candidate("/p/edge.txt", "needle");
    edge.size = Some(1_048_576);
    let mut unread = candidate("/p/binary.bin", "");
    unread.content = None;
    let mut dir = candidate("/p/dir", "needle");
    dir.is_file = false;
    let mut excluded = candidate("/p/vendor/x.txt", "needle");
    excluded.parent = Some("/p/vendor".to_string());
    let files = vec![large, edge, unread, dir, excluded, candidate("/p/none.txt", "hay")];
    let mut opts = options(true, false, false);
    opts.exclude_directories = vec!["vendor".to_string()];
    let data = search_project(true, &files, "needle", &opts).unwrap();
    assert_eq!(data.total_files, 5);
    assert_eq!(data.files_searched, 4);
    assert_eq!(data.total_matches, 1);
    assert_eq!(data.results.len(), 1);
    assert_eq!(data.results[0].file, "/p/edge.txt");
    assert_eq!(count_regular_files(&files), 5);
}

#[test]
fn a_search_stops_at_its_limit() {
    let files: Vec<SearchCandidate> =
        (0..10).map(|i| candidate(&format!("/p/f{}.txt", i), "ab ab ab")).collect();
    let data = search_project_streaming(true, &files, "ab", &options(true, false, false), Some(7)).unwrap();
    assert_eq!(data.results.len(), 3);
    assert_eq!(data.total_matches, 9);
    assert_eq!(data.files_searched, 3);
    assert_eq!(data.total_files, 3);
    let whole = search_project(true, &files, "ab", &options(true, false, false)).unwrap();
    assert_eq!(whole.total_matches, 30);
    assert_eq!(whole.total_files, 10);
    let default = search_in_project_streaming(true, &files, "ab", &options(true, false, false), None);
    assert_eq!(default.data.unwrap().total_matches, 30);
    let zero = search_project_streaming(true, &files, "ab", &options(true, false, false), Some(0)).unwrap();
    assert_eq!(zero.total_matches, 0);
    assert_eq!(zero.total_files, 0);
}

#[test]
fn a_search_in_progress_says_what_it_needs() {
    let opts = options(true, false, false);
    let pattern = build_search_regex("ab", &opts).unwrap();
    let mut search = ProjectSearch::new(&pattern, &opts, 2);
    let file = candidate("/p/a.txt", "ab ab");
    assert!(search.needs_content(&file));
    let mut big = candidate("/p/b.txt", "ab");
    big.size = Some(2_000_000);
    assert!(!search.needs_content(&big));
    assert!(!search.is_done());
    search.offer(&file);
    assert!(search.is_done());
    assert!(!search.needs_content(&file));
    search.offer(&candidate("/p/c.txt", "ab"));
    let data = search.finish();
    assert_eq!(data.total_matches, 2);
    assert_eq!(data.total_files, 1);
}

#[test]
fn matches_of_a_line_are_reported_with_room() {
    let spans = vec![(0usize, 2usize), (4, 6), (8, 8)];
    let found = line_matches("/f", 3, "ab  ab  ", &spans, 2);
    assert_eq!(found.len(), 2);
    assert_eq!((found[1].line, found[1].column, found[1].match_start, found[1].match_end), (3, 5, 4, 6));
    let all = line_matches("/f", 3, "ab  ab  ", &spans, 10);
    assert_eq!(all.len(), 3);
    assert_eq!(all[2].match_start, all[2].match_end);
    let far = line_matches("/f", usize::MAX, "x", &vec![(usize::MAX - 1, usize::MAX)], 1);
    assert_eq!(far[0].line, u32::MAX);
    assert_eq!(far[0].column, u32::MAX);
    assert!(line_matches("/f", 1, "x", &spans, 0).is_empty());
}

#[test]
fn only_selected_files_of_moderate_size_are_read() {
    let plain = options(true, false, false);
    let file = candidate("/p/src/a.rs", "x");
    assert!(is_searched(&file, &plain));
    assert!(!is_searched(&SearchCandidate { is_file: false, ..candidate("/p/src", "") }, &plain));
    assert!(is_searched(&SearchCandidate { size: Some(1_048_576), ..candidate("/p/a.rs", "x") }, &plain));
    assert!(!is_searched(&SearchCandidate { size: Some(1_048_577), ..candidate("/p/a.rs", "x") }, &plain));
    assert!(is_searched(&SearchCandidate { size: None, ..candidate("/p/a.rs", "x") }, &plain));
    let only_text = SearchOptions { include_file_types: vec![".txt".to_string()], ..options(true, false, false) };
    assert!(!is_searched(&file, &only_text));
    assert!(is_searched(&candidate("/p/notes.txt", "x"), &only_text));
    let no_src = SearchOptions { exclude_directories: vec!["src".to_string()], ..options(true, false, false) };
    assert!(!is_searched(&file, &no_src));
}

#[test]
fn a_file_without_extension_matches_no_included_type() {
    let only_rs = SearchOptions { include_file_types: vec![".rs".to_string()], ..options(true, false, false) };
    let files = vec![candidate("/p/Makefile", "needle"), candidate("/p/main.rs", "needle")];
    assert_eq!(files[0].extension, None);
    let data = search_in_project(true, &files, "needle", &only_rs).data.unwrap();
    assert_eq!(data.total_files, 2);
    assert_eq!(data.files_searched, 1);
    assert_eq!(data.total_matches, 1);
    assert_eq!(data.results[0].file, "/p/main.rs");
    let data = search_in_project(true, &files, "needle", &options(true, false, false)).data.unwrap();
    assert_eq!(data.files_searched, 2);
    assert_eq!(data.total_matches, 2);
    assert!(!is_searched(&files[0], &only_rs));
}

#[test]
fn matches_come_in_reading_order() {
    let pattern = build_search_regex("ab", &options(true, false, false)).unwrap();
    let found = search_in_content("ab ab\nnone\nxxab abab", &pattern, "/p/a.txt");
    let places: Vec<(u32, u32, u32)> = found.iter().map(|m| (m.line, m.match_start, m.match_end)).collect();
    assert_eq!(places, vec![(1, 0, 2), (1, 3, 5), (3, 2, 4), (3, 5, 7), (3, 7, 9)]);
    for pair in found.windows(2) {
        assert!(pair[0].line < pair[1].line || (pair[0].line == pair[1].line && pair[0].match_end <= pair[1].match_start));
    }
}

#[test]
fn a_search_is_checked_before_anything_is_read() {
    let plain = options(true, false, false);
    let e = begin_search(true, "  ", &plain, false).unwrap_err();
    assert_eq!(e.render(), "[INVALID_INPUT] Search query cannot be empty");
    let e = begin_search(true, "  ", &plain, true).unwrap_err();
    assert_eq!(e.render(), "[INVALID_INPUT] Search query must be at least 2 characters");
    let e = begin_search(false, " a ", &plain, false).unwrap_err();
    assert_eq!(e.render(), "[INVALID_INPUT] Search query must be at least 2 characters");
    let e = begin_search(false, "ab", &plain, false).unwrap_err();
    assert_eq!(e.render(), "[INVALID_INPUT] Invalid project path");
    let e = begin_search(true, "a(b", &options(true, false, true), false).unwrap_err();
    assert!(e.render().starts_with("[INVALID_INPUT] "));
    assert_eq!(e.category(), ErrorCategory::Validation);
    assert!(begin_search(true, "a(b", &plain, false).is_ok());
    assert_eq!(search_cap(false, Some(5)), 10_000);
    assert_eq!(search_cap(true, Some(5)), 5);
    assert_eq!(search_cap(true, None), 1000);
}

#[test]
fn a_walk_that_is_read_as_needed_gives_what_the_whole_walk_gives() {
    let plain = options(true, false, false);
    let files = vec![
        candidate("/p/a.txt", "needle needle"),
        candidate("/p/b.txt", "needle"),
        candidate("/p/c.txt", "needle"),
        SearchCandidate { is_file: false, ..candidate("/p/d", "") },
        candidate("/p/e.txt", "needle"),
    ];
    for streaming in [false, true] {
        let pattern = begin_search(true, "needle", &plain, streaming).unwrap();
        let mut search = ProjectSearch::new(&pattern, &plain, 3);
        let mut read = 0;
        for file in &files {
            if streaming && search.is_done() {
                break;
            }
            let mut offered = SearchCandidate { content: None, ..candidate(&file.path, "") };
            offered.is_file = file.is_file;
            offered.size = file.size;
            if search.needs_content(&offered) {
                offered.content = file.content.clone();
                read += 1;
            }
            search.offer(&offered);
        }
        assert_eq!(read, 2);
        let data = if streaming { search.finish() } else { search.finish_counting_all() };
        assert_eq!(data.total_matches, 3);
        assert_eq!(data.files_searched, 2);
        assert_eq!(data.results.len(), 2);
        assert_eq!(data.total_files, if streaming { 2 } else { 4 });
        if streaming {
            let whole = search_project_streaming(true, &files, "needle", &plain, Some(3)).unwrap();
            assert_eq!(whole.total_files, data.total_files);
            assert_eq!(whole.total_matches, data.total_matches);
            assert_eq!(whole.files_searched, data.files_searched);
        }
    }
}
