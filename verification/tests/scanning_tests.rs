use syntari_desktop_lib::filesystem::scanning::{
    backup_walk_settings, chunked_walk_settings, collect_files, debug_test_command,
    list_backup_files, name_is_skipped, paginate, pattern_matches, scan_files_chunked,
    scan_files_streaming, streaming_walk_settings, EntryMetadata, FileCollector, TestedPath,
    WalkEntry,
};

fn file(path: &str, len: u64) -> WalkEntry {
    let name = path.rsplit('/').next().map(|n| n.to_string());
    let extension = name
        .as_ref()
        .and_then(|n| n.rfind('.').filter(|i| *i > 0).map(|i| n[i + 1..].to_string()));
    WalkEntry {
        path: path.to_string(),
        file_name: name,
        extension,
        depth: (path.matches('/').count() as u32).saturating_sub(2),
        is_file: true,
        metadata: Some(EntryMetadata { len, modified: 1_700_000_000 }),
    }
}

fn directory(path: &str) -> WalkEntry {
    WalkEntry { is_file: false, ..file(path, 4096) }
}

fn many(n: usize) -> Vec<WalkEntry> {
    (0..n).map(|i| file(&format!("/ws/f{:05}.txt", i), 10 + i as u64)).collect()
}

#[test]
fn chunked_scan_pagination() {
    let entries = many(250);
    let first = scan_files_chunked(&entries, 0, 100, Some(Vec::new())).data.unwrap();
    assert_eq!(first.files.len(), 100);
    assert!(first.has_more);
    let second = scan_files_chunked(&entries, 100, 100, Some(Vec::new())).data.unwrap();
    assert_eq!(second.files.len(), 100);
    assert!(second.has_more);
    let third = scan_files_chunked(&entries, 200, 100, Some(Vec::new())).data.unwrap();
    assert_eq!(third.files.len(), 50);
    assert!(!third.has_more);
    assert_eq!(first.files[0].path, "/ws/f00000.txt");
    assert_eq!(second.files[0].path, "/ws/f00100.txt");
    assert_eq!(third.files[49].path, "/ws/f00249.txt");
}

#[test]
fn pages_add_up_to_the_whole_scan() {
    let entries = many(37);
    let whole = scan_files_chunked(&entries, 0, usize::MAX, None).data.unwrap();
    assert!(!whole.has_more);
    for limit in [1usize, 5, 36, 37, 100] {
        let mut joined: Vec<String> = Vec::new();
        let mut offset = 0;
        loop {
            let page = scan_files_chunked(&entries, offset, limit, None).data.unwrap();
            joined.extend(page.files.iter().map(|f| f.path.clone()));
            if !page.has_more {
                break;
            }
            offset += limit;
        }
        let all: Vec<String> = whole.files.iter().map(|f| f.path.clone()).collect();
        assert_eq!(joined, all, "limit {}", limit);
    }
}

#[test]
fn a_page_behind_the_end_is_empty() {
    let entries = many(3);
    let page = scan_files_chunked(&entries, 3, 10, None).data.unwrap();
    assert!(page.files.is_empty());
    assert!(!page.has_more);
    let page = scan_files_chunked(&entries, 100, usize::MAX, None).data.unwrap();
    assert!(page.files.is_empty());
    let none = scan_files_chunked(&entries, 0, 0, None).data.unwrap();
    assert!(none.files.is_empty());
    assert!(none.has_more);
}

#[test]
fn only_files_within_the_size_limit_are_listed() {
    let entries = vec![
        directory("/ws/src"),
        file("/ws/src/a.rs", 0),
        file("/ws/src/big.bin", 67_108_865),
        file("/ws/src/edge.bin", 67_108_864),
        WalkEntry { metadata: None, ..file("/ws/src/unreadable", 1) },
    ];
    let page = scan_files_chunked(&entries, 0, 10, Some(Vec::new())).data.unwrap();
    let paths: Vec<&str> = page.files.iter().map(|f| f.path.as_str()).collect();
    assert_eq!(paths, vec!["/ws/src/a.rs", "/ws/src/edge.bin"]);
    let record = &page.files[0];
    assert_eq!(record.name, "a.rs");
    assert_eq!(record.extension, "rs");
    assert_eq!(record.depth, 1);
    assert_eq!(record.size, 0);
    assert_eq!(record.last_modified, 1_700_000_000);
    assert!(!record.is_directory);
    for f in &page.files {
        assert!(!f.is_directory);
    }
}

#[test]
fn extensions_are_shown_in_lower_case() {
    let entry = WalkEntry { extension: Some("TXT".to_string()), ..file("/ws/README.TXT", 5) };
    let page = scan_files_chunked(&vec![entry], 0, 10, None).data.unwrap();
    assert_eq!(page.files[0].extension, "txt");
    let bare = WalkEntry { extension: None, file_name: None, ..file("/ws/x", 5) };
    let page = scan_files_chunked(&vec![bare], 0, 10, None).data.unwrap();
    assert_eq!(page.files[0].extension, "");
    assert_eq!(page.files[0].name, "");
}

#[test]
fn default_patterns_pass_noise_over() {
    let entries = vec![
        file("/ws/main.rs", 1),
        file("/ws/photo.png", 1),
        file("/ws/debug.log", 1),
        file("/ws/Cargo.lock", 1),
        file("/ws/build.rs", 1),
        file("/ws/.envrc", 1),
        file("/ws/notes.md", 1),
    ];
    let page = scan_files_chunked(&entries, 0, 10, None).data.unwrap();
    let names: Vec<&str> = page.files.iter().map(|f| f.name.as_str()).collect();
    assert_eq!(names, vec!["main.rs", "notes.md"]);
    let own = Some(vec!["*.md".to_string()]);
    let page = scan_files_chunked(&entries, 0, 10, own).data.unwrap();
    assert_eq!(page.files.len(), 6);
}

#[test]
fn patterns_match_by_ending_or_by_beginning() {
    assert!(pattern_matches("*.pyc", "a.pyc"));
    assert!(pattern_matches("*.pyc", "apyc"));
    assert!(!pattern_matches("*.pyc", "a.py"));
    assert!(!pattern_matches("a*", "abc"));
    assert!(pattern_matches("logs", "logs"));
    assert!(pattern_matches("logs", "logs_old"));
    assert!(!pattern_matches("logs", "my_logs"));
    assert!(name_is_skipped("x.zip", &vec!["*.rar".to_string(), "*.zip".to_string()]));
    assert!(!name_is_skipped("x.zip", &Vec::new()));
}

#[test]
fn a_scan_stops_at_its_cap() {
    let entries = many(100_050);
    let page = scan_files_chunked(&entries, 99_990, 100, Some(Vec::new()));
    assert!(page.success);
    let data = page.data.unwrap();
    assert_eq!(data.files.len(), 10);
    assert!(!data.has_more);
    assert_eq!(data.files[9].path, "/ws/f99999.txt");
}

#[test]
fn a_collector_says_when_it_is_full() {
    let mut collector = FileCollector::new(100, 2, Vec::new());
    assert!(!collector.is_full());
    collector.offer(&file("/a", 1));
    collector.offer(&directory("/d"));
    collector.offer(&file("/b", 101));
    assert_eq!(collector.len(), 1);
    collector.offer(&file("/c", 100));
    assert!(collector.is_full());
    collector.offer(&file("/e", 1));
    let files = collector.into_files();
    let paths: Vec<&str> = files.iter().map(|f| f.path.as_str()).collect();
    assert_eq!(paths, vec!["/a", "/c"]);
    let same = collect_files(&vec![file("/a", 1), file("/c", 100), file("/e", 1)], 100, 2, Vec::new());
    assert_eq!(same.len(), 2);
    assert_eq!(collect_files(&many(5), 100, 0, Vec::new()).len(), 0);
}

#[test]
fn streaming_scan_answers_the_first_chunk() {
    let mut entries = many(120);
    entries.insert(0, file("/ws/huge.bin", 10_485_761));
    entries.insert(1, file("/ws/edge.bin", 10_485_760));
    let chunk = scan_files_streaming(&entries, None, Some(Vec::new())).data.unwrap();
    assert_eq!(chunk.len(), 50);
    assert_eq!(chunk[0].path, "/ws/edge.bin");
    assert_eq!(chunk[1].path, "/ws/f00000.txt");
    let small = scan_files_streaming(&entries, Some(3), Some(Vec::new())).data.unwrap();
    assert_eq!(small.len(), 3);
    let all = scan_files_streaming(&entries, Some(1000), Some(Vec::new())).data.unwrap();
    assert_eq!(all.len(), 121);
}

#[test]
fn pagination_of_records() {
    let files = collect_files(&many(5), 1000, 10, Vec::new());
    let page = paginate(&files, 1, 2);
    assert_eq!(page.files.len(), 2);
    assert!(page.has_more);
    assert_eq!(page.files[0].path, "/ws/f00001.txt");
    let rest = paginate(&files, 3, usize::MAX);
    assert_eq!(rest.files.len(), 2);
    assert!(!rest.has_more);
}

#[test]
fn walks_are_configured_by_kind() {
    let chunked = chunked_walk_settings(None);
    assert!(chunked.skip_hidden);
    assert!(chunked.git_ignore && chunked.git_global && chunked.git_exclude && chunked.ignore_files);
    assert!(!chunked.follow_links);
    assert!(!chunked.require_git);
    assert_eq!(chunked.max_depth, 50);
    assert!(!chunked_walk_settings(Some(true)).skip_hidden);
    assert!(chunked_walk_settings(Some(false)).skip_hidden);
    let streaming = streaming_walk_settings(Some(true));
    assert_eq!(streaming.max_depth, 20);
    assert!(!streaming.skip_hidden);
    let backup = backup_walk_settings();
    assert_eq!(backup.max_depth, 10);
    assert!(!backup.skip_hidden && !backup.git_ignore && !backup.parents && !backup.follow_links);
}

#[test]
fn backup_files_are_listed_by_name() {
    let entries = vec![
        file("/b/a.txt.backup.1", 1),
        file("/b/a.txt", 1),
        directory("/b/x.backup.d"),
        file("/b/sub/c.backup.old", 1),
    ];
    let found = list_backup_files(true, &entries).data.unwrap();
    assert_eq!(found, vec!["/b/a.txt.backup.1".to_string(), "/b/sub/c.backup.old".to_string()]);
    let none = list_backup_files(false, &entries);
    assert!(none.success);
    assert!(none.data.unwrap().is_empty());
}

#[test]
fn the_test_command_reports_what_is_known() {
    let r = debug_test_command("/ws/a", true, &Ok(TestedPath { is_file: true, is_dir: false, len: 12 }));
    assert_eq!(
        r.data,
        Some("Path: /ws/a\nExists: true\nIs file: true\nIs dir: false\nSize: 12 bytes".to_string())
    );
    let r = debug_test_command("/ws/a", false, &Err("x".to_string()));
    assert_eq!(r.error, Some("[PATH_NOT_FOUND] Test path does not exist".to_string()));
    let r = debug_test_command("/ws/a", true, &Err("denied".to_string()));
    assert_eq!(r.error, Some("[METADATA_READ_FAILED] Failed to get metadata: denied".to_string()));
}
