use syntari_desktop_lib::filesystem::scanning::EntryMetadata;
use syntari_desktop_lib::filesystem::tree::{Listing, TreeEntry};
use syntari_desktop_lib::filesystem::watcher::{
    cache_scan_descends, change_name, convert_debounced_event, determine_watch_strategy, event_streams,
    format_watch_error, get_watched_paths, get_watcher_statistics, important_directories,
    is_problematic_directory, populate_file_cache, project_analysis_notification,
    should_ignore_path, watch_setup, ChangeKind, KnownFiles, RootEntry, WatchRegistry,
    WatchRequest, WatchStrategy,
};

fn root(files: usize, dirs: usize, extra: &[(&str, bool)]) -> Vec<Option<RootEntry>> {
    let mut entries: Vec<Option<RootEntry>> = Vec::new();
    for (name, is_directory) in extra {
        entries.push(Some(RootEntry { name: Some(name.to_string()), is_directory: *is_directory }));
    }
    for i in 0..files {
        entries.push(Some(RootEntry { name: Some(format!("f{}.txt", i)), is_directory: false }));
    }
    for i in 0..dirs {
        entries.push(Some(RootEntry { name: Some(format!("d{}", i)), is_directory: true }));
    }
    entries
}

#[test]
fn watcher_classification() {
    let mut known = KnownFiles::new();
    let created = convert_debounced_event(&mut known, "/ws/a.txt", true, false, 10).unwrap();
    assert_eq!(created.event_type, "created");
    assert_eq!(created.path, "/ws/a.txt");
    assert!(!created.is_directory);
    assert_eq!(created.timestamp, 10);
    assert_eq!(event_streams(&created), vec!["file-system-change".to_string()]);
    let modified = convert_debounced_event(&mut known, "/ws/a.txt", true, false, 11).unwrap();
    assert_eq!(modified.event_type, "modified");
    assert_eq!(known.len(), 1);
    let deleted = convert_debounced_event(&mut known, "/ws/a.txt", false, false, 12).unwrap();
    assert_eq!(deleted.event_type, "deleted");
    assert_eq!(event_streams(&deleted), vec!["file-deleted".to_string(), "file-system-change".to_string()]);
    assert!(!known.contains("/ws/a.txt"));
    assert_eq!(known.len(), 0);
    let again = convert_debounced_event(&mut known, "/ws/a.txt", true, false, 13).unwrap();
    assert_eq!(again.event_type, "created");
}

#[test]
fn noise_is_dropped() {
    let mut known = KnownFiles::new();
    for path in [
        "/ws/__pycache__/a",
        "/ws/a.pyc",
        "/ws/.cache/x",
        "/ws/temp/x",
        "/ws/tmp/x",
        "/ws/.syntari_permission_test",
    ] {
        assert!(should_ignore_path(path), "{}", path);
        assert!(convert_debounced_event(&mut known, path, true, false, 1).is_none());
    }
    assert_eq!(known.len(), 0);
    assert!(!should_ignore_path("/ws/src/main.rs"));
    assert!(!should_ignore_path("/ws/template/x"));
}

#[test]
fn the_cache_knows_paths_once() {
    let mut known = KnownFiles::new();
    known.insert("/ws/a", 1);
    known.insert("/ws/a", 2);
    known.insert("/ws/b/c", 1);
    known.insert("/other/d", 1);
    assert_eq!(known.len(), 3);
    known.remove("/missing");
    assert_eq!(known.len(), 3);
    known.evict_under("/ws");
    assert_eq!(known.len(), 1);
    assert!(known.contains("/other/d"));
    assert!(!known.contains("/ws/a"));
}

fn leaf(path: &str) -> TreeEntry {
    TreeEntry {
        failure: None,
        path: path.to_string(),
        name: path.rsplit('/').next().unwrap().to_string(),
        is_directory: false,
        is_file: true,
        extension: None,
        metadata: Ok(EntryMetadata { len: 1, modified: 1 }),
        children: Listing::NotRead,
    }
}

fn branch(path: &str, children: Vec<TreeEntry>) -> TreeEntry {
    TreeEntry { is_directory: true, is_file: false, children: Listing::Entries(children), ..leaf(path) }
}

#[test]
fn the_cache_is_filled_when_a_watch_starts() {
    let mut deep = leaf("/ws/1/2/3/4/5/6/deep.txt");
    for level in (1..=6).rev() {
        let path: String = "/ws/".to_string() + &(1..=level).map(|i| i.to_string()).collect::<Vec<_>>().join("/");
        let mut children = vec![deep];
        children.push(leaf(&format!("{}/at{}.txt", path, level)));
        deep = branch(&path, children);
    }
    let tree = Listing::Entries(vec![
        leaf("/ws/a.txt"),
        leaf("/ws/tmp/skip.txt"),
        branch("/ws/src", vec![leaf("/ws/src/main.rs")]),
        deep,
    ]);
    let mut known = KnownFiles::new();
    populate_file_cache(&mut known, &tree, 5);
    assert!(known.contains("/ws/a.txt"));
    assert!(known.contains("/ws/src/main.rs"));
    assert!(!known.contains("/ws/tmp/skip.txt"));
    assert!(known.contains("/ws/1/at1.txt"));
    assert!(known.contains("/ws/1/2/3/4/5/at5.txt"));
    assert!(!known.contains("/ws/1/2/3/4/5/6/at6.txt"));
    assert!(!known.contains("/ws/1/2/3/4/5/6/deep.txt"));
    assert_eq!(known.len(), 7);

    let wide: Vec<TreeEntry> = (0..1200).map(|i| leaf(&format!("/w/f{}", i))).collect();
    let mut known = KnownFiles::new();
    populate_file_cache(&mut known, &Listing::Entries(wide), 5);
    assert_eq!(known.len(), 1000);
    assert!(known.contains("/w/f999"));
    assert!(!known.contains("/w/f1000"));
}

#[test]
fn small_projects_are_watched_fully() {
    let (strategy, analysis) = determine_watch_strategy("/ws", &root(10, 3, &[("Cargo.toml", false), (".git", true)]));
    assert!(matches!(strategy, WatchStrategy::Full));
    assert_eq!(analysis.path, "/ws");
    assert_eq!(analysis.project_type, "Rust");
    assert_eq!(analysis.file_count, 11);
    assert_eq!(analysis.dir_count, 4);
    assert!(!analysis.has_build_artifacts);
    assert_eq!(analysis.estimated_total_files, 110);
    let setup = watch_setup(&strategy);
    assert!(setup.root_recursive);
    assert!(!setup.code_directories);
    assert_eq!(setup.debounce_millis, 100);
    let note = project_analysis_notification(&strategy, &analysis);
    assert_eq!(note.notification_type, "info");
    assert_eq!(note.title, "Project Analysis");
    assert_eq!(note.strategy, "Full Watching");
    assert_eq!(
        note.message,
        "Small Rust project detected. Using full file watching for optimal responsiveness."
    );
    assert!(note.auto_dismiss);
}

#[test]
fn projects_with_build_artifacts_are_watched_selectively() {
    let entries = root(5, 49, &[("node_modules", true), ("package.json", false), (".git", true)]);
    let (strategy, analysis) = determine_watch_strategy("/ws", &entries);
    match &strategy {
        WatchStrategy::Selective(patterns) => {
            assert_eq!(patterns.len(), 11);
            assert_eq!(patterns[0], "src/**/*");
            assert_eq!(patterns[10], ".gitignore");
        }
        other => panic!("unexpected strategy {:?}", other),
    }
    assert_eq!(analysis.project_type, "Node.js");
    assert_eq!(analysis.dir_count, 51);
    assert!(analysis.has_build_artifacts);
    assert_eq!(analysis.estimated_total_files, 600);
    let setup = watch_setup(&strategy);
    assert!(!setup.root_recursive);
    assert!(setup.code_directories);
    assert_eq!(setup.debounce_millis, 100);
    let note = project_analysis_notification(&strategy, &analysis);
    assert_eq!(note.strategy, "Selective Watching");
    assert_eq!(
        note.message,
        "Medium-sized Node.js project with 6 files detected. Using selective watching for optimal performance."
    );
    let no_git = root(5, 49, &[("target", true)]);
    match determine_watch_strategy("/ws", &no_git).0 {
        WatchStrategy::Selective(patterns) => assert_eq!(patterns.len(), 10),
        other => panic!("unexpected strategy {:?}", other),
    }
    assert_eq!(important_directories(), vec!["src", "components", "pages", "lib", "utils", "config"]);
}

#[test]
fn other_large_projects_are_watched_at_the_root() {
    let (strategy, analysis) = determine_watch_strategy("/ws", &root(0, 50, &[]));
    assert!(matches!(strategy, WatchStrategy::Hybrid));
    assert_eq!(analysis.project_type, "General");
    let setup = watch_setup(&strategy);
    assert!(!setup.root_recursive && !setup.code_directories);
    assert_eq!(setup.debounce_millis, 500);
    let note = project_analysis_notification(&strategy, &analysis);
    assert_eq!(note.notification_type, "warning");
    assert_eq!(note.strategy, "Hybrid Watching");
    assert!(!note.auto_dismiss);
    assert_eq!(
        note.message,
        "Large General project detected (~0 estimated files). Using hybrid watching to maintain performance."
    );
    let (edge, _) = determine_watch_strategy("/ws", &root(0, 49, &[]));
    assert!(matches!(edge, WatchStrategy::Full));
}

#[test]
fn only_the_first_hundred_entries_are_looked_at() {
    let mut entries = root(60, 45, &[]);
    entries.push(Some(RootEntry { name: Some("node_modules".to_string()), is_directory: true }));
    entries.insert(3, None);
    let (strategy, analysis) = determine_watch_strategy("/ws", &entries);
    assert_eq!(analysis.file_count, 60);
    assert_eq!(analysis.dir_count, 39);
    assert!(!analysis.has_build_artifacts);
    assert!(matches!(strategy, WatchStrategy::Full));
}

#[test]
fn noisy_directories_are_not_watched() {
    for path in [
        "/home/u/anaconda3/x",
        "/p/node_modules",
        "/home/u/.cache",
        "/tmp/x",
        "/home/u/.local/share",
        "C:/Program Files/x",
        "/p/__pycache__",
    ] {
        assert!(is_problematic_directory(path), "{}", path);
    }
    assert!(!is_problematic_directory("/home/u/project"));
    assert!(!is_problematic_directory("/tmp"));
}

#[test]
fn starting_a_watch_twice_gives_the_same_id() {
    let mut registry = WatchRegistry::new();
    let first = match registry.start_watching("/home/u/ws") {
        WatchRequest::Start(id) => id,
        other => panic!("unexpected {:?}", other),
    };
    registry.store_watcher(&first, "/home/u/ws");
    let second = match registry.start_watching("/home/u/ws") {
        WatchRequest::AlreadyWatching(id) => id,
        other => panic!("unexpected {:?}", other),
    };
    assert_eq!(first, second);
    assert_eq!(first, "/home/u/ws");
    assert_eq!(registry.get_watcher_stats(), (1, 1));
    assert_eq!(registry.list_watched_paths(), vec!["/home/u/ws".to_string()]);
    registry.store_watcher(&first, "/home/u/ws");
    assert_eq!(registry.get_watcher_stats(), (1, 1));
    match registry.start_watching("/home/u/node_modules") {
        WatchRequest::Ignored(id) => assert_eq!(id, "/home/u/node_modules"),
        other => panic!("unexpected {:?}", other),
    }
    assert_eq!(registry.stop_watching("/home/u/ws"), Some("/home/u/ws".to_string()));
    assert_eq!(registry.stop_watching("/home/u/ws"), None);
    assert_eq!(registry.get_watcher_stats(), (0, 0));
    assert!(matches!(registry.start_watching("/home/u/ws"), WatchRequest::Start(_)));
}

#[test]
fn the_registry_of_the_process_may_be_missing() {
    assert!(get_watched_paths(None).is_empty());
    assert_eq!(get_watcher_statistics(None), (0, 0));
    let mut registry = WatchRegistry::new();
    registry.store_watcher("a", "/a");
    registry.store_watcher("b", "/b");
    assert_eq!(get_watched_paths(Some(&registry)), vec!["/a".to_string(), "/b".to_string()]);
    assert_eq!(get_watcher_statistics(Some(&registry)), (2, 2));
}

#[test]
fn watch_failures_are_explained() {
    assert_eq!(format_watch_error("denied"), "Failed to start watching: denied");
    let limit = format_watch_error("No space left on device (os error 28)");
    assert!(limit.starts_with("inotify limit reached. Run our fix script:\n./fix_file_watcher.sh\n"));
    assert!(limit.contains("sudo sysctl fs.inotify.max_user_watches=524288"));
    assert!(limit.ends_with("Original error: No space left on device (os error 28)"));
    assert!(format_watch_error("too many open files").starts_with("inotify limit"));
    assert!(format_watch_error("OS file watch limit reached").starts_with("inotify limit"));
    assert_eq!(change_name(ChangeKind::Created), "created");
    assert_eq!(change_name(ChangeKind::Modified), "modified");
    assert_eq!(change_name(ChangeKind::Deleted), "deleted");
}

fn watched_directory(path: &str) -> TreeEntry {
    TreeEntry {
        failure: None,
        path: path.to_string(),
        name: path.rsplit('/').next().unwrap().to_string(),
        is_directory: true,
        is_file: false,
        extension: None,
        metadata: Ok(EntryMetadata { len: 0, modified: 1 }),
        children: Listing::NotRead,
    }
}

#[test]
fn the_cache_scan_goes_into_plain_directories_near_the_root() {
    assert!(cache_scan_descends(&watched_directory("/ws/src"), 0));
    assert!(cache_scan_descends(&watched_directory("/ws/src"), 4));
    assert!(!cache_scan_descends(&watched_directory("/ws/src"), 5));
    assert!(!cache_scan_descends(&TreeEntry { is_directory: false, is_file: true, ..watched_directory("/ws/a") }, 0));
    assert!(!cache_scan_descends(&TreeEntry { failure: Some("gone".to_string()), ..watched_directory("/ws/a") }, 0));
    assert!(!cache_scan_descends(&watched_directory("/ws/__pycache__"), 0));
}

#[test]
fn no_path_is_watched_twice() {
    let mut registry = WatchRegistry::new();
    registry.store_watcher("a", "/p");
    registry.store_watcher("b", "/p");
    assert_eq!(registry.get_watcher_stats(), (1, 1));
    assert_eq!(registry.list_watched_paths(), vec!["/p".to_string()]);
    assert_eq!(get_watched_paths(Some(&registry)), vec!["/p".to_string()]);
    registry.store_watcher("a", "/q");
    assert_eq!(registry.list_watched_paths(), vec!["/p".to_string()]);
    assert_eq!(registry.stop_watching("b"), None);
    assert_eq!(registry.stop_watching("a"), Some("/p".to_string()));
    registry.store_watcher("b", "/p");
    assert_eq!(registry.list_watched_paths(), vec!["/p".to_string()]);
    assert_eq!(registry.stop_watching("b"), Some("/p".to_string()));
    assert_eq!(registry.get_watcher_stats(), (0, 0));
}
