use syntari_desktop_lib::filesystem::file_ops::FileStep;
use syntari_desktop_lib::filesystem::scanning::EntryMetadata;
use syntari_desktop_lib::filesystem::service::{
    FilePathInterner, FilesystemService, PathHandle, ScanEntry, ScanMetadata,
};
use syntari_desktop_lib::file_utils::PathFacts;

#[test]
fn a_handle_resolves_to_the_path_it_was_given_for() {
    let mut interner = FilePathInterner::new();
    for path in ["/ws/a.rs", "", "/ws/zażółć", "/ws/b.rs"] {
        let handle = interner.intern_path(path);
        assert_eq!(interner.resolve_path(handle), Some(path.to_string()));
    }
    assert_eq!(interner.memory_stats(), (4, 4));
}

#[test]
fn interning_is_idempotent() {
    let mut interner = FilePathInterner::new();
    let a = interner.intern_path("/ws/a.rs");
    let b = interner.intern_path("/ws/b.rs");
    assert_ne!(a, b);
    assert_eq!(interner.intern_path("/ws/a.rs"), a);
    let resolved = interner.resolve_path(a).unwrap();
    assert_eq!(interner.intern_path(&resolved), a);
    assert_eq!(interner.memory_stats(), (2, 2));
    assert_eq!(a, PathHandle { index: 0 });
    assert_eq!(b, PathHandle { index: 1 });
}

#[test]
fn an_unknown_handle_resolves_to_nothing() {
    let mut interner = FilePathInterner::new();
    assert_eq!(interner.resolve_path(PathHandle { index: 0 }), None);
    interner.intern_path("x");
    assert_eq!(interner.resolve_path(PathHandle { index: 1 }), None);
    assert_eq!(interner.resolve_path(PathHandle { index: u32::MAX }), None);
    assert_eq!(interner.memory_stats(), (1, 1));
}

#[test]
fn paths_of_file_operations_are_checked() {
    let service = FilesystemService::new();
    assert!(service.validate_file_operation("read", "/ws/a.rs").is_ok());
    let e = service.validate_file_operation("read", "   ").unwrap_err();
    assert_eq!(e.code(), "EMPTY_PATH");
    assert_eq!(e.message(), "read operation failed: File path cannot be empty");
    let e = service.validate_file_operation("write", "/ws/a?.rs").unwrap_err();
    assert_eq!(e.code(), "INVALID_CHARS");
    assert_eq!(e.message(), "write operation failed: File path contains invalid characters");
    for bad in ["a<b", "a>b", "a:b", "a\"b", "a|b", "a*b"] {
        assert_eq!(service.validate_file_operation("x", bad).unwrap_err().code(), "INVALID_CHARS");
    }
    let long = "a".repeat(261);
    assert_eq!(service.validate_file_operation("x", &long).unwrap_err().code(), "PATH_TOO_LONG");
    assert!(service.validate_file_operation("x", &"a".repeat(260)).is_ok());
    assert!(!service.validate_file_operation("x", "").unwrap_err().is_recoverable());
}

#[test]
fn existence_is_answered_after_the_check() {
    let service = FilesystemService::new();
    let file = PathFacts { exists: true, is_dir: false, is_file: true };
    let dir = PathFacts { exists: true, is_dir: true, is_file: false };
    assert_eq!(service.file_exists("/a", file).unwrap(), true);
    assert_eq!(service.file_exists("/a", dir).unwrap(), false);
    assert_eq!(service.dir_exists("/a", dir).unwrap(), true);
    assert_eq!(service.dir_exists("/a", file).unwrap(), false);
    assert_eq!(service.file_exists("", file).unwrap_err().code(), "EMPTY_PATH");
    let m = service.get_file_metadata("/a", &Ok(EntryMetadata { len: 3, modified: 4 })).unwrap();
    assert_eq!(m, EntryMetadata { len: 3, modified: 4 });
    let e = service.get_file_metadata("/a", &Err("gone".to_string())).unwrap_err();
    assert_eq!(e.message(), "Failed to read file metadata: gone");
    assert_eq!(service.get_file_metadata("a|b", &Err("gone".to_string())).unwrap_err().code(), "INVALID_CHARS");
}

fn scanned(path: &str, components: usize, is_dir: bool, len: u64) -> ScanEntry {
    let name = path.rsplit('/').next().unwrap().to_string();
    ScanEntry {
        failure: None,
        path: path.to_string(),
        extension: name.rfind('.').filter(|i| *i > 0).map(|i| name[i + 1..].to_string()),
        name: Some(name),
        components,
        metadata: Some(ScanMetadata { is_dir, is_file: !is_dir, len, modified: Some(9) }),
    }
}

#[test]
fn an_optimised_scan_interns_paths_and_names() {
    let mut service = FilesystemService::new();
    let entries = vec![
        scanned("/ws", 2, true, 0),
        scanned("/ws/src", 3, true, 0),
        scanned("/ws/src/Main.RS", 4, false, 120),
        scanned("/ws/lib/src", 4, true, 0),
    ];
    let nodes = service.scan_directory_optimized("/ws", 2, &entries).unwrap();
    assert_eq!(nodes.len(), 4);
    assert_eq!(nodes[0].depth, 0);
    assert_eq!(nodes[2].depth, 2);
    assert!(nodes[1].is_directory && nodes[1].has_children);
    assert_eq!(nodes[1].size, None);
    assert_eq!(nodes[1].extension, None);
    assert_eq!(nodes[1].icon_id, "folder");
    assert_eq!(nodes[2].size, Some(120));
    assert_eq!(nodes[2].extension, Some("rs".to_string()));
    assert_eq!(nodes[2].icon_id, "rust");
    assert_eq!(nodes[2].last_modified, Some(9));
    assert_eq!(nodes[1].name_symbol, nodes[3].name_symbol);
    assert_ne!(nodes[1].path_symbol, nodes[3].path_symbol);
    let (scans, total, saved, stats) = service.get_performance_metrics();
    assert_eq!(scans, 1);
    assert_eq!(total, 4);
    assert_eq!(stats, (7, 7));
    let bytes: u64 = entries.iter().map(|e| (e.path.len() + e.name.as_ref().unwrap().len()) as u64).sum();
    assert_eq!(saved, bytes - 32);
    let again = service.scan_directory_optimized("/ws", 2, &entries).unwrap();
    assert_eq!(again[2].path_symbol, nodes[2].path_symbol);
    assert_eq!(service.get_performance_metrics().3, (7, 7));
    assert_eq!(service.get_performance_metrics().0, 2);
}

#[test]
fn an_optimised_scan_fails_with_the_walk() {
    let mut service = FilesystemService::new();
    let mut broken = scanned("/ws/x", 3, false, 1);
    broken.failure = Some("loop".to_string());
    let e = service.scan_directory_optimized("/ws", 2, &vec![scanned("/ws", 2, true, 0), broken]).unwrap_err();
    assert_eq!(e.code(), "WALK_ERROR");
    assert_eq!(e.message(), "Walk error: loop");
    let e = service.scan_directory_optimized("", 0, &Vec::new()).unwrap_err();
    assert_eq!(e.code(), "EMPTY_PATH");
    assert_eq!(e.message(), "directory_scan operation failed: File path cannot be empty");
    assert_eq!(service.get_performance_metrics().0, 1);
}

#[test]
fn icons_and_sizes_of_the_service() {
    let service = FilesystemService::new();
    assert_eq!(service.get_cached_icon_id(Some("tsx"), false), "tsx");
    assert_eq!(service.get_cached_icon_id(Some("yml"), false), "yaml");
    assert_eq!(service.get_cached_icon_id(Some("zip"), false), "file");
    assert_eq!(service.get_cached_icon_id(None, false), "file");
    assert_eq!(service.get_cached_icon_id(Some("rs"), true), "folder");
    assert_eq!(FilesystemService::format_file_size(2048), "2.0 KB");
    assert_eq!(service.is_safe_to_open("/a", 5), (true, None));
    assert!(!service.is_safe_to_open("/a", 70_000_000).0);
    let _ = FileStep::WriteNew;
}

#[test]
fn interning_is_offered_for_every_interner() {
    let mut interner = FilePathInterner::new();
    assert!(!interner.holds("/ws/a.rs"));
    let first = interner.try_intern_path("/ws/a.rs").unwrap();
    assert!(interner.holds("/ws/a.rs"));
    assert!(!interner.holds("/ws/a"));
    let other = interner.try_intern_path("/ws/b.rs").unwrap();
    assert_ne!(first, other);
    assert_eq!(interner.resolve_path(first), Some("/ws/a.rs".to_string()));
    let resolved = interner.resolve_path(first).unwrap();
    assert_eq!(interner.try_intern_path(&resolved), Some(first));
    assert_eq!(interner.intern_path(&resolved), first);
    assert_eq!(interner.memory_stats(), (2, 2));
}
