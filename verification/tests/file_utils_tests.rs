use syntari_desktop_lib::file_utils::{
    create_file_info_with_content, detect_language_from_extension, format_file_size,
    get_file_icon_id, is_safe_to_open, validate_directory, validate_file, validate_path_access,
    PathFacts,
};
use syntari_desktop_lib::filesystem::scanning::EntryMetadata;

fn float_size(size: u64) -> String {
    let units = ["B", "KB", "MB", "GB", "TB"];
    let mut value = size as f64;
    let mut unit = 0;
    while value >= 1024.0 && unit < units.len() - 1 {
        value /= 1024.0;
        unit += 1;
    }
    if unit == 0 {
        format!("{} {}", value as u64, units[unit])
    } else {
        format!("{:.1} {}", value, units[unit])
    }
}

#[test]
fn sizes_are_written_for_people() {
    assert_eq!(format_file_size(0), "0 B");
    assert_eq!(format_file_size(1023), "1023 B");
    assert_eq!(format_file_size(1024), "1.0 KB");
    assert_eq!(format_file_size(1536), "1.5 KB");
    assert_eq!(format_file_size(1_048_576), "1.0 MB");
    assert_eq!(format_file_size(2 * 1_073_741_824), "2.0 GB");
    assert_eq!(format_file_size(3 * 1_099_511_627_776), "3.0 TB");
    assert_eq!(format_file_size(5000 * 1_099_511_627_776), "5000.0 TB");
}

#[test]
fn sizes_agree_with_float_formatting() {
    for size in [
        1u64, 999, 1025, 1280, 10_000, 1_048_575, 1_048_577, 5_242_880, 123_456_789,
        1_073_741_823, 1_073_741_825, 987_654_321_012, 1_099_511_627_775, 44_444_444_444_444,
    ] {
        assert_eq!(format_file_size(size), float_size(size), "size {}", size);
    }
}

#[test]
fn opening_is_advised_by_size() {
    assert_eq!(is_safe_to_open(10), (true, None));
    assert_eq!(is_safe_to_open(1_048_576), (true, None));
    assert_eq!(
        is_safe_to_open(1_048_577),
        (true, Some("Large file (1.0 MB). Some features may be slower".to_string()))
    );
    assert_eq!(
        is_safe_to_open(67_108_864),
        (true, Some("Large file (64.0 MB). Some features may be slower".to_string()))
    );
    assert_eq!(
        is_safe_to_open(67_108_865),
        (false, Some("File too large (64.0 MB) to open safely".to_string()))
    );
}

#[test]
fn languages_are_told_from_extension_and_name() {
    assert_eq!(detect_language_from_extension(Some("rs"), Some("main.rs")), "rust");
    assert_eq!(detect_language_from_extension(Some("tsx"), Some("App.tsx")), "typescript");
    assert_eq!(detect_language_from_extension(Some("hpp"), Some("a.hpp")), "c");
    assert_eq!(detect_language_from_extension(Some("yml"), Some("ci.yml")), "yaml");
    assert_eq!(detect_language_from_extension(Some("RS"), Some("MAIN.RS")), "plaintext");
    assert_eq!(detect_language_from_extension(None, Some("Dockerfile")), "dockerfile");
    assert_eq!(detect_language_from_extension(None, Some("GNUmakefile")), "makefile");
    assert_eq!(detect_language_from_extension(Some("lock"), Some("Cargo.lock")), "toml");
    assert_eq!(detect_language_from_extension(Some("lock"), Some("Gemfile.lock")), "ruby");
    assert_eq!(detect_language_from_extension(None, Some("README")), "markdown");
    assert_eq!(detect_language_from_extension(None, None), "plaintext");
    assert_eq!(detect_language_from_extension(Some("xyz"), Some("a.xyz")), "plaintext");
}

#[test]
fn icons_follow_the_language() {
    assert_eq!(get_file_icon_id(Some("rs"), Some("main.rs"), true), "folder");
    assert_eq!(get_file_icon_id(Some("rs"), Some("main.rs"), false), "rust");
    assert_eq!(get_file_icon_id(Some("c"), Some("a.c"), false), "cpp");
    assert_eq!(get_file_icon_id(Some("toml"), Some("a.toml"), false), "config");
    assert_eq!(get_file_icon_id(Some("sql"), Some("a.sql"), false), "database");
    assert_eq!(get_file_icon_id(Some("ps1"), Some("a.ps1"), false), "terminal");
    assert_eq!(get_file_icon_id(None, Some("Makefile"), false), "gear");
    assert_eq!(get_file_icon_id(None, Some("notes"), false), "file");
}

#[test]
fn paths_are_checked_before_use() {
    let missing = PathFacts { exists: false, is_dir: false, is_file: false };
    let file = PathFacts { exists: true, is_dir: false, is_file: true };
    let dir = PathFacts { exists: true, is_dir: true, is_file: false };
    let e = validate_path_access("/x", missing, "reading").unwrap_err();
    assert_eq!(e.code(), "PATH_NOT_FOUND");
    assert_eq!(e.message(), "Path does not exist for reading");
    assert_eq!(e.render(), "[PATH_NOT_FOUND] Path does not exist for reading");
    let e = validate_path_access("/x", file, "reading").unwrap_err();
    assert_eq!(e.code(), "NOT_A_DIRECTORY");
    assert!(validate_path_access("/x", dir, "reading").is_ok());
    assert_eq!(validate_path_access("/x", dir, "file").unwrap_err().code(), "NOT_A_FILE");
    assert!(validate_directory("/x", dir).is_ok());
    assert_eq!(validate_directory("/x", missing).unwrap_err().message(), "Path does not exist for directory access");
    assert_eq!(validate_file("/x", dir).unwrap_err().code(), "NOT_A_FILE");
    assert_eq!(validate_file("/x", file).unwrap_err().code(), "NOT_A_DIRECTORY");
}

#[test]
fn files_are_described() {
    let file = PathFacts { exists: true, is_dir: false, is_file: true };
    let metadata = Ok(EntryMetadata { len: 12, modified: 99 });
    let info = create_file_info_with_content(
        "/p/main.rs",
        Some("main.rs"),
        Some("rs"),
        file,
        &metadata,
        Some("fn main() {}"),
    )
    .unwrap();
    assert_eq!(info.path, "/p/main.rs");
    assert_eq!(info.name, "main.rs");
    assert_eq!(info.extension, "rs");
    assert_eq!(info.size, 12);
    assert_eq!(info.last_modified, 99);
    assert_eq!(info.content, Some("fn main() {}".to_string()));
    assert_eq!(info.language, Some("rust".to_string()));

    let missing = PathFacts { exists: false, is_dir: false, is_file: false };
    let e = create_file_info_with_content("/p/x", None, None, missing, &metadata, None).unwrap_err();
    assert_eq!(e.code(), "FILE_NOT_FOUND");
    let unreadable = Err("denied".to_string());
    let e = create_file_info_with_content("/p/x", None, None, file, &unreadable, None).unwrap_err();
    assert_eq!(e.code(), "METADATA_READ_FAILED");
    assert_eq!(e.message(), "Failed to read file metadata: denied");
    let bare = create_file_info_with_content("/p/x", None, None, file, &metadata, None).unwrap();
    assert_eq!(bare.name, "unknown");
    assert_eq!(bare.extension, "");
    assert_eq!(bare.content, None);
}
