use syntari_desktop_lib::errors::ErrorCategory;
use syntari_desktop_lib::filesystem::file_ops::{
    after_step, copy_file, create_file, delete_file, get_app_data_dir, move_file, plan_create,
    plan_delete, read_file, read_file_smart, rejects_traversal, save_file, smart_read,
    validate_path_security, wants_bytes, write_file, DeleteFacts, FileStep, PathResolution,
    TargetFacts, TransferFacts,
};

const MIB: u64 = 1_048_576;

#[test]
fn warning_starts_above_one_mebibyte() {
    let bytes = b"hello".to_vec();
    assert!(smart_read(MIB, &bytes).warning.is_none());
    let r = smart_read(MIB + 1, &bytes);
    assert_eq!(r.warning, Some("Large file (1.0 MB). Some features may be slower.".to_string()));
    assert_eq!(r.content, Some("hello".to_string()));
}

#[test]
fn hex_mode_starts_above_sixty_four_mebibytes() {
    let bytes = b"hello".to_vec();
    let at = smart_read(64 * MIB, &bytes);
    assert!(!at.should_use_hex_mode);
    assert_eq!(at.content, Some("hello".to_string()));
    let above = smart_read(64 * MIB + 1, &bytes);
    assert!(above.should_use_hex_mode);
    assert!(!above.is_too_large);
    assert!(!above.is_binary);
    assert!(above.content.is_none());
    assert_eq!(
        above.warning,
        Some("Large file (64.0 MB). Opening in read-only hex mode for performance.".to_string())
    );
    assert!(wants_bytes(64 * MIB));
    assert!(!wants_bytes(64 * MIB + 1));
}

#[test]
fn too_large_starts_above_two_hundred_fifty_six_mebibytes() {
    let bytes: Vec<u8> = Vec::new();
    let at = smart_read(256 * MIB, &bytes);
    assert!(!at.is_too_large);
    assert!(at.should_use_hex_mode);
    let above = smart_read(256 * MIB + 1, &bytes);
    assert!(above.is_too_large);
    assert!(!above.should_use_hex_mode);
    assert!(above.content.is_none());
    assert_eq!(
        above.warning,
        Some("File too large (256.0 MB). Maximum supported size is 256 MB.".to_string())
    );
}

#[test]
fn smart_read_of_a_two_mebibyte_binary_file() {
    let mut bytes = vec![b'a'; 2_097_152];
    bytes[100] = 0;
    let checked = validate_path_security(
        "/tmp/bin.dat",
        &PathResolution::Canonical("/tmp/bin.dat".to_string()),
    );
    let r = read_file_smart(&checked, &Ok(2_097_152), &Ok(bytes));
    assert!(r.success);
    assert!(r.error.is_none());
    let data = r.data.unwrap();
    assert!(data.is_binary);
    assert!(data.content.is_none());
    assert_eq!(data.size, 2_097_152);
    assert!(!data.is_too_large);
    assert!(!data.should_use_hex_mode);
    assert_eq!(data.warning, Some("Large file (2.0 MB). Some features may be slower.".to_string()));
}

#[test]
fn a_zero_byte_behind_the_sniffed_part_is_not_binary() {
    let mut bytes = vec![b'a'; 9000];
    bytes[8192] = 0;
    let r = smart_read(9000, &bytes);
    assert!(!r.is_binary);
    assert!(r.content.is_some());
    bytes[8191] = 0;
    assert!(smart_read(9000, &bytes).is_binary);
}

#[test]
fn invalid_utf8_is_read_lossily() {
    let bytes = vec![b'a', 0xff, b'b'];
    let r = smart_read(3, &bytes);
    assert!(!r.is_binary);
    assert_eq!(r.content, Some("a\u{fffd}b".to_string()));
    let valid = "żółw".as_bytes().to_vec();
    assert_eq!(smart_read(valid.len() as u64, &valid).content, Some("żółw".to_string()));
}

#[test]
fn failures_of_the_guarded_read() {
    let refused = validate_path_security("../x", &PathResolution::NoParent);
    let bytes: Result<Vec<u8>, String> = Ok(Vec::new());
    let r = read_file_smart(&refused, &Ok(1), &bytes);
    assert!(!r.success);
    assert_eq!(
        r.error,
        Some("[INVALID_INPUT] Security validation failed: Path traversal not allowed: contains '..'".to_string())
    );
    let ok = validate_path_security("/a", &PathResolution::Canonical("/a".to_string()));
    let r = read_file_smart(&ok, &Err("gone".to_string()), &bytes);
    assert_eq!(r.error, Some("[METADATA_READ_FAILED] Failed to read file metadata: gone".to_string()));
    let r = read_file_smart(&ok, &Ok(5), &Err("denied".to_string()));
    assert_eq!(r.error, Some("[FILE_READ_FAILED] Failed to read file: denied".to_string()));
    let r = read_file_smart(&ok, &Ok(300 * MIB), &Err("not read".to_string()));
    assert!(r.success);
    assert!(r.data.unwrap().is_too_large);
}

#[test]
fn plain_read_is_built_on_the_guarded_read() {
    let ok = validate_path_security("/a", &PathResolution::Canonical("/a".to_string()));
    let text = read_file(&read_file_smart(&ok, &Ok(2), &Ok(b"hi".to_vec())));
    assert!(text.success);
    assert_eq!(text.data, Some("hi".to_string()));
    let binary = read_file(&read_file_smart(&ok, &Ok(2), &Ok(vec![0, 1])));
    assert_eq!(binary.error, Some("[BINARY_FILE] Cannot read binary file as text".to_string()));
    let large = read_file(&read_file_smart(&ok, &Ok(257 * MIB), &Ok(Vec::new())));
    assert_eq!(large.error, Some("[FILE_TOO_LARGE] File too large to read".to_string()));
    let hex = read_file(&read_file_smart(&ok, &Ok(65 * MIB), &Ok(Vec::new())));
    assert_eq!(hex.error, Some("[NO_CONTENT] No content available".to_string()));
    let failed = read_file(&read_file_smart(&ok, &Err("gone".to_string()), &Ok(Vec::new())));
    assert_eq!(failed.error, Some("[METADATA_READ_FAILED] Failed to read file metadata: gone".to_string()));
}

#[test]
fn path_security_rejection() {
    let refused = validate_path_security(
        "../../etc/passwd",
        &PathResolution::Canonical("/etc/passwd".to_string()),
    );
    let e = refused.as_ref().unwrap_err();
    assert_eq!(e.category(), ErrorCategory::Validation);
    assert_eq!(e.message(), "Path traversal not allowed: contains '..'");
    let r = save_file(&refused, &Ok(()));
    assert!(!r.success);
    assert!(r.data.is_none());
    assert_eq!(
        r.error,
        Some("[INVALID_INPUT] Security validation failed: Path traversal not allowed: contains '..'".to_string())
    );
    assert!(rejects_traversal("a/../b"));
    assert!(rejects_traversal(".."));
    assert!(rejects_traversal("../a"));
    assert!(rejects_traversal("a/.."));
    assert!(rejects_traversal("a\\..\\b"));
    assert!(!rejects_traversal("a..b"));
    assert!(!rejects_traversal("notes..md"));
    assert!(!rejects_traversal("a/..b/c"));
    assert!(!rejects_traversal("a/b../c"));
    assert!(!rejects_traversal("a/.../c"));
    assert!(!rejects_traversal(""));
    assert!(!rejects_traversal("."));
    assert!(!rejects_traversal("a/./b"));
}

#[test]
fn the_guard_resolves_or_refuses() {
    let through = validate_path_security("/home/u/a.txt", &PathResolution::Canonical("/home/u/a.txt".to_string()));
    assert_eq!(through.unwrap(), "/home/u/a.txt");
    let joined = validate_path_security("new.txt", &PathResolution::Joined("/home/u/new.txt".to_string()));
    assert_eq!(joined.unwrap(), "/home/u/new.txt");
    for system in ["/etc/hosts", "/proc/1/maps", "/sys/kernel", "C:\\Windows\\x", "C:\\System32\\y"] {
        let e = validate_path_security("link", &PathResolution::Canonical(system.to_string())).unwrap_err();
        assert_eq!(e.message(), "Access to system directories is not allowed");
        assert_eq!(e.category(), ErrorCategory::Validation);
    }
    let inside = validate_path_security("x", &PathResolution::Canonical("/home/u/etc/x".to_string()));
    assert!(inside.is_ok());
    assert_eq!(
        validate_path_security("x", &PathResolution::NoFileName).unwrap_err().message(),
        "Invalid file path"
    );
    assert_eq!(
        validate_path_security("x", &PathResolution::ParentInaccessible).unwrap_err().message(),
        "Parent directory is not accessible"
    );
    assert_eq!(
        validate_path_security("x", &PathResolution::NoParent).unwrap_err().message(),
        "Invalid file path: no parent directory"
    );
}

#[test]
fn saving_answers_what_the_write_gave() {
    let ok = validate_path_security("/a", &PathResolution::Canonical("/a".to_string()));
    let saved = save_file(&ok, &Ok(()));
    assert_eq!(saved.data, Some("File saved successfully".to_string()));
    let failed = write_file(&ok, &Err("disk full".to_string()));
    assert_eq!(failed.error, Some("[FILE_WRITE_FAILED] Failed to save file: disk full".to_string()));
}

#[test]
fn creating_a_file() {
    let free = TargetFacts { exists: false, parent_missing: true };
    assert_eq!(plan_create(free), vec![FileStep::CreateParents, FileStep::WriteNew]);
    assert_eq!(plan_create(TargetFacts { exists: false, parent_missing: false }), vec![FileStep::WriteNew]);
    assert_eq!(plan_create(TargetFacts { exists: true, parent_missing: false }), Vec::<FileStep>::new());
    assert_eq!(create_file("/a/b", free, &Ok(()), &Ok(())).unwrap(), "File created: /a/b");
    let taken = TargetFacts { exists: true, parent_missing: false };
    let e = create_file("/a/b", taken, &Ok(()), &Ok(())).unwrap_err();
    assert_eq!(e.code(), "FS_ALREADY_EXISTS");
    assert_eq!(e.message(), "File already exists: /a/b");
    let e = create_file("/a/b", free, &Err("denied".to_string()), &Ok(())).unwrap_err();
    assert_eq!(e.message(), "Failed to create parent directories: denied");
    let e = create_file("/a/b", free, &Ok(()), &Err("full".to_string())).unwrap_err();
    assert_eq!(e.message(), "Failed to create file: full");
}

#[test]
fn deleting_plans_by_kind_and_force() {
    let ok = validate_path_security("/a", &PathResolution::Canonical("/a".to_string()));
    let file = DeleteFacts { exists: true, is_directory: Ok(false) };
    let dir = DeleteFacts { exists: true, is_directory: Ok(true) };
    assert_eq!(plan_delete("/a", &ok, &file, Some(true)).unwrap(), FileStep::RemoveFile);
    assert_eq!(plan_delete("/a", &ok, &dir, None).unwrap(), FileStep::RemoveEmptyDirectory);
    assert_eq!(plan_delete("/a", &ok, &dir, Some(false)).unwrap(), FileStep::RemoveEmptyDirectory);
    assert_eq!(plan_delete("/a", &ok, &dir, Some(true)).unwrap(), FileStep::RemoveDirectoryTree);
    let gone = DeleteFacts { exists: false, is_directory: Ok(false) };
    let e = plan_delete("/a", &ok, &gone, None).unwrap_err();
    assert_eq!(e.message(), "File or directory does not exist: /a");
    let unreadable = DeleteFacts { exists: true, is_directory: Err("io".to_string()) };
    assert_eq!(plan_delete("/a", &ok, &unreadable, None).unwrap_err().message(), "Failed to access file: io");
    let refused = validate_path_security("/a/..", &PathResolution::NoParent);
    let e = plan_delete("/a/..", &refused, &file, None).unwrap_err();
    assert_eq!(e.category(), ErrorCategory::Validation);
}

#[test]
fn a_deletion_is_made_known_only_when_it_succeeded() {
    let done = delete_file("/ws/a.txt", FileStep::RemoveFile, false, 42, &Ok(()));
    assert_eq!(done.answer.unwrap(), "File deleted: /ws/a.txt");
    assert_eq!(done.emissions.len(), 2);
    assert_eq!(done.emissions[0].stream, "file-system-change");
    assert_eq!(done.emissions[1].stream, "file-deleted");
    for m in &done.emissions {
        assert_eq!(m.event.event_type, "deleted");
        assert_eq!(m.event.path, "/ws/a.txt");
        assert!(!m.event.is_directory);
        assert_eq!(m.event.timestamp, 42);
    }
    let dir = delete_file("/ws/d", FileStep::RemoveDirectoryTree, true, 1, &Ok(()));
    assert_eq!(dir.answer.unwrap(), "Directory deleted: /ws/d");
    assert!(dir.emissions[0].event.is_directory);
    let failed = delete_file("/ws/d", FileStep::RemoveEmptyDirectory, true, 1, &Err("not empty".to_string()));
    assert_eq!(
        failed.answer.unwrap_err().message(),
        "Failed to delete directory (may not be empty): not empty"
    );
    assert!(failed.emissions.is_empty());
    let failed = delete_file("/ws/f", FileStep::RemoveFile, false, 1, &Err("busy".to_string()));
    assert_eq!(failed.answer.unwrap_err().message(), "Failed to delete file: busy");
    let failed = delete_file("/ws/f", FileStep::RemoveDirectoryTree, true, 1, &Err("busy".to_string()));
    assert_eq!(failed.answer.unwrap_err().message(), "Failed to delete directory: busy");
}

#[test]
fn copying_and_moving() {
    let facts = TransferFacts {
        source_exists: true,
        source_is_directory: false,
        target_exists: false,
        target_parent_missing: true,
    };
    assert_eq!(copy_file("/a", "/b/c", facts).unwrap(), vec![FileStep::CreateParents, FileStep::CopyFile]);
    assert_eq!(move_file("/a", "/b/c", facts).unwrap(), vec![FileStep::CreateParents, FileStep::Rename]);
    let dir = TransferFacts { source_is_directory: true, target_parent_missing: false, ..facts };
    assert_eq!(copy_file("/a", "/b", dir).unwrap(), vec![FileStep::CopyDirectory]);
    assert_eq!(move_file("/a", "/b", dir).unwrap(), vec![FileStep::Rename]);
    let missing = TransferFacts { source_exists: false, ..facts };
    assert_eq!(copy_file("/a", "/b", missing).unwrap_err().message(), "Source file does not exist: /a");
    let taken = TransferFacts { target_exists: true, ..facts };
    assert_eq!(move_file("/a", "/b", taken).unwrap_err().message(), "Target file already exists: /b");

    assert!(after_step(FileStep::CreateParents, "/b", &Ok(())).is_none());
    assert_eq!(after_step(FileStep::CopyFile, "/b", &Ok(())).unwrap().unwrap(), "File copied to /b");
    assert_eq!(after_step(FileStep::CopyDirectory, "/b", &Ok(())).unwrap().unwrap(), "Directory copied to /b");
    assert_eq!(after_step(FileStep::Rename, "/b", &Ok(())).unwrap().unwrap(), "File moved to /b");
    let e = after_step(FileStep::Rename, "/b", &Err("cross-device".to_string())).unwrap().unwrap_err();
    assert_eq!(e.message(), "Failed to move file: cross-device");
    let e = after_step(FileStep::CreateParents, "/b", &Err("x".to_string())).unwrap().unwrap_err();
    assert_eq!(e.message(), "Failed to create parent directories: x");
}

#[test]
fn the_data_directory_is_answered_once_it_exists() {
    assert_eq!(get_app_data_dir(&Ok("/d".to_string()), &Ok(())).unwrap(), "/d");
    let e = get_app_data_dir(&Ok("/d".to_string()), &Err("ro".to_string())).unwrap_err();
    assert_eq!(e.message(), "Failed to create app data directory: ro");
    let e = get_app_data_dir(&Err("none".to_string()), &Ok(())).unwrap_err();
    assert_eq!(e.message(), "Failed to get app data directory: none");
}
