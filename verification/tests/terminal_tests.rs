use syntari_desktop_lib::terminal::commands::{
    change_directory, command_result, export_terminal_session, hostname_or_default, list_directory,
    reported_shell, request_terminal_ai_assist, session_shell, should_flush, sort_names,
    terminal_directory, terminal_size, username_or_default, ChannelEvent, DirectoryFacts,
    OutputBuffer, OutputRead, ReadStep, TerminalManager, TerminalSize,
};

#[test]
fn output_is_flushed_by_size_time_or_prompt() {
    assert!(!should_flush(0, 1000, ""));
    assert!(should_flush(32, 0, "x"));
    assert!(!should_flush(31, 0, "x"));
    assert!(should_flush(2000, 0, "x"));
    assert!(should_flush(1, 50, "x"));
    assert!(!should_flush(1, 49, "x"));
    assert!(should_flush(3, 0, "a\nb"));
    assert!(should_flush(3, 0, "u $"));
    assert!(should_flush(3, 0, "# x"));
    assert!(should_flush(3, 0, "a>b"));
    assert!(should_flush(9, 0, "password:"));
    assert!(!should_flush(10, 0, "password: "));
    assert!(!should_flush(10, 0, "ab"));
}

#[test]
fn the_reader_gathers_until_a_flush_is_due() {
    let mut buffer = OutputBuffer::new();
    assert_eq!(buffer.on_chunk("ab", 0), None);
    assert_eq!(buffer.on_chunk("cd", 10), None);
    assert_eq!(buffer.on_chunk("e\n", 10), Some("abcde\n".to_string()));
    assert_eq!(buffer.on_chunk("x", 60), Some("x".to_string()));
    assert_eq!(buffer.on_chunk(&"y".repeat(32), 0), Some("y".repeat(32)));
    assert_eq!(buffer.on_chunk("z", 0), None);
    assert_eq!(buffer.on_read_error(29), None);
    assert_eq!(buffer.on_read_error(30), Some("z".to_string()));
    assert_eq!(buffer.on_read_error(100), None);
    assert_eq!(buffer.on_eof(), None);
    assert_eq!(buffer.on_chunk("tail", 0), None);
    assert_eq!(buffer.on_eof(), Some("tail".to_string()));
    assert_eq!(buffer.on_eof(), None);
}

#[test]
fn a_read_batches_what_has_arrived() {
    let mut read = OutputRead::new();
    assert_eq!(read.take(ChannelEvent::Empty, 0, 2000), ReadStep::Pause(10));
    assert_eq!(read.take(ChannelEvent::Empty, 199, 2000), ReadStep::Pause(10));
    assert_eq!(read.take(ChannelEvent::Chunk("hel".to_string()), 50, 2000), ReadStep::Again);
    assert_eq!(read.take(ChannelEvent::Chunk("lo".to_string()), 50, 2000), ReadStep::Again);
    assert_eq!(read.take(ChannelEvent::Empty, 50, 2000), ReadStep::Done);
    assert_eq!(read.finish(), "hello");

    let mut idle = OutputRead::new();
    assert_eq!(idle.take(ChannelEvent::Empty, 200, 2000), ReadStep::Done);
    assert_eq!(idle.take(ChannelEvent::Empty, 100, 100), ReadStep::Done);
    assert_eq!(idle.take(ChannelEvent::Empty, 99, 100), ReadStep::Pause(10));
    assert_eq!(idle.take(ChannelEvent::Empty, 0, 0), ReadStep::Done);
    assert_eq!(idle.take(ChannelEvent::Disconnected, 0, 100), ReadStep::Disconnected);
    assert_eq!(idle.finish(), "");

    let mut busy = OutputRead::new();
    for i in 0..19 {
        assert_eq!(busy.take(ChannelEvent::Chunk("x".to_string()), i, 2000), ReadStep::Again);
    }
    assert_eq!(busy.take(ChannelEvent::Chunk("x".to_string()), 19, 2000), ReadStep::Done);
    assert_eq!(busy.finish().len(), 20);
}

#[test]
fn sessions_are_kept_until_they_are_closed() {
    let mut manager = TerminalManager::new();
    let id = manager.create_session("/tmp", "/bin/bash", 100);
    assert_eq!(id.len(), 36);
    let other = manager.create_session("/home", "/bin/zsh", 101);
    assert_ne!(id, other);
    {
        let info = manager.get_session_info(&id).unwrap();
        assert_eq!(info.id, id);
        assert_eq!(info.shell, "/bin/bash");
        assert_eq!(info.working_directory, "/tmp");
        assert_eq!((info.created_at, info.last_activity), (100, 100));
        assert!(info.is_active);
    }
    assert!(manager.send_input(&id, 105).is_ok());
    assert_eq!(manager.get_session_info(&id).unwrap().last_activity, 105);
    assert_eq!(manager.read_output(&id, String::new(), 110).unwrap(), "");
    assert_eq!(manager.get_session_info(&id).unwrap().last_activity, 105);
    assert_eq!(manager.read_output(&id, "hello".to_string(), 111).unwrap(), "hello");
    assert_eq!(manager.get_session_info(&id).unwrap().last_activity, 111);
    assert_eq!(manager.get_session_info(&id).unwrap().created_at, 100);
    assert_eq!(manager.resize_session(&id, 80, 24).unwrap(), TerminalSize { cols: 80, rows: 24 });
    let listed: Vec<String> = manager.list_sessions().unwrap().iter().map(|s| s.id.clone()).collect();
    assert_eq!(listed, vec![id.clone(), other.clone()]);

    assert!(manager.close_session(&id).is_ok());
    let missing = format!("Session {} not found", id);
    assert_eq!(manager.send_input(&id, 1).unwrap_err(), missing);
    assert_eq!(manager.read_output(&id, "x".to_string(), 1).unwrap_err(), missing);
    assert_eq!(manager.resize_session(&id, 1, 1).unwrap_err(), missing);
    assert_eq!(manager.get_session_info(&id).unwrap_err(), missing);
    assert!(manager.close_session(&id).is_ok());
    assert_eq!(manager.list_sessions().unwrap().len(), 1);
}

#[test]
fn shells_and_sizes_have_defaults() {
    assert_eq!(terminal_size(None, None), TerminalSize { cols: 100, rows: 30 });
    assert_eq!(terminal_size(Some(80), None), TerminalSize { cols: 80, rows: 30 });
    assert_eq!(terminal_size(None, Some(24)), TerminalSize { cols: 100, rows: 24 });
    assert_eq!(session_shell(false, Some("/bin/zsh")), "/bin/zsh");
    assert_eq!(session_shell(false, None), "/bin/bash");
    assert_eq!(session_shell(true, None), "cmd.exe");
    assert_eq!(session_shell(true, Some("C:\\pwsh.exe")), "C:\\pwsh.exe");
    assert_eq!(reported_shell(false, None), "/bin/sh");
    assert_eq!(reported_shell(true, None), "cmd.exe");
    assert_eq!(username_or_default(None), "user");
    assert_eq!(username_or_default(Some("ada")), "ada");
    assert_eq!(hostname_or_default(None), "localhost");
    assert_eq!(hostname_or_default(Some("box")), "box");
}

#[test]
fn commands_report_exit_code_zero() {
    let r = command_result("hello\n".to_string());
    assert_eq!(r.output, "hello\n");
    assert_eq!(r.exit_code, 0);
}

#[test]
fn a_session_is_exported_as_text() {
    let mut manager = TerminalManager::new();
    let id = manager.create_session("/tmp", "/bin/bash", 1700000000);
    manager.send_input(&id, 1700000005).unwrap();
    let text = export_terminal_session(manager.get_session_info(&id).unwrap());
    let expected = format!(
        "Terminal Session Export\n======================\nSession ID: {}\nShell: /bin/bash\nWorking Directory: /tmp\nCreated: 1700000000\nLast Activity: 1700000005\n\nNote: This is a session metadata export.\nFor full terminal history, use the screenshot feature.\n",
        id
    );
    assert_eq!(text, expected);
    assert_eq!(terminal_directory(true), vec!["Syntari", "terminal-exports"]);
    assert_eq!(terminal_directory(false), vec!["Syntari", "terminal-screenshots"]);
}

#[test]
fn the_assistant_counts_the_context() {
    let text = request_terminal_ai_assist("ls -la").unwrap();
    assert!(text.starts_with("AI Assistant Response:\nBased on your terminal context"));
    assert!(text.ends_with("Context received: 6 characters"));
    assert!(request_terminal_ai_assist("").unwrap().ends_with("Context received: 0 characters"));
}

#[test]
fn directories_are_listed_in_order() {
    let dir = DirectoryFacts { exists: true, is_dir: true };
    let names = Ok(vec!["b".to_string(), "A".to_string(), "a".to_string(), "ab".to_string(), "B".to_string()]);
    let listed = list_directory("/d", dir, &names).unwrap();
    let mut expected = vec!["b".to_string(), "A".to_string(), "a".to_string(), "ab".to_string(), "B".to_string()];
    expected.sort();
    assert_eq!(listed, expected);
    assert_eq!(listed, vec!["A", "B", "a", "ab", "b"]);
    let unicode = vec!["é".to_string(), "z".to_string(), "".to_string(), "ż".to_string()];
    let mut sorted = unicode.clone();
    sorted.sort();
    assert_eq!(sort_names(&unicode), sorted);
    let missing = DirectoryFacts { exists: false, is_dir: false };
    assert_eq!(list_directory("/d", missing, &names).unwrap_err(), "Directory does not exist: /d");
    let file = DirectoryFacts { exists: true, is_dir: false };
    assert_eq!(list_directory("/d", file, &names).unwrap_err(), "Path is not a directory: /d");
    assert_eq!(list_directory("/d", dir, &Err("Failed to read directory: x".to_string())).unwrap_err(), "Failed to read directory: x");
    assert_eq!(change_directory("/d", dir, &Ok(())).unwrap(), "/d");
    assert_eq!(change_directory("/d", dir, &Err("no".to_string())).unwrap_err(), "Failed to change directory: no");
    assert_eq!(change_directory("/d", missing, &Ok(())).unwrap_err(), "Directory does not exist: /d");
}
