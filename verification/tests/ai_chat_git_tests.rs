use syntari_desktop_lib::ai::commands::{
    classify_prompt, contextual_prompt, create_smart_mock_response, estimate_tokens,
    generate_ai_response, generate_code_response, generate_debug_response,
    generate_explanation_response, generate_general_response, generate_optimization_response,
    PromptKind,
};
use syntari_desktop_lib::ai::context7::{get_library_docs, resolve_library_id};
use syntari_desktop_lib::ai::providers::{ClaudeProvider, GeminiProvider, OpenAiProvider};
use syntari_desktop_lib::ai::types::{AiApiResponse, AiProvider, AiRequest, AiResponse, ConsensusResult};
use syntari_desktop_lib::chat::commands::{create_chat_session, get_chat_session, send_chat_message};
use syntari_desktop_lib::chat::types::{AiPreferences, ChatMessage, ChatSession};
use syntari_desktop_lib::filesystem::git_commands::{
    git_error, git_get_branches, git_get_commits, git_get_diff, git_get_status,
    git_initialize_repo, relative_path, BranchFacts, CommitFacts, DiffLine, RepositoryFacts,
    StatusEntry, StatusFlags,
};
use syntari_desktop_lib::project::types::ProjectContext;
use syntari_desktop_lib::state_collections::{Entries, Payload};

#[test]
fn tokens_are_estimated_by_length() {
    assert_eq!(estimate_tokens(""), 1);
    assert_eq!(estimate_tokens("abc"), 1);
    assert_eq!(estimate_tokens("abcdefgh"), 2);
    assert_eq!(estimate_tokens(&"x".repeat(4003)), 1000);
    assert_eq!(estimate_tokens("éééé"), 2);
}

#[test]
fn prompts_are_answered_by_what_they_ask_for() {
    assert_eq!(classify_prompt("please explain the code"), PromptKind::Explanation);
    assert_eq!(classify_prompt("write a function"), PromptKind::Code);
    assert_eq!(classify_prompt("fix this"), PromptKind::Debugging);
    assert_eq!(classify_prompt("better performance"), PromptKind::Optimization);
    assert_eq!(classify_prompt("hello"), PromptKind::General);
    let rust = ProjectContext::new("/ws", "rust");
    let other = ProjectContext::new("/ws", "go");
    assert_eq!(
        generate_explanation_response("What is Rust?", &rust),
        "Based on your rust project, here's an explanation:\n\nRust is a systems programming language focused on safety and performance. It provides zero-cost abstractions and memory safety without garbage collection.\n\nThis response takes into account your project structure and dependencies."
    );
    assert!(generate_explanation_response("explain TypeScript", &other).contains("TypeScript adds static typing"));
    assert!(generate_explanation_response("explain", &other).contains("I'd be happy to explain"));
    assert!(generate_code_response("x", &rust).contains("```rust\n// Example implementation\nfn example_function()"));
    assert!(generate_code_response("x", &ProjectContext::new("/", "typescript")).contains("Promise.resolve"));
    assert!(generate_code_response("x", &other).starts_with("Here's a code implementation for your go project:\n\n```\n"));
    assert!(generate_debug_response("an ERROR", &rust).contains("1. **Identify the Problem**: The error suggests"));
    assert!(generate_debug_response("odd", &rust).contains("We need to understand the unexpected behavior"));
    assert!(generate_optimization_response("x", &rust).contains("\u{2022} Use `cargo clippy`"));
    assert!(generate_optimization_response("x", &other).contains("\u{2022} Profile the application"));
    assert_eq!(
        generate_general_response("hi", &other),
        "I understand you're asking about: \"hi\"\n\nFor your go project, I can help with:\n\u{2022} Code implementation and best practices\n\u{2022} Debugging and troubleshooting\n\u{2022} Performance optimization\n\u{2022} Architecture decisions\n\u{2022} Library recommendations\n\nCould you provide more specific details about what you'd like to accomplish?"
    );
}

#[test]
fn the_stand_in_answers_every_request() {
    let request = AiRequest::new("r1", "Explain lifetimes");
    let context = ProjectContext::new("/ws", "rust");
    let priced = contextual_prompt(&context, "Explain lifetimes");
    assert_eq!(
        priced,
        "Project Type: rust\nProject Path: /ws\nUser Query: Explain lifetimes\n\nPlease provide a helpful response."
    );
    let consensus = create_smart_mock_response(&request, &priced, &context).unwrap();
    assert_eq!(consensus.best_response.request_id, "r1");
    assert_eq!(consensus.best_response.provider, "syntari-ai-consensus");
    assert_eq!(consensus.best_response.confidence, 920);
    assert_eq!(consensus.confidence_score, 920);
    assert_eq!(consensus.best_response.response_time, 800);
    assert_eq!(consensus.best_response.cost, (priced.len() as u64 / 4) * 370);
    assert_eq!(consensus.total_cost, consensus.best_response.cost);
    assert!(consensus.alternative_responses.is_empty());
    assert_eq!(consensus.reasoning, "Multi-model consensus with cost optimization and quality assurance");
    assert_eq!(consensus.best_response.content, generate_explanation_response("Explain lifetimes", &context));
    let envelope = generate_ai_response(&request, None);
    assert!(envelope.success);
    let data = envelope.data.unwrap();
    assert!(data.best_response.content.starts_with("Based on your unknown project"));
    let unknown = "Project Type: unknown\nProject Path: /tmp/unknown\nUser Query: Explain lifetimes\n\nPlease provide a helpful response.";
    assert_eq!(data.total_cost, (unknown.len() as u64 / 4) * 370);
}

#[test]
fn records_are_built_step_by_step() {
    let p = AiProvider::new("id", "Name", "kind").with_cost(5).with_latency(7).with_specialties(vec!["a".to_string()]);
    assert_eq!((p.id.as_str(), p.name.as_str(), p.provider_type.as_str()), ("id", "Name", "kind"));
    assert!(p.is_available);
    assert_eq!((p.cost_per_token, p.latency), (5, 7));
    assert_eq!(p.specialties, vec!["a"]);
    assert!(!p.with_availability(false).is_available);
    let r = AiRequest::new("i", "p").with_provider("x").with_max_tokens(9).with_temperature(700)
        .with_context(ProjectContext::new("/", "go"));
    assert_eq!(r.provider, Some("x".to_string()));
    assert_eq!(r.max_tokens, Some(9));
    assert_eq!(r.temperature, Some(700));
    assert_eq!(r.context.unwrap().project_type, "go");
    let a = AiResponse::new("rq", "prov", "text").with_confidence(1).with_cost(2).with_response_time(3);
    assert_eq!(a.id.len(), 36);
    assert_eq!((a.confidence, a.cost, a.response_time), (1, 2, 3));
    let c = ConsensusResult::single_response(a, "why").with_alternatives(vec![AiResponse::new("rq", "p2", "t2")]);
    assert_eq!(c.confidence_score, 1);
    assert_eq!(c.total_cost, 2);
    assert_eq!(c.alternative_responses.len(), 1);
    let api = AiApiResponse::new("t");
    assert_eq!((api.content.as_str(), api.confidence, api.cost, api.response_time), ("t", 0, 0, 0));
    let prefs = AiPreferences::default();
    assert_eq!(prefs.max_tokens, Some(2000));
    assert_eq!(prefs.temperature, Some(700));
    assert!(prefs.include_project_context);
    assert!(prefs.preferred_provider.is_none());
    assert_eq!(OpenAiProvider::new(), OpenAiProvider);
    assert_eq!(ClaudeProvider::new(), ClaudeProvider);
    assert_eq!(GeminiProvider::new(), GeminiProvider);
}

#[test]
fn the_documentation_service_is_not_wired_in() {
    let r = resolve_library_id("react");
    assert!(!r.success);
    assert_eq!(r.error, Some("Context7 integration not yet implemented".to_string()));
    let r = get_library_docs("/x/y", Some("hooks"), Some(100));
    assert!(!r.success && r.data.is_none());
    assert_eq!(r.error, Some("Context7 integration not yet implemented".to_string()));
}

#[test]
fn messages_are_added_at_the_end() {
    let mut session = ChatSession::new("S", ProjectContext::new("/ws", "rust"));
    assert_eq!(session.message_count(), 0);
    assert!(session.last_message().is_none());
    session.add_message(ChatMessage::user_message("one"));
    session.add_message(ChatMessage::ai_message("two"));
    session.add_message(ChatMessage::system_message("three"));
    session.add_message(ChatMessage::user_message("four"));
    assert_eq!(session.message_count(), 4);
    assert_eq!(session.last_message().unwrap().content, "four");
    let users: Vec<&str> = session.user_messages().iter().map(|m| m.content.as_str()).collect();
    assert_eq!(users, vec!["one", "four"]);
    let ais: Vec<&str> = session.ai_messages().iter().map(|m| m.content.as_str()).collect();
    assert_eq!(ais, vec!["two"]);
    let last: Vec<&str> = session.get_conversation_history(Some(2)).iter().map(|m| m.content.as_str()).collect();
    assert_eq!(last, vec!["three", "four"]);
    assert_eq!(session.get_conversation_history(Some(10)).len(), 4);
    assert_eq!(session.get_conversation_history(Some(0)).len(), 0);
    assert_eq!(session.get_conversation_history(None).len(), 4);
    assert!(session.messages[0].is_user_message());
    assert!(session.messages[1].is_ai_message());
    assert!(session.messages[2].is_system_message());
    assert!(!session.messages[2].is_user_message());
    let mut metadata: Entries<Payload> = Entries::new();
    metadata.insert("k", Payload::Flag(true));
    let tagged = ChatMessage::user_message("x").with_metadata(metadata);
    assert_eq!(tagged.metadata.unwrap().len(), 1);
    session.clear_messages();
    assert_eq!(session.message_count(), 0);
}

#[test]
fn chat_commands_keep_sessions() {
    let mut sessions: Entries<ChatSession> = Entries::new();
    let open = ProjectContext::new("/ws/app", "rust").with_git_branch("main");
    let r = create_chat_session(&mut sessions, "/ws/app", Some("app"), Some(open));
    let id = r.data.unwrap();
    {
        let session = get_chat_session(&sessions, &id).data.unwrap();
        assert_eq!(session.id, id);
        assert_eq!(session.name, "Chat - app");
        assert_eq!(session.context.project_type, "rust");
        assert_eq!(session.context.git_branch, Some("main".to_string()));
    }
    let other = create_chat_session(&mut sessions, "/", None, Some(ProjectContext::new("/ws/app", "rust")));
    let other_id = other.data.unwrap();
    {
        let session = get_chat_session(&sessions, &other_id).data.unwrap();
        assert_eq!(session.name, "Chat - Project");
        assert_eq!(session.context.project_type, "unknown");
        assert_eq!(session.context.root_path, "/");
    }
    let sent = send_chat_message(&mut sessions, &id, "hello");
    assert!(sent.success);
    let message = sent.data.unwrap();
    assert_eq!(message.content, "hello");
    assert_eq!(message.message_type, "user");
    send_chat_message(&mut sessions, &id, "again");
    {
        let session = get_chat_session(&sessions, &id).data.unwrap();
        assert_eq!(session.message_count(), 2);
        assert_eq!(session.messages[0].id, message.id);
        assert_eq!(session.messages[1].content, "again");
    }
    assert_eq!(sessions.key_list(), vec![id.clone(), other_id]);
    let missing = send_chat_message(&mut sessions, "nope", "x");
    assert_eq!(missing.error, Some("[SESSION_NOT_FOUND] Chat session not found".to_string()));
    assert_eq!(
        get_chat_session(&sessions, "nope").error,
        Some("[SESSION_NOT_FOUND] Chat session not found".to_string())
    );
}

fn flags() -> StatusFlags {
    StatusFlags {
        index_new: false, index_modified: false, index_deleted: false, index_renamed: false,
        index_typechange: false, wt_new: false, wt_modified: false, wt_deleted: false,
        wt_renamed: false, wt_typechange: false, ignored: false,
    }
}

#[test]
fn git_states_get_letters() {
    let entries = vec![
        StatusEntry { path: Some("a".to_string()), flags: StatusFlags { index_new: true, wt_modified: true, ..flags() } },
        StatusEntry { path: None, flags: StatusFlags { wt_new: true, ..flags() } },
        StatusEntry { path: Some("c".to_string()), flags: StatusFlags { index_deleted: true, index_renamed: true, ignored: true, ..flags() } },
        StatusEntry { path: Some("d".to_string()), flags: StatusFlags { index_typechange: true, wt_typechange: true, ..flags() } },
        StatusEntry { path: Some("e".to_string()), flags: flags() },
    ];
    let status = git_get_status(&entries);
    let letters: Vec<(&str, &str, &str)> = status
        .iter()
        .map(|s| (s.path.as_str(), s.index_status.as_str(), s.working_tree_status.as_str()))
        .collect();
    assert_eq!(letters, vec![("a", "A", "M"), ("", " ", "?"), ("c", "D", "!"), ("d", "T", "T"), ("e", " ", " ")]);
}

#[test]
fn git_reports_are_turned_into_answers() {
    let none = git_initialize_repo(None).unwrap();
    assert!(!none.is_git_repo);
    assert_eq!((none.ahead, none.behind), (0, 0));
    let found = git_initialize_repo(Some(RepositoryFacts {
        current_branch: Some("main".to_string()),
        remote_url: Some("https://example.org/r.git".to_string()),
        upstream_branch: None,
    }))
    .unwrap();
    assert!(found.is_git_repo);
    assert_eq!(found.current_branch, Some("main".to_string()));
    assert_eq!(found.remote_url, Some("https://example.org/r.git".to_string()));
    let branches = git_get_branches(
        Some("dev"),
        &vec![
            BranchFacts { name: "main".to_string(), upstream: Some("origin/main".to_string()) },
            BranchFacts { name: "dev".to_string(), upstream: None },
            BranchFacts { name: "master".to_string(), upstream: None },
        ],
    );
    assert!(branches[0].is_default && !branches[0].is_current);
    assert!(!branches[1].is_default && branches[1].is_current);
    assert!(branches[2].is_default);
    assert_eq!(branches[0].upstream, Some("origin/main".to_string()));
    assert_eq!(relative_path("/repo", "/repo/src/a.rs"), "src/a.rs");
    assert_eq!(relative_path("/repo", "/repo///a.rs"), "a.rs");
    assert_eq!(relative_path("/repo", "src/a.rs"), "src/a.rs");
    assert_eq!(relative_path("/repo", "/repo"), "");
    let history: Vec<CommitFacts> = (0..25)
        .map(|i| CommitFacts {
            hash: format!("{:040x}", i + 0xabcdef0123u64),
            author: if i == 0 { None } else { Some("Ada".to_string()) },
            timestamp: 1000 + i as i64,
            message: Some(format!("commit {}", i)),
        })
        .collect();
    let commits = git_get_commits(&history, None);
    assert_eq!(commits.len(), 20);
    assert_eq!(commits[0].author, "Unknown");
    assert_eq!(commits[1].author, "Ada");
    assert_eq!(commits[0].short_hash, &commits[0].hash[..7]);
    assert_eq!(commits[0].short_hash.len(), 7);
    assert!(commits[0].files.is_empty());
    assert_eq!(git_get_commits(&history, Some(3)).len(), 3);
    assert_eq!(git_get_commits(&history, Some(100)).len(), 25);
    let diff = git_get_diff(&vec![
        DiffLine { origin: 'F', content: Some("diff --git\n".to_string()) },
        DiffLine { origin: ' ', content: Some("same\n".to_string()) },
        DiffLine { origin: '-', content: Some("old\n".to_string()) },
        DiffLine { origin: '+', content: None },
        DiffLine { origin: '+', content: Some("new\n".to_string()) },
    ]);
    assert_eq!(diff, " same\n-old\n++new\n");
    let e = git_error("REPO_NOT_FOUND", "Repository not found: ", "no repo");
    assert_eq!(e.code(), "REPO_NOT_FOUND");
    assert_eq!(e.message(), "Repository not found: no repo");
}
