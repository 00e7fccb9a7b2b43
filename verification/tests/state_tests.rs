use syntari_desktop_lib::ai::types::AiProvider;
use syntari_desktop_lib::chat::types::ChatSession;
use syntari_desktop_lib::commands::{
    get_ai_providers, get_app_stats, get_user_preferences, initialize_app, set_user_preference,
};
use syntari_desktop_lib::project::types::ProjectContext;
use syntari_desktop_lib::state::{AiProviderCollection, AppState, ChatSessionCollection};
use syntari_desktop_lib::state_collections::{Entries, Payload, StateCollection};

fn ids(state: &AppState) -> Vec<String> {
    state.get_ai_providers().iter().map(|p| p.id.clone()).collect()
}

#[test]
fn adding_then_updating_leaves_what_adding_leaves() {
    let mut once = AppState::new();
    once.add_ai_provider(AiProvider::new("a", "A", "x")).unwrap();
    once.add_ai_provider(AiProvider::new("b", "B", "y").with_latency(5)).unwrap();
    let mut twice = AppState::new();
    twice.add_ai_provider(AiProvider::new("a", "A", "x")).unwrap();
    twice.add_ai_provider(AiProvider::new("b", "B", "y").with_latency(5)).unwrap();
    twice.update_ai_provider(AiProvider::new("b", "B", "y").with_latency(5)).unwrap();
    assert_eq!(ids(&once), ids(&twice));
    let left: Vec<(String, u64)> = once.get_ai_providers().iter().map(|p| (p.name.clone(), p.latency)).collect();
    let right: Vec<(String, u64)> = twice.get_ai_providers().iter().map(|p| (p.name.clone(), p.latency)).collect();
    assert_eq!(left, right);
}

#[test]
fn a_collection_keeps_one_item_per_id() {
    let mut entries: Entries<AiProvider> = Entries::new();
    AiProviderCollection::add_item(&mut entries, AiProvider::new("a", "first", "x")).unwrap();
    AiProviderCollection::add_item(&mut entries, AiProvider::new("b", "second", "x")).unwrap();
    AiProviderCollection::update_item(&mut entries, AiProvider::new("a", "third", "x")).unwrap();
    assert_eq!(AiProviderCollection::count(&entries), 2);
    assert!(AiProviderCollection::item_exists(&entries, "a"));
    assert!(!AiProviderCollection::item_exists(&entries, "c"));
    let names: Vec<&str> = AiProviderCollection::list_items(&entries).iter().map(|p| p.name.as_str()).collect();
    assert_eq!(names, vec!["third", "second"]);
    assert_eq!(AiProviderCollection::get_item(&entries, "b").unwrap().name, "second");
    assert!(AiProviderCollection::get_item(&entries, "zz").is_none());
    assert!(AiProviderCollection::remove_item(&mut entries, "a").is_ok());
    let e = AiProviderCollection::remove_item(&mut entries, "a").unwrap_err();
    assert_eq!(e.code(), "ITEM_NOT_FOUND");
    assert_eq!(e.message(), "AI provider 'a' not found in ai_providers");
    assert_eq!(AiProviderCollection::collection_name(), "ai_providers");
    assert_eq!(ChatSessionCollection::item_name(), "chat session");
    AiProviderCollection::clear(&mut entries);
    assert_eq!(AiProviderCollection::count(&entries), 0);
}

#[test]
fn initialisation_is_idempotent() {
    let mut state = AppState::new();
    assert!(state.initialize().is_ok());
    assert_eq!(ids(&state), vec!["anthropic", "gpt4", "gemini"]);
    let (keys, values) = state.get_all_preferences();
    assert_eq!(keys, vec!["theme", "cost_cap", "auto_save", "default_provider"]);
    assert!(matches!(values[0], Payload::Text(t) if t == "dark"));
    assert!(matches!(values[1], Payload::Whole(10)));
    assert!(matches!(values[2], Payload::Flag(true)));
    state.set_preference("theme", Payload::Text("light".to_string())).unwrap();
    state.remove_ai_provider("gpt4").unwrap();
    assert!(state.initialize().is_ok());
    assert_eq!(ids(&state), vec!["anthropic", "gemini"]);
    assert!(matches!(state.get_preference("theme"), Some(Payload::Text(t)) if t == "light"));
    assert_eq!(state.get_all_preferences().0.len(), 4);
    let first = &state.get_ai_providers()[0];
    assert_eq!(first.cost_per_token, 3_000_000);
    assert_eq!(first.latency, 200);
    assert_eq!(first.specialties, vec!["coding".to_string(), "analysis".to_string()]);
    assert!(first.is_available);
}

#[test]
fn the_open_project_is_one_or_none() {
    let mut state = AppState::new();
    assert!(!state.has_current_project());
    assert!(state.get_current_project().is_none());
    state.set_current_project(ProjectContext::new("/ws", "rust")).unwrap();
    assert!(state.has_current_project());
    assert_eq!(state.get_current_project().unwrap().root_path, "/ws");
    state.set_current_project(ProjectContext::new("/other", "go")).unwrap();
    assert_eq!(state.get_current_project().unwrap().root_path, "/other");
    state.clear_current_project();
    assert!(!state.has_current_project());
}

#[test]
fn availability_is_changed_in_place() {
    let mut state = AppState::new();
    state.initialize().unwrap();
    state.update_ai_provider_availability("gpt4", false).unwrap();
    assert_eq!(ids(&state), vec!["anthropic", "gpt4", "gemini"]);
    let gpt = state.get_ai_provider("gpt4").unwrap();
    assert!(!gpt.is_available);
    assert_eq!(gpt.latency, 300);
    assert!(state.get_ai_provider("gemini").unwrap().is_available);
    let e = state.update_ai_provider_availability("nope", true).unwrap_err();
    assert_eq!(e.code(), "PROVIDER_NOT_FOUND");
    assert_eq!(e.message(), "Provider nope not found");
    assert!(e.is_recoverable());
    assert_eq!(state.get_all_ai_providers().unwrap().len(), 3);
}

#[test]
fn chat_sessions_are_kept_by_id() {
    let mut state = AppState::new();
    let session = ChatSession::new("Chat", ProjectContext::new("/ws", "rust"));
    let id = session.id.clone();
    state.add_chat_session(session).unwrap();
    assert!(state.chat_session_exists(&id));
    assert_eq!(state.get_chat_session(&id).unwrap().name, "Chat");
    assert_eq!(state.list_chat_sessions().len(), 1);
    assert!(state.remove_chat_session(&id).is_ok());
    let e = state.remove_chat_session(&id).unwrap_err();
    assert_eq!(e.message(), format!("chat session '{}' not found in chat_sessions", id));
    state.add_chat_session(ChatSession::new("A", ProjectContext::new("/a", "go"))).unwrap();
    state.clear_chat_sessions();
    assert!(state.list_chat_sessions().is_empty());
}

#[test]
fn preferences_are_values_under_names() {
    let mut state = AppState::new();
    assert!(state.get_preference("x").is_none());
    state.set_preference("x", Payload::Whole(1)).unwrap();
    state.set_preference("y", Payload::Json("{\"a\":1}".to_string())).unwrap();
    state.set_preference("x", Payload::Whole(2)).unwrap();
    assert!(matches!(state.get_preference("x"), Some(Payload::Whole(2))));
    assert_eq!(state.get_all_preferences().0, vec!["x", "y"]);
    assert_eq!(state.remove_preference("x").unwrap(), true);
    assert_eq!(state.remove_preference("x").unwrap(), false);
    state.clear_preferences();
    assert!(state.get_all_preferences().0.is_empty());
}

#[test]
fn stats_count_the_collections() {
    let mut state = AppState::new();
    state.initialize().unwrap();
    state.add_chat_session(ChatSession::new("A", ProjectContext::new("/a", "go"))).unwrap();
    let stats = state.get_stats();
    assert_eq!(stats.key_list(), vec!["chat_sessions", "ai_providers", "user_preferences", "has_current_project"]);
    assert!(matches!(stats.get("chat_sessions"), Some(Payload::Whole(1))));
    assert!(matches!(stats.get("ai_providers"), Some(Payload::Whole(3))));
    assert!(matches!(stats.get("user_preferences"), Some(Payload::Whole(4))));
    assert!(matches!(stats.get("has_current_project"), Some(Payload::Flag(false))));
    state.set_current_project(ProjectContext::new("/ws", "rust")).unwrap();
    assert!(matches!(state.get_stats().get("has_current_project"), Some(Payload::Flag(true))));
}

#[test]
fn the_commands_answer_in_envelopes() {
    let mut state = AppState::new();
    let r = initialize_app(&mut state);
    assert!(r.success);
    assert_eq!(r.data, Some("Application initialized successfully".to_string()));
    assert_eq!(get_ai_providers(&state).data.unwrap().len(), 3);
    assert_eq!(get_app_stats(&state).data.unwrap().len(), 4);
    let r = set_user_preference(&mut state, "font", Payload::Text("mono".to_string()));
    assert_eq!(r.data, Some("Preference 'font' updated successfully".to_string()));
    let all = get_user_preferences(&state).data.unwrap();
    assert_eq!(all.0.len(), 5);
    assert_eq!(all.0[4], "font");
}
