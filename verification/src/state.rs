//! The state of the application: the open project, the chat sessions, the
//! model providers and the preferences of the user.

use vstd::prelude::*;
use vstd::string::*;
use crate::ai::types::AiProvider;
use crate::chat::types::ChatSession;
use crate::errors::{AppError, AppResult, ErrorCategory};
use crate::project::types::ProjectContext;
use crate::state_collections::{
    key_position, lemma_key_position, lemma_key_position_after_push, not_found_text, put, taken,
    Entries, OptionalStateValue,
    Payload, PayloadView, PreferenceManager, StateCollection,
};
use crate::text::{concat3, string_texts};

verus! {

/// The collection of the model providers.
#[derive(Debug, Clone, Copy, PartialEq, Eq, Structural)]
pub struct AiProviderCollection;

impl StateCollection<AiProvider> for AiProviderCollection {
    open spec fn id_of(item: &AiProvider) -> Seq<char> {
        item.id@
    }

    open spec fn collection_text() -> Seq<char> {
        "ai_providers"@
    }

    open spec fn item_text() -> Seq<char> {
        "AI provider"@
    }

    fn collection_name() -> (r: &'static str) {
        "ai_providers"
    }

    fn item_name() -> (r: &'static str) {
        "AI provider"
    }

    fn get_id(item: &AiProvider) -> (id: String) {
        item.id.clone()
    }
}

/// The collection of the chat sessions.
#[derive(Debug, Clone, Copy, PartialEq, Eq, Structural)]
pub struct ChatSessionCollection;

impl StateCollection<ChatSession> for ChatSessionCollection {
    open spec fn id_of(item: &ChatSession) -> Seq<char> {
        item.id@
    }

    open spec fn collection_text() -> Seq<char> {
        "chat_sessions"@
    }

    open spec fn item_text() -> Seq<char> {
        "chat session"@
    }

    fn collection_name() -> (r: &'static str) {
        "chat_sessions"
    }

    fn item_name() -> (r: &'static str) {
        "chat session"
    }

    fn get_id(item: &ChatSession) -> (id: String) {
        item.id.clone()
    }
}

/// The holder of the open project.
#[derive(Debug, Clone, Copy, PartialEq, Eq, Structural)]
pub struct ProjectContextValue;

impl OptionalStateValue<ProjectContext> for ProjectContextValue {
    fn value_name() -> &'static str {
        "current project"
    }
}

/// The manager of the preferences of the user.
#[derive(Debug, Clone, Copy, PartialEq, Eq, Structural)]
pub struct UserPreferenceManager;

impl PreferenceManager for UserPreferenceManager {

}

/// The state of the application.
#[derive(Debug)]
pub struct AppState {
    pub current_project: Option<ProjectContext>,
    pub chat_sessions: Entries<ChatSession>,
    pub ai_providers: Entries<AiProvider>,
    pub user_preferences: Entries<Payload>,
}

/// The identifiers of the providers that initialisation seeds.
pub open spec fn seeded_providers() -> Seq<Seq<char>> {
    seq!["anthropic"@, "gpt4"@, "gemini"@]
}

/// The first provider that initialisation seeds.
pub open spec fn is_first_seed(p: AiProvider) -> bool {
    &&& p.id@ == "anthropic"@
    &&& p.name@ == "Sonnet 3.5"@
    &&& p.provider_type@ == "anthropic"@
    &&& p.is_available
    &&& p.cost_per_token == 3_000_000
    &&& p.latency == 200
    &&& string_texts(p.specialties@) == seq!["coding"@, "analysis"@]
}

/// The second provider that initialisation seeds.
pub open spec fn is_second_seed(p: AiProvider) -> bool {
    &&& p.id@ == "gpt4"@
    &&& p.name@ == "GPT-4 Turbo"@
    &&& p.provider_type@ == "openai"@
    &&& p.is_available
    &&& p.cost_per_token == 10_000_000
    &&& p.latency == 300
    &&& string_texts(p.specialties@) == seq!["general"@, "coding"@]
}

/// The third provider that initialisation seeds.
pub open spec fn is_third_seed(p: AiProvider) -> bool {
    &&& p.id@ == "gemini"@
    &&& p.name@ == "Gemini Pro"@
    &&& p.provider_type@ == "google"@
    &&& p.is_available
    &&& p.cost_per_token == 370
    &&& p.latency == 250
    &&& string_texts(p.specialties@) == seq!["general"@, "analysis"@]
}

/// The providers are the three that initialisation seeds.
pub open spec fn seeded(providers: Seq<AiProvider>) -> bool {
    &&& providers.len() == 3
    &&& is_first_seed(providers[0])
    &&& is_second_seed(providers[1])
    &&& is_third_seed(providers[2])
}

/// The names of the preferences that initialisation sets.
pub open spec fn baseline_preferences() -> Seq<Seq<char>> {
    seq!["theme"@, "cost_cap"@, "auto_save"@, "default_provider"@]
}

/// The value that initialisation gives the preference `key`.
pub open spec fn baseline_value(key: Seq<char>) -> PayloadView {
    if key == "theme"@ {
        PayloadView::Text("dark"@)
    } else if key == "cost_cap"@ {
        PayloadView::Whole(10)
    } else if key == "auto_save"@ {
        PayloadView::Flag(true)
    } else {
        PayloadView::Text("anthropic"@)
    }
}

fn strings2(a: &str, b: &str) -> (v: Vec<String>)
    ensures
        string_texts(v@) == seq![a@, b@],
{
    let mut v: Vec<String> = Vec::new();
    v.push(String::from_str(a));
    v.push(String::from_str(b));
    assert(string_texts(v@) =~= seq![a@, b@]);
    v
}

impl AppState {
    /// Every collection is well formed.
    pub open spec fn well_formed(&self) -> bool {
        &&& self.chat_sessions.well_formed()
        &&& self.ai_providers.well_formed()
        &&& self.user_preferences.well_formed()
    }

    /// Providers are seeded and every baseline preference has a value, so
    /// initialising changes nothing.
    pub open spec fn is_initialized(&self) -> bool {
        &&& self.ai_providers.keys().len() > 0
        &&& forall|i: int|
            0 <= i < baseline_preferences().len() ==> self.user_preferences.keys().contains(
                #[trigger] baseline_preferences()[i],
            )
    }

    /// A state without project, sessions, providers or preferences.
    pub fn new() -> (s: Self)
        ensures
            s.well_formed(),
            s.current_project is None,
            s.chat_sessions.keys().len() == 0,
            s.ai_providers.keys().len() == 0,
            s.user_preferences.keys().len() == 0,
    {
        AppState {
            current_project: None,
            chat_sessions: Entries::new(),
            ai_providers: Entries::new(),
            user_preferences: Entries::new(),
        }
    }

    fn seed_preference(&mut self, key: &str, value: Payload)
        requires
            old(self).well_formed(),
        ensures
            final(self).well_formed(),
            final(self).current_project == old(self).current_project,
            final(self).chat_sessions == old(self).chat_sessions,
            final(self).ai_providers == old(self).ai_providers,
            old(self).user_preferences.keys().contains(key@) ==> final(self).user_preferences
                == old(self).user_preferences,
            !old(self).user_preferences.keys().contains(key@) ==> final(self).user_preferences.at(
                key@,
            ) == Some(value),
            final(self).user_preferences.keys().contains(key@),
            forall|k: Seq<char>|
                old(self).user_preferences.keys().contains(k) ==> final(self).user_preferences.keys().contains(k),
            forall|k: Seq<char>|
                k != key@ ==> final(self).user_preferences.at(k) == old(self).user_preferences.at(k),
            forall|k: Seq<char>|
                k != key@ ==> final(self).user_preferences.keys().contains(k) == old(self).user_preferences.keys().contains(k),
    {
        proof {
            lemma_key_position(self.user_preferences.keys(), key@);
        }
        if !self.user_preferences.contains_key(key) {
            let ghost keys = self.user_preferences.keys();
            let ghost items = self.user_preferences.items();
            self.user_preferences.insert(key, value);
            proof {
                let now = self.user_preferences.keys();
                assert(now == keys.push(key@));
                assert(now[keys.len() as int] == key@);
                assert forall|k: Seq<char>| keys.contains(k) implies now.contains(k) by {
                    let i = choose|i: int| 0 <= i < keys.len() && keys[i] == k;
                    assert(now[i] == k);
                }
                assert(self.user_preferences.items() == items.push(value));
                assert forall|k: Seq<char>| k != key@ implies #[trigger] self.user_preferences.at(k)
                    == old(self).user_preferences.at(k) by {
                    lemma_key_position_after_push(keys, key@, k);
                    lemma_key_position(keys, k);
                    let p = key_position(keys, k);
                    if p < keys.len() {
                        assert(items.push(value)[p] == items[p]);
                    }
                }
                assert forall|k: Seq<char>| k != key@ implies #[trigger] now.contains(k)
                    == keys.contains(k) by {
                    lemma_key_position_after_push(keys, key@, k);
                    lemma_key_position(keys, k);
                    lemma_key_position(now, k);
                }
                lemma_key_position(now, key@);
                lemma_key_position(keys, key@);
            }
        }
    }

    /// Seeds what is missing: the three providers where there is none, and
    /// a value for each baseline preference that has none. What is there
    /// already is left alone, so a second call changes nothing.
    pub fn initialize(&mut self) -> (r: AppResult<()>)
        requires
            old(self).well_formed(),
        ensures
            r is Ok,
            final(self).well_formed(),
            final(self).is_initialized(),
            final(self).current_project == old(self).current_project,
            final(self).chat_sessions == old(self).chat_sessions,
            old(self).ai_providers.keys().len() > 0 ==> final(self).ai_providers == old(self).ai_providers,
            old(self).ai_providers.keys().len() == 0 ==> final(self).ai_providers.keys()
                == seeded_providers(),
            old(self).is_initialized() ==> final(self).user_preferences == old(self).user_preferences,
            forall|k: Seq<char>|
                old(self).user_preferences.keys().contains(k) ==> final(self).user_preferences.keys().contains(k),
            forall|k: Seq<char>|
                old(self).user_preferences.keys().contains(k) ==> final(self).user_preferences.at(k)
                    == old(self).user_preferences.at(k),
            forall|i: int|
                0 <= i < baseline_preferences().len() && !old(self).user_preferences.keys().contains(
                    #[trigger] baseline_preferences()[i],
                ) ==> (final(self).user_preferences.at(baseline_preferences()[i]) matches Some(v)
                    && v@ == baseline_value(baseline_preferences()[i])),
            old(self).ai_providers.keys().len() == 0 ==> seeded(final(self).ai_providers.items()),
    {
        if self.ai_providers.len() == 0 {
            let first = AiProvider::new(
                "anthropic",
                "Sonnet 3.5",
                "anthropic",
            ).with_cost(3_000_000).with_latency(200).with_specialties(strings2("coding", "analysis"));
            let gpt4 = AiProvider::new("gpt4", "GPT-4 Turbo", "openai").with_cost(
                10_000_000,
            ).with_latency(300).with_specialties(strings2("general", "coding"));
            let gemini = AiProvider::new("gemini", "Gemini Pro", "google").with_cost(
                370,
            ).with_latency(250).with_specialties(strings2("general", "analysis"));
            proof {
                reveal_strlit("anthropic");
                reveal_strlit("gpt4");
                reveal_strlit("gemini");
            }
            self.ai_providers.insert("anthropic", first);
            proof {
                lemma_key_position(self.ai_providers.keys(), "gpt4"@);
                assert(self.ai_providers.keys() =~= seq!["anthropic"@]);
                assert("anthropic"@.len() != "gpt4"@.len());
            }
            self.ai_providers.insert("gpt4", gpt4);
            proof {
                lemma_key_position(self.ai_providers.keys(), "gemini"@);
                assert(self.ai_providers.keys() =~= seq!["anthropic"@, "gpt4"@]);
                assert("anthropic"@[0] != "gemini"@[0]);
                assert("gpt4"@.len() != "gemini"@.len());
            }
            self.ai_providers.insert("gemini", gemini);
            proof {
                assert(self.ai_providers.keys() =~= seeded_providers());
            }
        }
        proof {
            reveal_strlit("theme");
            reveal_strlit("cost_cap");
            reveal_strlit("auto_save");
            reveal_strlit("default_provider");
            assert("theme"@.len() == 5);
            assert("cost_cap"@.len() == 8);
            assert("auto_save"@.len() == 9);
            assert("default_provider"@.len() == 16);
        }
        self.seed_preference("theme", Payload::Text(String::from_str("dark")));
        self.seed_preference("cost_cap", Payload::Whole(10));
        self.seed_preference("auto_save", Payload::Flag(true));
        self.seed_preference("default_provider", Payload::Text(String::from_str("anthropic")));
        proof {
            assert(baseline_preferences()[0] == "theme"@);
            assert(baseline_preferences()[1] == "cost_cap"@);
            assert(baseline_preferences()[2] == "auto_save"@);
            assert(baseline_preferences()[3] == "default_provider"@);
            if old(self).is_initialized() {
                assert(old(self).user_preferences.keys().contains(baseline_preferences()[0]));
                assert(old(self).user_preferences.keys().contains(baseline_preferences()[1]));
                assert(old(self).user_preferences.keys().contains(baseline_preferences()[2]));
                assert(old(self).user_preferences.keys().contains(baseline_preferences()[3]));
            }
        }
        Ok(())
    }

    /// Makes `project` the open project.
    pub fn set_current_project(&mut self, project: ProjectContext) -> (r: AppResult<()>)
        ensures
            r is Ok,
            *final(self) == (AppState { current_project: Some(project), ..*old(self) }),
    {
        self.current_project = Some(project);
        Ok(())
    }

    /// The open project.
    pub fn get_current_project(&self) -> (r: Option<&ProjectContext>)
        ensures
            match r {
                Some(p) => self.current_project == Some(*p),
                None => self.current_project is None,
            },
    {
        ProjectContextValue::get_value(&self.current_project)
    }

    /// Closes the open project.
    pub fn clear_current_project(&mut self)
        ensures
            *final(self) == (AppState { current_project: None, ..*old(self) }),
    {
        self.current_project = None;
    }

    /// A project is open.
    pub fn has_current_project(&self) -> (r: bool)
        ensures
            r == self.current_project is Some,
    {
        ProjectContextValue::has_value(&self.current_project)
    }

    /// The providers, in the order they were added.
    pub fn get_ai_providers(&self) -> (r: Vec<&AiProvider>)
        ensures
            r@.len() == self.ai_providers.items().len(),
            forall|i: int| 0 <= i < r@.len() ==> *r@[i] == self.ai_providers.items()[i],
    {
        AiProviderCollection::list_items(&self.ai_providers)
    }

    /// The providers, in the order they were added; this never fails.
    pub fn get_all_ai_providers(&self) -> (r: AppResult<Vec<&AiProvider>>)
        ensures
            r matches Ok(v) && v@.len() == self.ai_providers.items().len() && forall|i: int|
                0 <= i < v@.len() ==> *v@[i] == self.ai_providers.items()[i],
    {
        Ok(AiProviderCollection::list_items(&self.ai_providers))
    }

    /// The provider under `id`.
    pub fn get_ai_provider(&self, id: &str) -> (r: Option<&AiProvider>)
        requires
            self.well_formed(),
        ensures
            match r {
                Some(p) => self.ai_providers.at(id@) == Some(*p),
                None => self.ai_providers.at(id@) is None,
            },
    {
        AiProviderCollection::get_item(&self.ai_providers, id)
    }

    /// Adds `provider` under its identifier, in the place of the provider
    /// that had it.
    pub fn add_ai_provider(&mut self, provider: AiProvider) -> (r: AppResult<()>)
        requires
            old(self).well_formed(),
        ensures
            r is Ok,
            final(self).well_formed(),
            (final(self).ai_providers.keys(), final(self).ai_providers.items()) == put(
                old(self).ai_providers.keys(),
                old(self).ai_providers.items(),
                provider.id@,
                provider,
            ),
            final(self).current_project == old(self).current_project,
            final(self).chat_sessions == old(self).chat_sessions,
            final(self).user_preferences == old(self).user_preferences,
    {
        AiProviderCollection::add_item(&mut self.ai_providers, provider)
    }

    /// Does what `add_ai_provider` does.
    pub fn update_ai_provider(&mut self, provider: AiProvider) -> (r: AppResult<()>)
        requires
            old(self).well_formed(),
        ensures
            r is Ok,
            final(self).well_formed(),
            (final(self).ai_providers.keys(), final(self).ai_providers.items()) == put(
                old(self).ai_providers.keys(),
                old(self).ai_providers.items(),
                provider.id@,
                provider,
            ),
            final(self).current_project == old(self).current_project,
            final(self).chat_sessions == old(self).chat_sessions,
            final(self).user_preferences == old(self).user_preferences,
    {
        AiProviderCollection::update_item(&mut self.ai_providers, provider)
    }

    /// Takes the provider under `id` out; it is a failure if there is none.
    pub fn remove_ai_provider(&mut self, id: &str) -> (r: AppResult<()>)
        requires
            old(self).well_formed(),
        ensures
            final(self).well_formed(),
            (final(self).ai_providers.keys(), final(self).ai_providers.items()) == taken(
                old(self).ai_providers.keys(),
                old(self).ai_providers.items(),
                id@,
            ),
            match r {
                Ok(_) => old(self).ai_providers.keys().contains(id@),
                Err(e) => !old(self).ai_providers.keys().contains(id@) && e.is(
                    ErrorCategory::Internal,
                    "ITEM_NOT_FOUND"@,
                    not_found_text("AI provider"@, id@, "ai_providers"@),
                    None,
                ),
            },
            final(self).current_project == old(self).current_project,
            final(self).chat_sessions == old(self).chat_sessions,
            final(self).user_preferences == old(self).user_preferences,
    {
        AiProviderCollection::remove_item(&mut self.ai_providers, id)
    }

    /// Marks the provider under `id` as available or not; it is a failure
    /// if there is none. Nothing else of the provider changes, and it keeps
    /// its place.
    pub fn update_ai_provider_availability(&mut self, id: &str, available: bool) -> (r: AppResult<
        (),
    >)
        requires
            old(self).well_formed(),
        ensures
            final(self).well_formed(),
            final(self).ai_providers.keys() == old(self).ai_providers.keys(),
            match r {
                Ok(_) => old(self).ai_providers.at(id@) matches Some(before) && final(self).ai_providers.items() == old(self).ai_providers.items().update(
                    key_position(old(self).ai_providers.keys(), id@),
                    AiProvider { is_available: available, ..before },
                ),
                Err(e) => old(self).ai_providers.at(id@) is None && final(self).ai_providers.items()
                    == old(self).ai_providers.items() && e.is(
                    ErrorCategory::Ai,
                    "PROVIDER_NOT_FOUND"@,
                    "Provider "@ + id@ + " not found"@,
                    None,
                ),
            },
            final(self).current_project == old(self).current_project,
            final(self).chat_sessions == old(self).chat_sessions,
            final(self).user_preferences == old(self).user_preferences,
    {
        proof {
            lemma_key_position(self.ai_providers.keys(), id@);
        }
        let i = match self.ai_providers.index_of(id) {
            Some(i) => i,
            None => {
                let message = concat3("Provider ", id, " not found");
                return Err(AppError::ai("PROVIDER_NOT_FOUND", message.as_str()));
            },
        };
        let ghost keys = self.ai_providers.keys();
        let ghost items = self.ai_providers.items();
        match self.ai_providers.remove(id) {
            Some(provider) => {
                let changed = provider.with_availability(available);
                self.ai_providers.insert_at(i, id, changed);
                proof {
                    assert(self.ai_providers.keys() =~= keys);
                    assert(self.ai_providers.items() =~= items.update(i as int, changed));
                }
                Ok(())
            },
            None => Ok(()),
        }
    }

    /// Adds `session` under its identifier.
    pub fn add_chat_session(&mut self, session: ChatSession) -> (r: AppResult<()>)
        requires
            old(self).well_formed(),
        ensures
            r is Ok,
            final(self).well_formed(),
            (final(self).chat_sessions.keys(), final(self).chat_sessions.items()) == put(
                old(self).chat_sessions.keys(),
                old(self).chat_sessions.items(),
                session.id@,
                session,
            ),
            final(self).current_project == old(self).current_project,
            final(self).ai_providers == old(self).ai_providers,
            final(self).user_preferences == old(self).user_preferences,
    {
        ChatSessionCollection::add_item(&mut self.chat_sessions, session)
    }

    /// The session under `id`.
    pub fn get_chat_session(&self, id: &str) -> (r: Option<&ChatSession>)
        requires
            self.well_formed(),
        ensures
            match r {
                Some(s) => self.chat_sessions.at(id@) == Some(*s),
                None => self.chat_sessions.at(id@) is None,
            },
    {
        ChatSessionCollection::get_item(&self.chat_sessions, id)
    }

    /// Does what `add_chat_session` does.
    pub fn update_chat_session(&mut self, session: ChatSession) -> (r: AppResult<()>)
        requires
            old(self).well_formed(),
        ensures
            r is Ok,
            final(self).well_formed(),
            (final(self).chat_sessions.keys(), final(self).chat_sessions.items()) == put(
                old(self).chat_sessions.keys(),
                old(self).chat_sessions.items(),
                session.id@,
                session,
            ),
            final(self).current_project == old(self).current_project,
            final(self).ai_providers == old(self).ai_providers,
            final(self).user_preferences == old(self).user_preferences,
    {
        ChatSessionCollection::update_item(&mut self.chat_sessions, session)
    }

    /// Takes the session under `id` out; it is a failure if there is none.
    pub fn remove_chat_session(&mut self, id: &str) -> (r: AppResult<()>)
        requires
            old(self).well_formed(),
        ensures
            final(self).well_formed(),
            (final(self).chat_sessions.keys(), final(self).chat_sessions.items()) == taken(
                old(self).chat_sessions.keys(),
                old(self).chat_sessions.items(),
                id@,
            ),
            match r {
                Ok(_) => old(self).chat_sessions.keys().contains(id@),
                Err(e) => !old(self).chat_sessions.keys().contains(id@) && e.is(
                    ErrorCategory::Internal,
                    "ITEM_NOT_FOUND"@,
                    not_found_text("chat session"@, id@, "chat_sessions"@),
                    None,
                ),
            },
            final(self).current_project == old(self).current_project,
            final(self).ai_providers == old(self).ai_providers,
            final(self).user_preferences == old(self).user_preferences,
    {
        ChatSessionCollection::remove_item(&mut self.chat_sessions, id)
    }

    /// The sessions, in the order they were added.
    pub fn list_chat_sessions(&self) -> (r: Vec<&ChatSession>)
        ensures
            r@.len() == self.chat_sessions.items().len(),
            forall|i: int| 0 <= i < r@.len() ==> *r@[i] == self.chat_sessions.items()[i],
    {
        ChatSessionCollection::list_items(&self.chat_sessions)
    }

    /// There is a session under `id`.
    pub fn chat_session_exists(&self, id: &str) -> (r: bool)
        ensures
            r == self.chat_sessions.keys().contains(id@),
    {
        ChatSessionCollection::item_exists(&self.chat_sessions, id)
    }

    /// Takes every session out.
    pub fn clear_chat_sessions(&mut self)
        ensures
            final(self).chat_sessions.well_formed(),
            final(self).chat_sessions.keys().len() == 0,
            final(self).current_project == old(self).current_project,
            final(self).ai_providers == old(self).ai_providers,
            final(self).user_preferences == old(self).user_preferences,
    {
        ChatSessionCollection::clear(&mut self.chat_sessions)
    }

    /// The preference under `key`.
    pub fn get_preference(&self, key: &str) -> (r: Option<&Payload>)
        requires
            self.well_formed(),
        ensures
            match r {
                Some(v) => self.user_preferences.at(key@) == Some(*v),
                None => self.user_preferences.at(key@) is None,
            },
    {
        UserPreferenceManager::get_preference(&self.user_preferences, key)
    }

    /// Puts `value` under `key`.
    pub fn set_preference(&mut self, key: &str, value: Payload) -> (r: AppResult<()>)
        requires
            old(self).well_formed(),
        ensures
            r is Ok,
            final(self).well_formed(),
            (final(self).user_preferences.keys(), final(self).user_preferences.items()) == put(
                old(self).user_preferences.keys(),
                old(self).user_preferences.items(),
                key@,
                value,
            ),
            final(self).current_project == old(self).current_project,
            final(self).ai_providers == old(self).ai_providers,
            final(self).chat_sessions == old(self).chat_sessions,
    {
        UserPreferenceManager::set_preference(&mut self.user_preferences, key, value)
    }

    /// Every preference: the names and, at the same positions, the values.
    pub fn get_all_preferences(&self) -> (r: (Vec<String>, Vec<&Payload>))
        ensures
            string_texts(r.0@) == self.user_preferences.keys(),
            r.1@.len() == self.user_preferences.items().len(),
            forall|i: int| 0 <= i < r.1@.len() ==> *r.1@[i] == self.user_preferences.items()[i],
    {
        UserPreferenceManager::get_all_preferences(&self.user_preferences)
    }

    /// Takes the preference under `key` out and says whether there was one.
    pub fn remove_preference(&mut self, key: &str) -> (r: AppResult<bool>)
        requires
            old(self).well_formed(),
        ensures
            final(self).well_formed(),
            r == Ok::<bool, AppError>(old(self).user_preferences.keys().contains(key@)),
            (final(self).user_preferences.keys(), final(self).user_preferences.items()) == taken(
                old(self).user_preferences.keys(),
                old(self).user_preferences.items(),
                key@,
            ),
            final(self).current_project == old(self).current_project,
            final(self).ai_providers == old(self).ai_providers,
            final(self).chat_sessions == old(self).chat_sessions,
    {
        UserPreferenceManager::remove_preference(&mut self.user_preferences, key)
    }

    /// Takes every preference out.
    pub fn clear_preferences(&mut self)
        ensures
            final(self).user_preferences.well_formed(),
            final(self).user_preferences.keys().len() == 0,
            final(self).current_project == old(self).current_project,
            final(self).ai_providers == old(self).ai_providers,
            final(self).chat_sessions == old(self).chat_sessions,
    {
        UserPreferenceManager::clear_preferences(&mut self.user_preferences)
    }

    /// The counts of the collections, and whether a project is open.
    pub fn get_stats(&self) -> (stats: Entries<Payload>)
        ensures
            stats.well_formed(),
            stats.keys() == seq![
                "chat_sessions"@,
                "ai_providers"@,
                "user_preferences"@,
                "has_current_project"@,
            ],
            stats.items().len() == 4,
            stats.items()[0]@ == PayloadView::Whole(whole(self.chat_sessions.keys().len())),
            stats.items()[1]@ == PayloadView::Whole(whole(self.ai_providers.keys().len())),
            stats.items()[2]@ == PayloadView::Whole(whole(self.user_preferences.keys().len())),
            stats.items()[3]@ == PayloadView::Flag(self.current_project is Some),
    {
        let mut stats: Entries<Payload> = Entries::new();
        proof {
            reveal_strlit("chat_sessions");
            reveal_strlit("ai_providers");
            reveal_strlit("user_preferences");
            reveal_strlit("has_current_project");
        }
        stats.insert("chat_sessions", Payload::Whole(count_of(self.chat_sessions.len())));
        proof {
            lemma_key_position(stats.keys(), "ai_providers"@);
            assert(stats.keys() =~= seq!["chat_sessions"@]);
            assert("chat_sessions"@.len() != "ai_providers"@.len());
        }
        stats.insert("ai_providers", Payload::Whole(count_of(self.ai_providers.len())));
        proof {
            lemma_key_position(stats.keys(), "user_preferences"@);
            assert(stats.keys() =~= seq!["chat_sessions"@, "ai_providers"@]);
            assert("chat_sessions"@.len() != "user_preferences"@.len());
            assert("ai_providers"@.len() != "user_preferences"@.len());
        }
        stats.insert("user_preferences", Payload::Whole(count_of(self.user_preferences.len())));
        proof {
            lemma_key_position(stats.keys(), "has_current_project"@);
            assert(stats.keys() =~= seq!["chat_sessions"@, "ai_providers"@, "user_preferences"@]);
            assert("chat_sessions"@.len() != "has_current_project"@.len());
            assert("ai_providers"@.len() != "has_current_project"@.len());
            assert("user_preferences"@.len() != "has_current_project"@.len());
        }
        stats.insert("has_current_project", Payload::Flag(self.current_project.is_some()));
        proof {
            assert(stats.keys() =~= seq![
                "chat_sessions"@,
                "ai_providers"@,
                "user_preferences"@,
                "has_current_project"@,
            ]);
        }
        stats
    }
}

/// A count as a whole number, the largest one where it does not fit.
pub open spec fn whole(n: nat) -> i64 {
    if n > i64::MAX {
        i64::MAX
    } else {
        n as i64
    }
}

fn count_of(n: usize) -> (r: i64)
    ensures
        r == whole(n as nat),
{
    if n as u64 > 0x7fff_ffff_ffff_ffffu64 {
        i64::MAX
    } else {
        n as i64
    }
}

} // verus!
