//! The commands of the state kernel, each answering in the usual envelope.

use vstd::prelude::*;
use vstd::string::*;
use crate::ai::types::AiProvider;
use crate::state::{whole, AppState};
use crate::state_collections::{put, Entries, Payload, PayloadView};
use crate::text::{concat3, string_texts};
use crate::types::TauriResult;

verus! {

/// Initialises the state and says so.
pub fn initialize_app(state: &mut AppState) -> (r: TauriResult<String>)
    requires
        old(state).well_formed(),
    ensures
        final(state).well_formed(),
        final(state).is_initialized(),
        final(state).current_project == old(state).current_project,
        final(state).chat_sessions == old(state).chat_sessions,
        old(state).is_initialized() ==> final(state).ai_providers == old(state).ai_providers
            && final(state).user_preferences == old(state).user_preferences,
        r.well_formed(),
        r.success,
        r.data matches Some(t) && t@ == "Application initialized successfully"@,
{
    let _ = state.initialize();
    TauriResult::success(String::from_str("Application initialized successfully"))
}

/// The providers, in the order they were added.
pub fn get_ai_providers<'a>(state: &'a AppState) -> (r: TauriResult<Vec<&'a AiProvider>>)
    ensures
        r.well_formed(),
        r.success,
        r.data matches Some(v) && v@.len() == state.ai_providers.items().len() && forall|i: int|
            0 <= i < v@.len() ==> *v@[i] == state.ai_providers.items()[i],
{
    TauriResult::success(state.get_ai_providers())
}

/// The counts of the collections, and whether a project is open.
pub fn get_app_stats(state: &AppState) -> (r: TauriResult<Entries<Payload>>)
    ensures
        r.well_formed(),
        r.success,
        r.data matches Some(stats) && {
            &&& stats.well_formed()
            &&& stats.keys() == seq![
                "chat_sessions"@,
                "ai_providers"@,
                "user_preferences"@,
                "has_current_project"@,
            ]
            &&& stats.items().len() == 4
            &&& stats.items()[0]@ == PayloadView::Whole(whole(state.chat_sessions.keys().len()))
            &&& stats.items()[1]@ == PayloadView::Whole(whole(state.ai_providers.keys().len()))
            &&& stats.items()[2]@ == PayloadView::Whole(whole(state.user_preferences.keys().len()))
            &&& stats.items()[3]@ == PayloadView::Flag(state.current_project is Some)
        },
{
    TauriResult::success(state.get_stats())
}

/// Every preference: the names and, at the same positions, the values.
pub fn get_user_preferences<'a>(state: &'a AppState) -> (r: TauriResult<
    (Vec<String>, Vec<&'a Payload>),
>)
    ensures
        r.well_formed(),
        r.success,
        r.data matches Some(all) && string_texts(all.0@) == state.user_preferences.keys()
            && all.1@.len() == state.user_preferences.items().len() && forall|i: int|
            0 <= i < all.1@.len() ==> *all.1@[i] == state.user_preferences.items()[i],
{
    TauriResult::success(state.get_all_preferences())
}

/// Puts `value` under `key` among the preferences and says so.
pub fn set_user_preference(state: &mut AppState, key: &str, value: Payload) -> (r: TauriResult<
    String,
>)
    requires
        old(state).well_formed(),
    ensures
        final(state).well_formed(),
        (final(state).user_preferences.keys(), final(state).user_preferences.items()) == put(
            old(state).user_preferences.keys(),
            old(state).user_preferences.items(),
            key@,
            value,
        ),
        final(state).current_project == old(state).current_project,
        final(state).ai_providers == old(state).ai_providers,
        final(state).chat_sessions == old(state).chat_sessions,
        r.well_formed(),
        r.success,
        r.data matches Some(t) && t@ == "Preference '"@ + key@ + "' updated successfully"@,
{
    let _ = state.set_preference(key, value);
    TauriResult::success(concat3("Preference '", key, "' updated successfully"))
}

} // verus!
