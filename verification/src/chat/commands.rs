//! The commands of the chat: opening a session, adding a message to it, and
//! looking it up.

use vstd::prelude::*;
use vstd::string::*;
use crate::chat::types::{ChatMessage, ChatSession};
use crate::errors::rendered;
use crate::project::types::ProjectContext;
use crate::state_collections::{key_position, lemma_key_position, put, Entries};
use crate::text::{concat2, str_eq};
use crate::types::TauriResult;

verus! {

/// The name of the session of a project whose path ends in `leaf`.
pub open spec fn session_name(leaf: Option<Seq<char>>) -> Seq<char> {
    "Chat - "@ + (match leaf {
        Some(l) => l,
        None => "Project"@,
    })
}

/// The open project is the one at `project_path`.
pub open spec fn is_open_at(current: Option<ProjectContext>, project_path: Seq<char>) -> bool {
    current matches Some(c) && c.root_path@ == project_path
}

/// Opens a session about the project at `project_path` and puts it into
/// `sessions` under its fresh identifier, which is answered. The session is
/// about the open project where that is the project at the path, and else
/// about an unknown project at the path. `leaf` is the final component of
/// the path.
pub fn create_chat_session(
    sessions: &mut Entries<ChatSession>,
    project_path: &str,
    leaf: Option<&str>,
    current: Option<ProjectContext>,
) -> (r: TauriResult<String>)
    requires
        old(sessions).well_formed(),
    ensures
        final(sessions).well_formed(),
        r.well_formed(),
        r.success,
        r.data matches Some(id) && {
            &&& final(sessions).at(id@) matches Some(s)
            &&& s.id@ == id@
            &&& s.name@ == session_name(
                match leaf {
                    Some(l) => Some(l@),
                    None => None,
                },
            )
            &&& s.messages@.len() == 0
            &&& is_open_at(current, project_path@) ==> s.context == current->0
            &&& !is_open_at(current, project_path@) ==> s.context.root_path@ == project_path@
                && s.context.project_type@ == "unknown"@
            &&& (final(sessions).keys(), final(sessions).items()) == put(
                old(sessions).keys(),
                old(sessions).items(),
                id@,
                s,
            )
        },
{
    let context = match current {
        Some(c) => {
            if str_eq(c.root_path.as_str(), project_path) {
                c
            } else {
                ProjectContext::new(project_path, "unknown")
            }
        },
        None => ProjectContext::new(project_path, "unknown"),
    };
    let name = concat2(
        "Chat - ",
        match leaf {
            Some(l) => l,
            None => "Project",
        },
    );
    let session = ChatSession::new(name.as_str(), context);
    let id = session.id.clone();
    sessions.insert(id.as_str(), session);
    TauriResult::success(id)
}

/// What is answered where there is no session under an identifier.
pub open spec fn session_not_found() -> Seq<char> {
    rendered("SESSION_NOT_FOUND"@, "Chat session not found"@)
}

fn not_found<T>() -> (r: TauriResult<T>)
    ensures
        r.well_formed(),
        r.is_error(session_not_found()),
{
    let e = crate::errors::AppError::chat("SESSION_NOT_FOUND", "Chat session not found");
    let text = e.render();
    TauriResult::error(text.as_str())
}

/// Adds `message` to the end of the log of the session under `session_id`.
/// It says whether there is such a session; if not, nothing changes.
pub fn append_message(sessions: &mut Entries<ChatSession>, session_id: &str, message: ChatMessage) -> (r:
    bool)
    requires
        old(sessions).well_formed(),
    ensures
        final(sessions).well_formed(),
        r == old(sessions).keys().contains(session_id@),
        final(sessions).keys() == old(sessions).keys(),
        !r ==> final(sessions).items() == old(sessions).items(),
        r ==> {
            let before = old(sessions).at(session_id@)->0;
            &&& final(sessions).at(session_id@) matches Some(after)
            &&& after.messages@ == before.messages@.push(message)
            &&& after.id == before.id
            &&& after.name == before.name
            &&& after.context == before.context
            &&& after.created_at == before.created_at
            &&& final(sessions).items() == old(sessions).items().update(
                key_position(old(sessions).keys(), session_id@),
                after,
            )
        },
{
    proof {
        lemma_key_position(sessions.keys(), session_id@);
    }
    let i = match sessions.index_of(session_id) {
        Some(i) => i,
        None => {
            return false;
        },
    };
    let ghost keys = sessions.keys();
    let ghost items = sessions.items();
    match sessions.remove(session_id) {
        None => false,
        Some(mut session) => {
            proof {
                lemma_key_position(sessions.keys(), session_id@);
            }
            session.add_message(message);
            sessions.insert_at(i, session_id, session);
            proof {
                assert(sessions.keys() =~= keys);
                assert(sessions.items() =~= items.update(i as int, session));
            }
            true
        },
    }
}

/// What sending a message answers: the message as it was added, or the
/// failure that there is no such session.
pub open spec fn message_answer(
    found: bool,
    content: Seq<char>,
    r: TauriResult<ChatMessage>,
) -> bool {
    &&& r.well_formed()
    &&& if found {
        r.success && (r.data matches Some(m) && m.message_type@ == "user"@ && m.content@ == content
            && m.metadata is None)
    } else {
        r.is_error(session_not_found())
    }
}

/// Adds a message of the user with the text `content` to the session under
/// `session_id` and answers the message.
pub fn send_chat_message(sessions: &mut Entries<ChatSession>, session_id: &str, content: &str) -> (r:
    TauriResult<ChatMessage>)
    requires
        old(sessions).well_formed(),
    ensures
        final(sessions).well_formed(),
        final(sessions).keys() == old(sessions).keys(),
        message_answer(old(sessions).keys().contains(session_id@), content@, r),
        !old(sessions).keys().contains(session_id@) ==> final(sessions).items() == old(sessions).items(),
        old(sessions).keys().contains(session_id@) ==> (r.data matches Some(m) && final(sessions).at(session_id@) matches Some(after) && {
            let before = old(sessions).at(session_id@)->0;
            &&& after.messages@.len() == before.messages@.len() + 1
            &&& after.messages@.drop_last() == before.messages@
            &&& after.messages@.last().id@ == m.id@
            &&& after.messages@.last().content@ == content@
            &&& after.messages@.last().message_type@ == "user"@
            &&& after.messages@.last().timestamp == m.timestamp
        }),
{
    let message = ChatMessage::user_message(content);
    let copy = ChatMessage {
        id: message.id.clone(),
        message_type: message.message_type.clone(),
        content: message.content.clone(),
        timestamp: message.timestamp,
        metadata: None,
    };
    if append_message(sessions, session_id, message) {
        proof {
            let before = old(sessions).at(session_id@)->0;
            let after = sessions.at(session_id@)->0;
            assert(after.messages@.drop_last() =~= before.messages@);
        }
        TauriResult::success(copy)
    } else {
        not_found()
    }
}

/// Looks the session under `session_id` up.
pub fn get_chat_session<'a>(sessions: &'a Entries<ChatSession>, session_id: &str) -> (r: TauriResult<
    &'a ChatSession,
>)
    requires
        sessions.well_formed(),
    ensures
        r.well_formed(),
        match sessions.at(session_id@) {
            Some(s) => r.success && (r.data matches Some(found) && *found == s),
            None => r.is_error(session_not_found()),
        },
{
    match sessions.get(session_id) {
        Some(s) => TauriResult::success(s),
        None => not_found(),
    }
}

} // verus!
