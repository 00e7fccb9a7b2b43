//! Messages and the sessions that hold them.

use vstd::prelude::*;
use vstd::string::*;
use crate::project::types::ProjectContext;
use crate::state_collections::{Entries, Payload};
use crate::text::str_eq;
use crate::types::{current_timestamp, generate_id};

verus! {

/// One message of a conversation.
#[derive(Debug)]
pub struct ChatMessage {
    pub id: String,
    /// `user`, `ai` or `system`.
    pub message_type: String,
    pub content: String,
    /// When the message was made, in seconds since the Unix epoch.
    pub timestamp: u64,
    pub metadata: Option<Entries<Payload>>,
}

impl ChatMessage {
    fn of_kind(message_type: &str, content: &str) -> (m: Self)
        ensures
            m.message_type@ == message_type@,
            m.content@ == content@,
            m.metadata is None,
            m.id@.len() == 36,
    {
        ChatMessage {
            id: generate_id(),
            message_type: String::from_str(message_type),
            content: String::from_str(content),
            timestamp: current_timestamp(),
            metadata: None,
        }
    }

    /// A message of the user, made now under a fresh identifier.
    pub fn user_message(content: &str) -> (m: Self)
        ensures
            m.message_type@ == "user"@,
            m.content@ == content@,
            m.metadata is None,
            m.id@.len() == 36,
    {
        ChatMessage::of_kind("user", content)
    }

    /// A message of the model, made now under a fresh identifier.
    pub fn ai_message(content: &str) -> (m: Self)
        ensures
            m.message_type@ == "ai"@,
            m.content@ == content@,
            m.metadata is None,
            m.id@.len() == 36,
    {
        ChatMessage::of_kind("ai", content)
    }

    /// A message of the system, made now under a fresh identifier.
    pub fn system_message(content: &str) -> (m: Self)
        ensures
            m.message_type@ == "system"@,
            m.content@ == content@,
            m.metadata is None,
            m.id@.len() == 36,
    {
        ChatMessage::of_kind("system", content)
    }

    /// The same message with the metadata `metadata`.
    pub fn with_metadata(self, metadata: Entries<Payload>) -> (m: Self)
        ensures
            m == (ChatMessage { metadata: Some(metadata), ..self }),
    {
        ChatMessage { metadata: Some(metadata), ..self }
    }

    /// The message is the user's.
    pub fn is_user_message(&self) -> (r: bool)
        ensures
            r == (self.message_type@ == "user"@),
    {
        str_eq(self.message_type.as_str(), "user")
    }

    /// The message is the model's.
    pub fn is_ai_message(&self) -> (r: bool)
        ensures
            r == (self.message_type@ == "ai"@),
    {
        str_eq(self.message_type.as_str(), "ai")
    }

    /// The message is the system's.
    pub fn is_system_message(&self) -> (r: bool)
        ensures
            r == (self.message_type@ == "system"@),
    {
        str_eq(self.message_type.as_str(), "system")
    }
}

/// The messages of the kind `kind` among `messages`, in order.
pub open spec fn of_kind(messages: Seq<ChatMessage>, kind: Seq<char>) -> Seq<ChatMessage>
    decreases messages.len(),
{
    if messages.len() == 0 {
        Seq::empty()
    } else if messages.last().message_type@ == kind {
        of_kind(messages.drop_last(), kind).push(messages.last())
    } else {
        of_kind(messages.drop_last(), kind)
    }
}

/// The last `limit` of `messages`, or all of them where there are fewer or
/// no limit is given.
pub open spec fn history(messages: Seq<ChatMessage>, limit: Option<usize>) -> Seq<ChatMessage> {
    match limit {
        Some(l) => if messages.len() > l {
            messages.subrange(messages.len() - l, messages.len() as int)
        } else {
            messages
        },
        None => messages,
    }
}

/// What a vector of references refers to, in order.
pub open spec fn referred(v: Seq<&ChatMessage>) -> Seq<ChatMessage> {
    v.map_values(|m: &ChatMessage| *m)
}

/// A conversation about a project. Messages are only ever added at the end.
#[derive(Debug)]
pub struct ChatSession {
    pub id: String,
    pub name: String,
    pub messages: Vec<ChatMessage>,
    pub context: ProjectContext,
    pub created_at: u64,
    pub updated_at: u64,
}

impl ChatSession {
    /// An empty session about `context`, made now under a fresh identifier.
    pub fn new(name: &str, context: ProjectContext) -> (s: Self)
        ensures
            s.name@ == name@,
            s.messages@.len() == 0,
            s.context == context,
            s.created_at == s.updated_at,
            s.id@.len() == 36,
    {
        let now = current_timestamp();
        ChatSession {
            id: generate_id(),
            name: String::from_str(name),
            messages: Vec::new(),
            context,
            created_at: now,
            updated_at: now,
        }
    }

    /// Adds `message` at the end of the log.
    pub fn add_message(&mut self, message: ChatMessage)
        ensures
            final(self).messages@ == old(self).messages@.push(message),
            final(self).id == old(self).id,
            final(self).name == old(self).name,
            final(self).context == old(self).context,
            final(self).created_at == old(self).created_at,
    {
        self.messages.push(message);
        self.updated_at = current_timestamp();
    }

    /// The number of messages.
    pub fn message_count(&self) -> (n: usize)
        ensures
            n == self.messages@.len(),
    {
        self.messages.len()
    }

    /// The message added last.
    pub fn last_message(&self) -> (r: Option<&ChatMessage>)
        ensures
            match r {
                Some(m) => self.messages@.len() > 0 && *m == self.messages@.last(),
                None => self.messages@.len() == 0,
            },
    {
        if self.messages.len() == 0 {
            None
        } else {
            Some(&self.messages[self.messages.len() - 1])
        }
    }

    fn messages_of_kind(&self, kind: &str) -> (r: Vec<&ChatMessage>)
        ensures
            referred(r@) == of_kind(self.messages@, kind@),
    {
        let mut r: Vec<&ChatMessage> = Vec::new();
        let mut i: usize = 0;
        proof {
            assert(self.messages@.take(0) =~= Seq::empty());
            assert(referred(r@) =~= Seq::empty());
        }
        while i < self.messages.len()
            invariant
                i <= self.messages.len(),
                referred(r@) == of_kind(self.messages@.take(i as int), kind@),
            decreases self.messages.len() - i,
        {
            proof {
                assert(self.messages@.take(i + 1).drop_last() =~= self.messages@.take(i as int));
            }
            if str_eq(self.messages[i].message_type.as_str(), kind) {
                let ghost old_r = r@;
                r.push(&self.messages[i]);
                proof {
                    assert(referred(r@) =~= referred(old_r).push(self.messages@[i as int]));
                }
            }
            i += 1;
        }
        proof {
            assert(self.messages@.take(i as int) =~= self.messages@);
        }
        r
    }

    /// The messages of the user, in order.
    pub fn user_messages(&self) -> (r: Vec<&ChatMessage>)
        ensures
            referred(r@) == of_kind(self.messages@, "user"@),
    {
        self.messages_of_kind("user")
    }

    /// The messages of the model, in order.
    pub fn ai_messages(&self) -> (r: Vec<&ChatMessage>)
        ensures
            referred(r@) == of_kind(self.messages@, "ai"@),
    {
        self.messages_of_kind("ai")
    }

    /// The last `limit` messages, or all of them.
    pub fn get_conversation_history(&self, limit: Option<usize>) -> (r: Vec<&ChatMessage>)
        ensures
            referred(r@) == history(self.messages@, limit),
    {
        let start: usize = match limit {
            Some(l) => if self.messages.len() > l {
                self.messages.len() - l
            } else {
                0
            },
            None => 0,
        };
        let mut r: Vec<&ChatMessage> = Vec::new();
        let mut i: usize = start;
        proof {
            assert(referred(r@) =~= self.messages@.subrange(start as int, start as int));
        }
        while i < self.messages.len()
            invariant
                start <= i <= self.messages.len(),
                referred(r@) == self.messages@.subrange(start as int, i as int),
            decreases self.messages.len() - i,
        {
            let ghost old_r = r@;
            r.push(&self.messages[i]);
            proof {
                assert(referred(r@) =~= referred(old_r).push(self.messages@[i as int]));
                assert(self.messages@.subrange(start as int, i as int).push(
                    self.messages@[i as int],
                ) =~= self.messages@.subrange(start as int, i + 1));
            }
            i += 1;
        }
        proof {
            assert(self.messages@.subrange(0, self.messages@.len() as int) =~= self.messages@);
        }
        r
    }

    /// Empties the log.
    pub fn clear_messages(&mut self)
        ensures
            final(self).messages@.len() == 0,
            final(self).id == old(self).id,
            final(self).name == old(self).name,
            final(self).context == old(self).context,
            final(self).created_at == old(self).created_at,
    {
        self.messages = Vec::new();
        self.updated_at = current_timestamp();
    }
}

/// Where the user is working, as a conversation sees it.
#[derive(Debug)]
pub struct ChatContext {
    pub session_id: String,
    pub active_file: Option<String>,
    pub selected_text: Option<String>,
    pub cursor_position: Option<CursorPosition>,
    pub ai_preferences: Option<AiPreferences>,
}

/// A position in a text.
#[derive(Debug, Clone, Copy, PartialEq, Eq, Structural)]
pub struct CursorPosition {
    pub line: u32,
    pub column: u32,
}

/// How the user wants a model to be asked.
#[derive(Debug)]
pub struct AiPreferences {
    pub preferred_provider: Option<String>,
    pub max_tokens: Option<u32>,
    /// Sampling temperature in thousandths.
    pub temperature: Option<u32>,
    pub include_project_context: bool,
}

impl AiPreferences {
    /// No preferred provider, 2000 tokens, a temperature of 0.7, and the
    /// project included.
    pub fn default() -> (p: Self)
        ensures
            p.preferred_provider is None,
            p.max_tokens == Some(2000u32),
            p.temperature == Some(700u32),
            p.include_project_context,
    {
        AiPreferences {
            preferred_provider: None,
            max_tokens: Some(2000),
            temperature: Some(700),
            include_project_context: true,
        }
    }
}

} // verus!
