//! The events a chat reports to its listeners, and the names under which the
//! WebSocket protocol forwards them.
use crate::text::to_owned_string;
use crate::todo::{text_of, TodoItem};
use vstd::prelude::*;

verus! {

/// A stored chat message, as events carry it.
#[derive(Debug, Clone)]
pub struct StoredMessage {
    pub id: i64,
    pub chat_id: i64,
    pub role: String,
    pub content: String,
    pub created_at: String,
    pub model: Option<String>,
    pub thinking_content: Option<String>,
}

/// Two stored messages with the same id, chat, texts, model and reasoning.
pub open spec fn same_message(a: StoredMessage, b: StoredMessage) -> bool {
    &&& a.id == b.id
    &&& a.chat_id == b.chat_id
    &&& a.role@ == b.role@
    &&& a.content@ == b.content@
    &&& a.created_at@ == b.created_at@
    &&& crate::scenario::opt_text(a.model) == crate::scenario::opt_text(b.model)
    &&& crate::scenario::opt_text(a.thinking_content) == crate::scenario::opt_text(b.thinking_content)
}

fn owned_opt(s: Option<&str>) -> (r: Option<String>)
    ensures
        crate::scenario::opt_text(r) == text_of(s),
{
    match s {
        Some(t) => Some(to_owned_string(t)),
        None => None,
    }
}

/// A message just stored under `id`, stamped `created_at` (an RFC 3339 time),
/// and the event that announces it.
pub fn stored_message_added(
    id: i64,
    chat_id: i64,
    role: &str,
    content: &str,
    model: Option<&str>,
    thinking_content: Option<&str>,
    created_at: String,
) -> (r: (StoredMessage, ChatEvent))
    ensures
        r.0.id == id,
        r.0.chat_id == chat_id,
        r.0.role@ == role@,
        r.0.content@ == content@,
        crate::scenario::opt_text(r.0.model) == text_of(model),
        crate::scenario::opt_text(r.0.thinking_content) == text_of(thinking_content),
        r.0.created_at@ == created_at@,
        r.1 matches ChatEvent::MessageAdded { chat_id: c, message: m } && c == chat_id && same_message(m, r.0),
{
    let message = StoredMessage {
        id,
        chat_id,
        role: to_owned_string(role),
        content: to_owned_string(content),
        created_at: created_at.clone(),
        model: owned_opt(model),
        thinking_content: owned_opt(thinking_content),
    };
    let announced = StoredMessage {
        id,
        chat_id,
        role: to_owned_string(role),
        content: to_owned_string(content),
        created_at,
        model: owned_opt(model),
        thinking_content: owned_opt(thinking_content),
    };
    let event = ChatEvent::MessageAdded { chat_id, message: announced };
    (message, event)
}

/// A message as it is sent to the AI.
#[derive(Debug, Clone)]
pub enum PromptMessage {
    System { content: String },
    User { content: String },
    Assistant { content: String, thinking: Option<String> },
}

/// The prompt message a stored message becomes: system and assistant
/// messages keep their role (an assistant message its reasoning too), every
/// other role is sent as the user's.
pub open spec fn prompt_of(m: StoredMessage, p: PromptMessage) -> bool {
    if m.role@ == "system"@ {
        p matches PromptMessage::System { content } && content@ == m.content@
    } else if m.role@ == "assistant"@ {
        p matches PromptMessage::Assistant { content, thinking } && content@ == m.content@
            && crate::scenario::opt_text(thinking) == crate::scenario::opt_text(m.thinking_content)
    } else {
        p matches PromptMessage::User { content } && content@ == m.content@
    }
}

fn clone_opt(s: &Option<String>) -> (r: Option<String>)
    ensures
        crate::scenario::opt_text(r) == crate::scenario::opt_text(*s),
{
    match s {
        Some(t) => Some(t.clone()),
        None => None,
    }
}

/// The messages of a chat as they are sent to the AI, in order.
pub fn build_chat_messages(messages: &[StoredMessage]) -> (r: Vec<PromptMessage>)
    ensures
        r@.len() == messages@.len(),
        forall|i: int| 0 <= i < messages@.len() ==> prompt_of(messages@[i], #[trigger] r@[i]),
{
    let mut r: Vec<PromptMessage> = Vec::new();
    let mut i: usize = 0;
    while i < messages.len()
        invariant
            i <= messages@.len(),
            r@.len() == i,
            forall|j: int| 0 <= j < i ==> prompt_of(messages@[j], #[trigger] r@[j]),
        decreases messages@.len() - i,
    {
        let m = &messages[i];
        let content = m.content.clone();
        let p = if crate::text::str_eq(m.role.as_str(), "system") {
            PromptMessage::System { content }
        } else if crate::text::str_eq(m.role.as_str(), "assistant") {
            PromptMessage::Assistant { content, thinking: clone_opt(&m.thinking_content) }
        } else {
            PromptMessage::User { content }
        };
        r.push(p);
        i += 1;
    }
    r
}

/// What happened in a chat.
#[derive(Debug, Clone)]
pub enum ChatEvent {
    StreamChunk { chat_id: i64, content: String },
    ThinkingChunk { chat_id: i64, content: String },
    StreamFinished { chat_id: i64, message_id: i64, finish_reason: String },
    StreamError { chat_id: i64, error: String },
    MessageAdded { chat_id: i64, message: StoredMessage },
    MessageRemoved { chat_id: i64, message_id: i64 },
    MessageReplaced { chat_id: i64, message: StoredMessage },
    DevNotification { title: String, message: String },
    ProjectAttached { chat_id: i64, project_name: String },
    ProjectDetached { chat_id: i64, project_name: String },
    ToolCallStarted { chat_id: i64, tool_call_id: String, tool_name: String, arguments: String, mcp_id: String },
    ToolCallCompleted { chat_id: i64, tool_call_id: String, result: String, is_error: bool },
    ChatPaused { chat_id: i64 },
    ChatResumed { chat_id: i64 },
    StreamAborted { chat_id: i64 },
    MessageQueued { chat_id: i64, content: String, model: String },
    RoleChanged { chat_id: i64, project_name: String, role_name: String },
    RolesUpdated { chat_id: i64 },
    ActiveRoleCleared { chat_id: i64 },
    TodoListUpdated { chat_id: i64, items: Vec<TodoItem> },
}

/// The name under which the WebSocket protocol forwards an event.
pub open spec fn ws_name(e: ChatEvent) -> Seq<char> {
    match e {
        ChatEvent::StreamChunk { .. } => "chatStreamChunk"@,
        ChatEvent::ThinkingChunk { .. } => "chatThinkingChunk"@,
        ChatEvent::StreamFinished { .. } => "chatStreamFinished"@,
        ChatEvent::StreamError { .. } => "chatStreamError"@,
        ChatEvent::MessageAdded { .. } => "chatMessageAdded"@,
        ChatEvent::MessageRemoved { .. } => "chatMessageRemoved"@,
        ChatEvent::MessageReplaced { .. } => "chatMessageReplaced"@,
        ChatEvent::DevNotification { .. } => "devNotification"@,
        ChatEvent::ProjectAttached { .. } => "projectAttached"@,
        ChatEvent::ProjectDetached { .. } => "projectDetached"@,
        ChatEvent::ToolCallStarted { .. } => "chatToolCallStarted"@,
        ChatEvent::ToolCallCompleted { .. } => "chatToolCallCompleted"@,
        ChatEvent::ChatPaused { .. } => "chatPaused"@,
        ChatEvent::ChatResumed { .. } => "chatResumed"@,
        ChatEvent::StreamAborted { .. } => "streamAborted"@,
        ChatEvent::MessageQueued { .. } => "messageQueued"@,
        ChatEvent::RoleChanged { .. } => "roleChanged"@,
        ChatEvent::RolesUpdated { .. } => "rolesUpdated"@,
        ChatEvent::ActiveRoleCleared { .. } => "activeRoleCleared"@,
        ChatEvent::TodoListUpdated { .. } => "todoListUpdated"@,
    }
}

impl ChatEvent {
    /// The name under which the WebSocket protocol forwards the event.
    pub fn ws_event_name(&self) -> (r: &'static str)
        ensures
            r@ == ws_name(*self),
    {
        match self {
            ChatEvent::StreamChunk { .. } => "chatStreamChunk",
            ChatEvent::ThinkingChunk { .. } => "chatThinkingChunk",
            ChatEvent::StreamFinished { .. } => "chatStreamFinished",
            ChatEvent::StreamError { .. } => "chatStreamError",
            ChatEvent::MessageAdded { .. } => "chatMessageAdded",
            ChatEvent::MessageRemoved { .. } => "chatMessageRemoved",
            ChatEvent::MessageReplaced { .. } => "chatMessageReplaced",
            ChatEvent::DevNotification { .. } => "devNotification",
            ChatEvent::ProjectAttached { .. } => "projectAttached",
            ChatEvent::ProjectDetached { .. } => "projectDetached",
            ChatEvent::ToolCallStarted { .. } => "chatToolCallStarted",
            ChatEvent::ToolCallCompleted { .. } => "chatToolCallCompleted",
            ChatEvent::ChatPaused { .. } => "chatPaused",
            ChatEvent::ChatResumed { .. } => "chatResumed",
            ChatEvent::StreamAborted { .. } => "streamAborted",
            ChatEvent::MessageQueued { .. } => "messageQueued",
            ChatEvent::RoleChanged { .. } => "roleChanged",
            ChatEvent::RolesUpdated { .. } => "rolesUpdated",
            ChatEvent::ActiveRoleCleared { .. } => "activeRoleCleared",
            ChatEvent::TodoListUpdated { .. } => "todoListUpdated",
        }
    }
}

} // verus!
