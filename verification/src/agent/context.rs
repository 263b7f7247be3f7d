//! Agent context: messages, roles and per-turn metadata.
use crate::clock::now;
use crate::session::store::Session;
use crate::tools::base::{calls_view, duplicate_calls, ToolCall};
use std::time::SystemTime;
use vstd::prelude::*;

verus! {

/// Message role.
#[derive(Debug, Clone, Copy, PartialEq, Eq, Structural)]
pub enum MessageRole {
    User,
    Assistant,
    System,
    Tool,
}

/// A message of a conversation.
#[derive(Debug)]
pub struct Message {
    pub role: MessageRole,
    pub content: String,
    pub timestamp: SystemTime,
    pub tool_calls: Option<Vec<ToolCall>>,
    pub tool_call_id: Option<String>,
}

/// Whether two messages have the same content and timestamp.
pub open spec fn same_message(a: Message, b: Message) -> bool {
    &&& a.role == b.role
    &&& a.content@ == b.content@
    &&& a.timestamp == b.timestamp
    &&& match (a.tool_calls, b.tool_calls) {
        (Some(x), Some(y)) => calls_view(x@) == calls_view(y@),
        (None, None) => true,
        _ => false,
    }
    &&& match (a.tool_call_id, b.tool_call_id) {
        (Some(x), Some(y)) => x@ == y@,
        (None, None) => true,
        _ => false,
    }
}

/// Whether `m` is a message with the given role and content, without tool calls or id.
pub open spec fn is_plain_message(m: Message, role: MessageRole, content: Seq<char>) -> bool {
    &&& m.role == role
    &&& m.content@ == content
    &&& m.tool_calls is None
    &&& m.tool_call_id is None
}

impl Message {
    /// A message with `role` and `content`, stamped now, without tool calls or id.
    pub fn plain(role: MessageRole, content: String) -> (r: Self)
        ensures
            is_plain_message(r, role, content@),
    {
        Message { role, content, timestamp: now(), tool_calls: None, tool_call_id: None }
    }

    /// A copy of the message.
    pub fn duplicate(&self) -> (r: Self)
        ensures
            same_message(r, *self),
    {
        Message {
            role: self.role,
            content: self.content.clone(),
            timestamp: self.timestamp.clone(),
            tool_calls: match &self.tool_calls {
                Some(c) => Some(duplicate_calls(c)),
                None => None,
            },
            tool_call_id: match &self.tool_call_id {
                Some(i) => Some(i.clone()),
                None => None,
            },
        }
    }
}

/// Copies of a list of messages.
pub fn duplicate_messages(messages: &Vec<Message>) -> (r: Vec<Message>)
    ensures
        r.len() == messages.len(),
        forall|i: int| 0 <= i < r.len() ==> same_message(#[trigger] r@[i], messages@[i]),
{
    let mut r: Vec<Message> = Vec::new();
    let mut i: usize = 0;
    while i < messages.len()
        invariant
            i <= messages.len(),
            r.len() == i,
            forall|k: int| 0 <= k < i ==> same_message(#[trigger] r@[k], messages@[k]),
        decreases messages.len() - i,
    {
        r.push(messages[i].duplicate());
        i = i + 1;
    }
    r
}

/// Copies of a list of strings.
pub fn duplicate_strings(v: &Vec<String>) -> (r: Vec<String>)
    ensures
        r@ == v@,
{
    let mut r: Vec<String> = Vec::new();
    let mut i: usize = 0;
    while i < v.len()
        invariant
            i <= v.len(),
            r.len() == i,
            forall|k: int| 0 <= k < i ==> #[trigger] r@[k] == v@[k],
        decreases v.len() - i,
    {
        r.push(v[i].clone());
        i = i + 1;
    }
    assert(r@ =~= v@);
    r
}

/// Context metadata.
#[derive(Debug, Clone)]
pub struct ContextMetadata {
    pub channel: String,
    pub user_id: String,
    pub tags: Vec<String>,
}

/// Agent context for message processing.
#[derive(Debug)]
pub struct AgentContext {
    pub session_id: String,
    pub user_input: String,
    pub conversation_history: Vec<Message>,
    pub available_tools: Vec<String>,
    pub metadata: ContextMetadata,
}

impl AgentContext {
    /// The context of a turn of `session`: the turn's ids, channel and input, a copy of
    /// the session's messages as history, the available tool names, and the session's
    /// tags.
    pub fn for_turn(
        session: &Session,
        session_id: &str,
        user_id: &str,
        channel: &str,
        user_input: &str,
        available_tools: Vec<String>,
    ) -> (r: Self)
        ensures
            r.session_id@ == session_id@,
            r.user_input@ == user_input@,
            r.conversation_history.len() == session.messages.len(),
            forall|i: int|
                0 <= i < r.conversation_history.len() ==> same_message(
                    #[trigger] r.conversation_history@[i],
                    session.messages@[i],
                ),
            r.available_tools == available_tools,
            r.metadata.channel@ == channel@,
            r.metadata.user_id@ == user_id@,
            r.metadata.tags@ == session.metadata.tags@,
    {
        AgentContext {
            session_id: session_id.to_owned(),
            user_input: user_input.to_owned(),
            conversation_history: duplicate_messages(&session.messages),
            available_tools,
            metadata: ContextMetadata {
                channel: channel.to_owned(),
                user_id: user_id.to_owned(),
                tags: duplicate_strings(&session.metadata.tags),
            },
        }
    }
}

} // verus!
