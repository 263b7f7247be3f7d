//! Sessions and their metadata.
use crate::agent::context::{is_plain_message, Message, MessageRole};
use std::collections::HashMap;
use std::time::SystemTime;
use vstd::prelude::*;

verus! {

/// Session metadata.
#[derive(Debug, Clone)]
pub struct SessionMetadata {
    pub channel: String,
    pub tags: Vec<String>,
    pub custom_data: HashMap<String, String>,
}

/// A conversation session.
#[derive(Debug)]
pub struct Session {
    pub id: String,
    pub user_id: String,
    pub created_at: SystemTime,
    pub last_activity: SystemTime,
    pub messages: Vec<Message>,
    pub metadata: SessionMetadata,
}

impl Session {
    /// Opens a turn: the session's channel becomes `channel` and the user's message
    /// joins its messages.
    pub fn record_user_message(&mut self, channel: &str, content: &str)
        ensures
            final(self).metadata.channel@ == channel@,
            final(self).metadata.tags == old(self).metadata.tags,
            final(self).metadata.custom_data == old(self).metadata.custom_data,
            final(self).id == old(self).id,
            final(self).user_id == old(self).user_id,
            final(self).created_at == old(self).created_at,
            final(self).last_activity == old(self).last_activity,
            final(self).messages@.len() == old(self).messages@.len() + 1,
            final(self).messages@.drop_last() == old(self).messages@,
            is_plain_message(final(self).messages@.last(), MessageRole::User, content@),
    {
        self.metadata.channel = channel.to_owned();
        self.messages.push(Message::plain(MessageRole::User, content.to_owned()));
    }

    /// Closes a turn: the assistant's answer joins the session's messages.
    pub fn record_assistant_message(&mut self, content: &str)
        ensures
            final(self).metadata == old(self).metadata,
            final(self).id == old(self).id,
            final(self).user_id == old(self).user_id,
            final(self).created_at == old(self).created_at,
            final(self).last_activity == old(self).last_activity,
            final(self).messages@.len() == old(self).messages@.len() + 1,
            final(self).messages@.drop_last() == old(self).messages@,
            is_plain_message(final(self).messages@.last(), MessageRole::Assistant, content@),
    {
        self.messages.push(Message::plain(MessageRole::Assistant, content.to_owned()));
    }
}

} // verus!
