//! Workspace state: the last channel and chat used.
use crate::clock::now;
use std::time::SystemTime;
use vstd::prelude::*;

verus! {

/// State tracked for the workspace.
#[derive(Debug, Clone)]
pub struct State {
    pub last_channel: Option<String>,
    pub last_chat_id: Option<String>,
    pub timestamp: SystemTime,
}

impl State {
    /// A state without a last channel or chat, stamped now.
    pub fn initial() -> (r: Self)
        ensures
            r.last_channel is None,
            r.last_chat_id is None,
    {
        State { last_channel: None, last_chat_id: None, timestamp: now() }
    }

    /// Records `channel` as the last channel and stamps the state now.
    pub fn set_last_channel(&mut self, channel: String)
        ensures
            final(self).last_channel == Some(channel),
            final(self).last_chat_id == old(self).last_chat_id,
    {
        self.last_channel = Some(channel);
        self.timestamp = now();
    }

    /// Records `chat_id` as the last chat and stamps the state now.
    pub fn set_last_chat_id(&mut self, chat_id: String)
        ensures
            final(self).last_chat_id == Some(chat_id),
            final(self).last_channel == old(self).last_channel,
    {
        self.last_chat_id = Some(chat_id);
        self.timestamp = now();
    }
}

} // verus!
