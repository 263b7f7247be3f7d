//! Messages carried between channels and the agent.
use vstd::prelude::*;

verus! {

/// Inbound message from a channel.
#[derive(Debug, Clone)]
pub struct InboundMessage {
    pub channel: String,
    pub chat_id: String,
    pub user_id: String,
    pub content: String,
}

/// Outbound message to a channel.
#[derive(Debug, Clone)]
pub struct OutboundMessage {
    pub channel: String,
    pub chat_id: String,
    pub content: String,
}

} // verus!
