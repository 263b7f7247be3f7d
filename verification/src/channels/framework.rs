//! Channel message types.
use std::time::SystemTime;
use vstd::prelude::*;

verus! {

/// Incoming message from a channel.
#[derive(Debug, Clone)]
pub struct IncomingMessage {
    pub channel_id: String,
    pub user_id: String,
    pub content: String,
    pub timestamp: SystemTime,
}

/// Outgoing message to a channel.
#[derive(Debug, Clone)]
pub struct OutgoingMessage {
    pub channel_id: String,
    pub user_id: String,
    pub content: String,
}

/// Channel type enumeration.
#[derive(Debug, Clone, Copy, PartialEq, Eq, Structural)]
pub enum ChannelType {
    Telegram,
    Discord,
    DingTalk,
    Line,
    QQ,
    WhatsApp,
}

} // verus!
