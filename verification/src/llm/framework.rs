//! Provider-neutral reply types.
use crate::tools::base::ToolCall;
use vstd::prelude::*;

verus! {

/// Token usage information.
#[derive(Debug, Clone, Copy)]
pub struct TokenUsage {
    pub input_tokens: usize,
    pub output_tokens: usize,
}

/// A provider's reply: its text, token usage and requested tool calls.
#[derive(Debug)]
pub struct LlmResponse {
    pub content: String,
    pub usage: TokenUsage,
    pub tool_calls: Vec<ToolCall>,
}

} // verus!
