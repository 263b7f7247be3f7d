//! Simple tool argument and result records.
use std::collections::HashMap;
use vstd::prelude::*;

verus! {

/// Tool arguments.
#[derive(Debug, Clone)]
pub struct ToolArgs {
    pub params: HashMap<String, String>,
}

/// Tool result.
#[derive(Debug, Clone)]
pub struct ToolResult {
    pub success: bool,
    pub output: String,
    pub metadata: HashMap<String, String>,
}

} // verus!
