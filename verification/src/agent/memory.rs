//! Memory management for agent state and conversation history.
use vstd::prelude::*;

verus! {

/// Memory manager for conversation history and state. It does not track usage yet.
#[derive(Debug)]
pub struct MemoryManager {}

impl MemoryManager {
    /// A memory manager; the size limit is not used yet.
    pub fn new(_max_size_mb: usize) -> (r: Self) {
        MemoryManager {}
    }

    /// The memory in use: always 0, as usage is not tracked.
    pub fn get_memory_usage(&self) -> (r: usize)
        ensures
            r == 0,
    {
        0
    }
}

} // verus!
