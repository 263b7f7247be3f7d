//! The registry of tools, keyed by tool name.
use crate::table::{is_registration, NameTable};
use crate::tools::base::ToolResult;
use vstd::prelude::*;
use vstd::string::StringExecFns;

verus! {

/// The message of the result for a tool that is not registered.
pub open spec fn not_found_message(name: Seq<char>) -> Seq<char> {
    "Tool '"@ + name + "' not found"@
}

/// Registry of tools. `T` is the executable form of a tool; the registry keeps one per
/// tool name.
#[derive(Debug)]
pub struct ToolRegistry<T> {
    pub tools: NameTable<T>,
}

impl<T> View for ToolRegistry<T> {
    type V = Map<Seq<char>, T>;

    open spec fn view(&self) -> Map<Seq<char>, T> {
        self.tools@
    }
}

impl<T> ToolRegistry<T> {
    /// The registry's invariant.
    pub open spec fn wf(&self) -> bool {
        self.tools.wf()
    }

    /// An empty registry.
    pub fn new() -> (r: Self)
        ensures
            r.wf(),
            r@ == Map::<Seq<char>, T>::empty(),
    {
        ToolRegistry { tools: NameTable::new() }
    }

    /// Registers `tool` under its `name`; a tool registered before under that name is
    /// replaced.
    pub fn register(&mut self, name: String, tool: T)
        requires
            old(self).wf(),
        ensures
            final(self).wf(),
            is_registration(old(self).tools, final(self).tools, name@, tool),
    {
        self.tools.insert(name, tool);
    }

    /// The tool registered under `name`.
    pub fn get(&self, name: &str) -> (r: Option<&T>)
        requires
            self.wf(),
        ensures
            match r {
                Some(t) => self@.contains_key(name@) && self@[name@] == *t,
                None => !self@.contains_key(name@),
            },
    {
        self.tools.get(name)
    }

    /// The tool to execute for `name`, or the error result that execution gives when
    /// no tool has that name.
    pub fn resolve(&self, name: &str) -> (r: Result<&T, ToolResult>)
        requires
            self.wf(),
        ensures
            match r {
                Ok(t) => self@.contains_key(name@) && self@[name@] == *t,
                Err(e) => !self@.contains_key(name@) && e.is_error && e.for_llm@ == not_found_message(name@)
                    && e.for_user is None && !e.silent && !e.async_exec,
            },
    {
        match self.tools.get(name) {
            Some(t) => Ok(t),
            None => {
                let mut m = "Tool '".to_owned();
                m.append(name);
                m.append("' not found");
                Err(ToolResult::error(m.as_str()))
            },
        }
    }

    /// The names of all tools, in registration order.
    pub fn list(&self) -> (r: Vec<String>)
        ensures
            r@.map_values(|s: String| s@) == self.tools.names(),
    {
        self.tools.names_list()
    }

    /// The number of tools.
    pub fn count(&self) -> (r: usize)
        ensures
            r == self.tools.names().len(),
    {
        self.tools.len()
    }
}

} // verus!
