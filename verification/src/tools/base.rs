//! Tool results, tool calls and tool definitions.
use crate::json::{duplicate_entries, entries_view, lemma_entries_view, Json, JsonV};
use vstd::prelude::*;

verus! {

/// Result from tool execution.
#[derive(Debug, Clone)]
pub struct ToolResult {
    /// Content for the LLM (what the tool learned or did).
    pub for_llm: String,
    /// Content to send to the user immediately, if any.
    pub for_user: Option<String>,
    /// Whether this is an error.
    pub is_error: bool,
    /// Whether to suppress user notification.
    pub silent: bool,
    /// Whether execution is asynchronous.
    pub async_exec: bool,
}

impl ToolResult {
    /// A successful result carrying `for_llm`.
    pub fn success(for_llm: &str) -> (r: Self)
        ensures
            r.for_llm@ == for_llm@,
            r.for_user is None,
            !r.is_error,
            !r.silent,
            !r.async_exec,
    {
        ToolResult {
            for_llm: for_llm.to_owned(),
            for_user: None,
            is_error: false,
            silent: false,
            async_exec: false,
        }
    }

    /// An error result carrying `message`.
    pub fn error(message: &str) -> (r: Self)
        ensures
            r.for_llm@ == message@,
            r.for_user is None,
            r.is_error,
            !r.silent,
            !r.async_exec,
    {
        ToolResult {
            for_llm: message.to_owned(),
            for_user: None,
            is_error: true,
            silent: false,
            async_exec: false,
        }
    }

    /// The same result with `content` as its user-facing text.
    pub fn with_user_content(self, content: &str) -> (r: Self)
        ensures
            r.for_user matches Some(u) && u@ == content@,
            r.for_llm == self.for_llm,
            r.is_error == self.is_error,
            r.silent == self.silent,
            r.async_exec == self.async_exec,
    {
        let mut r = self;
        r.for_user = Some(content.to_owned());
        r
    }

    /// The same result, marked silent.
    pub fn silent(self) -> (r: Self)
        ensures
            r.silent,
            r.for_llm == self.for_llm,
            r.for_user == self.for_user,
            r.is_error == self.is_error,
            r.async_exec == self.async_exec,
    {
        let mut r = self;
        r.silent = true;
        r
    }

    /// The same result, marked asynchronous.
    pub fn async_result(self) -> (r: Self)
        ensures
            r.async_exec,
            r.for_llm == self.for_llm,
            r.for_user == self.for_user,
            r.is_error == self.is_error,
            r.silent == self.silent,
    {
        let mut r = self;
        r.async_exec = true;
        r
    }
}

/// The arguments of a tool call, as the model sent them.
#[derive(Debug)]
pub enum ToolArguments {
    /// A JSON text that still has to be decoded into an object.
    Encoded(String),
    /// The fields of a JSON object.
    Fields(Vec<(String, Json)>),
}

/// The content of [`ToolArguments`].
pub enum ArgumentsV {
    Encoded(Seq<char>),
    Fields(Seq<(Seq<char>, JsonV)>),
}

impl View for ToolArguments {
    type V = ArgumentsV;

    open spec fn view(&self) -> ArgumentsV {
        match self {
            ToolArguments::Encoded(t) => ArgumentsV::Encoded(t@),
            ToolArguments::Fields(f) => ArgumentsV::Fields(entries_view(f@)),
        }
    }
}

/// The content of a [`ToolCall`]: its id, the tool's name and the arguments.
pub struct ToolCallV {
    pub id: Seq<char>,
    pub name: Seq<char>,
    pub arguments: ArgumentsV,
}

/// The contents of a list of tool calls.
pub open spec fn calls_view(calls: Seq<ToolCall>) -> Seq<ToolCallV> {
    calls.map_values(|c: ToolCall| c@)
}

/// A tool call from an LLM response.
#[derive(Debug)]
pub struct ToolCall {
    pub id: String,
    pub name: String,
    pub arguments: ToolArguments,
}

impl View for ToolCall {
    type V = ToolCallV;

    open spec fn view(&self) -> ToolCallV {
        ToolCallV { id: self.id@, name: self.name@, arguments: self.arguments@ }
    }
}

/// The fields a tool receives for arguments `args`: the fields themselves, or, for
/// encoded arguments, the fields of the text decoded as a JSON object (`decoded`, as
/// the caller decoded it), and no fields when the text is not a JSON object.
pub open spec fn received_fields(args: ArgumentsV, decoded: Option<Seq<(Seq<char>, JsonV)>>) -> Seq<(Seq<char>, JsonV)> {
    match args {
        ArgumentsV::Fields(f) => f,
        ArgumentsV::Encoded(_) => match decoded {
            Some(f) => f,
            None => Seq::empty(),
        },
    }
}

impl ToolArguments {
    /// The fields a tool receives, as `received_fields` gives them; `decoded` is the
    /// encoded text decoded as a JSON object, `None` when it is not one.
    pub fn fields(&self, decoded: Option<&Vec<(String, Json)>>) -> (r: Vec<(String, Json)>)
        ensures
            entries_view(r@) == received_fields(
                self@,
                match decoded {
                    Some(f) => Some(entries_view(f@)),
                    None => None,
                },
            ),
    {
        match self {
            ToolArguments::Fields(f) => duplicate_entries(f),
            ToolArguments::Encoded(_) => match decoded {
                Some(f) => duplicate_entries(f),
                None => {
                    let r: Vec<(String, Json)> = Vec::new();
                    assert(entries_view(r@) =~= Seq::<(Seq<char>, JsonV)>::empty());
                    r
                },
            },
        }
    }

    /// A copy of the arguments with the same content.
    pub fn duplicate(&self) -> (r: Self)
        ensures
            r@ == self@,
    {
        match self {
            ToolArguments::Encoded(t) => ToolArguments::Encoded(t.clone()),
            ToolArguments::Fields(f) => ToolArguments::Fields(duplicate_entries(f)),
        }
    }
}

impl ToolCall {
    /// A copy of the call with the same content.
    pub fn duplicate(&self) -> (r: Self)
        ensures
            r@ == self@,
    {
        ToolCall { id: self.id.clone(), name: self.name.clone(), arguments: self.arguments.duplicate() }
    }
}

/// Copies of a list of tool calls.
pub fn duplicate_calls(calls: &Vec<ToolCall>) -> (r: Vec<ToolCall>)
    ensures
        calls_view(r@) == calls_view(calls@),
{
    let mut r: Vec<ToolCall> = Vec::new();
    let mut i: usize = 0;
    while i < calls.len()
        invariant
            i <= calls.len(),
            r.len() == i,
            forall|k: int| 0 <= k < i ==> #[trigger] r@[k]@ == calls@[k]@,
        decreases calls.len() - i,
    {
        r.push(calls[i].duplicate());
        i = i + 1;
    }
    assert(calls_view(r@) =~= calls_view(calls@));
    r
}

/// The function part of a tool definition.
#[derive(Debug)]
pub struct ToolFunctionDefinition {
    pub name: String,
    pub description: String,
    pub parameters: Json,
}

/// A tool definition as offered to an LLM; `tool_type` is serialised as `type`.
#[derive(Debug)]
pub struct ToolDefinition {
    pub tool_type: String,
    pub function: ToolFunctionDefinition,
}

impl ToolDefinition {
    /// The definition of a function tool with the given name, description and parameter schema.
    pub fn from_parts(name: &str, description: &str, parameters: Json) -> (r: Self)
        ensures
            r.tool_type@ == "function"@,
            r.function.name@ == name@,
            r.function.description@ == description@,
            r.function.parameters == parameters,
    {
        ToolDefinition {
            tool_type: "function".to_owned(),
            function: ToolFunctionDefinition {
                name: name.to_owned(),
                description: description.to_owned(),
                parameters,
            },
        }
    }
}

/// The JSON form of a tool definition: its type and its function's name, description
/// and parameter schema.
pub open spec fn definition_json(tool_type: Seq<char>, name: Seq<char>, description: Seq<char>, parameters: JsonV) -> JsonV {
    JsonV::Object(
        seq![
            ("type"@, JsonV::Str(tool_type)),
            ("function"@, JsonV::Object(seq![
                ("name"@, JsonV::Str(name)),
                ("description"@, JsonV::Str(description)),
                ("parameters"@, parameters),
            ])),
        ],
    )
}

impl ToolDefinition {
    /// The definition as the JSON object that is offered to a model.
    pub fn to_json(&self) -> (r: Json)
        ensures
            r@ == definition_json(
                self.tool_type@,
                self.function.name@,
                self.function.description@,
                self.function.parameters@,
            ),
    {
        let mut inner: Vec<(String, Json)> = Vec::new();
        inner.push(("name".to_owned(), Json::Str(self.function.name.clone())));
        inner.push(("description".to_owned(), Json::Str(self.function.description.clone())));
        inner.push(("parameters".to_owned(), self.function.parameters.duplicate()));
        let mut outer: Vec<(String, Json)> = Vec::new();
        outer.push(("type".to_owned(), Json::Str(self.tool_type.clone())));
        let ghost inner_v = inner@;
        outer.push(("function".to_owned(), Json::Object(inner)));
        proof {
            lemma_entries_view(inner_v);
            lemma_entries_view(outer@);
            assert(entries_view(inner_v) =~= seq![
                ("name"@, JsonV::Str(self.function.name@)),
                ("description"@, JsonV::Str(self.function.description@)),
                ("parameters"@, self.function.parameters@),
            ]);
            assert(entries_view(outer@) =~= seq![
                ("type"@, JsonV::Str(self.tool_type@)),
                ("function"@, JsonV::Object(entries_view(inner_v))),
            ]);
        }
        Json::Object(outer)
    }
}

} // verus!
