//! The agent executor: the decisions of the tool-calling loop, as a state machine.
//!
//! The caller performs each step that [`ExecutorRun::next_step`] asks for (a model
//! request), hands back the reply with [`ExecutorRun::accept_reply`], runs the tool
//! calls that [`ExecutorRun::pending_calls`] lists, and hands back their results with
//! [`ExecutorRun::accept_tool_results`].
use crate::agent::context::MessageRole;
use crate::json::{entries_view, items_view, lemma_entries_view, lemma_items_view, Json, JsonV};
use crate::llm::client::LlmResponse;
use crate::text::{join, joined, same_text, views};
use crate::tools::base::{ToolCall, ToolResult};
use vstd::prelude::*;
use vstd::string::StringExecFns;

verus! {

/// The number of model requests a run makes at most.
pub const DEFAULT_MAX_ITERATIONS: usize = 10;

/// One entry of the conversation that is sent to the model.
#[derive(Debug)]
pub struct ChatMessage {
    pub role: MessageRole,
    pub content: String,
    /// The tool calls of an assistant message; serialised only when not empty.
    pub tool_calls: Vec<ToolCall>,
    /// The call that a tool message answers.
    pub tool_call_id: Option<String>,
}

/// Whether `m` is a message with the given role and content and nothing else.
pub open spec fn is_plain(m: ChatMessage, role: MessageRole, content: Seq<char>) -> bool {
    &&& m.role == role
    &&& m.content@ == content
    &&& m.tool_calls.len() == 0
    &&& m.tool_call_id is None
}

/// Whether `m` answers the call `id` with `content`.
pub open spec fn is_tool_answer(m: ChatMessage, id: Seq<char>, content: Seq<char>) -> bool {
    &&& m.role == MessageRole::Tool
    &&& m.content@ == content
    &&& m.tool_calls.len() == 0
    &&& m.tool_call_id matches Some(t) && t@ == id
}

/// Providers that accept messages with the `tool` role.
pub open spec fn supports_tool_role(provider: Seq<char>) -> bool {
    ||| provider == "openai"@
    ||| provider == "anthropic"@
    ||| provider == "openrouter"@
    ||| provider == "gemini"@
    ||| provider == "google"@
}

/// Providers that are offered tools, natively or through the prompt.
pub open spec fn enables_tools(provider: Seq<char>) -> bool {
    ||| provider == "openai"@
    ||| provider == "anthropic"@
    ||| provider == "openrouter"@
    ||| provider == "ollama"@
    ||| provider == "gemini"@
    ||| provider == "google"@
    ||| provider == "vllm"@
}

/// The instructions added to the system prompt of a provider without native tools
/// whose replies are read for tool calls (`ollama`): how to call a tool in the text.
pub open spec fn prompt_call_format() -> Seq<char> {
    "\n\n## Calling Tools\n\nTo call a tool, reply with only a JSON object of this form and nothing else:\n{\"name\": \"<tool name>\", \"arguments\": {\"<parameter>\": <value>}}"@
}

/// The system message of a run for `provider`: the prompt, with the tool-call format
/// for `ollama`.
pub open spec fn system_content(provider: Seq<char>, system_prompt: Seq<char>) -> Seq<char> {
    if provider == "ollama"@ {
        system_prompt + prompt_call_format()
    } else {
        system_prompt
    }
}

/// The content of the last user message of `conv`, or `fallback` when there is none.
pub open spec fn last_user_content(conv: Seq<ChatMessage>, fallback: Seq<char>) -> Seq<char>
    decreases conv.len(),
{
    if conv.len() == 0 {
        fallback
    } else if conv.last().role == MessageRole::User {
        conv.last().content@
    } else {
        last_user_content(conv.drop_last(), fallback)
    }
}

/// The line that reports one tool result to a provider without a tool role.
pub open spec fn result_line(name: Seq<char>, output: Seq<char>) -> Seq<char> {
    "Tool '"@ + name + "' result: "@ + output
}

/// The report lines for `calls` and their `results`.
pub open spec fn result_lines(calls: Seq<ToolCall>, results: Seq<ToolResult>) -> Seq<Seq<char>> {
    Seq::new(calls.len(), |i: int| result_line(calls[i].name@, results[i].for_llm@))
}

/// The wire name of a role.
pub open spec fn role_name(role: MessageRole) -> Seq<char> {
    match role {
        MessageRole::User => "user"@,
        MessageRole::Assistant => "assistant"@,
        MessageRole::System => "system"@,
        MessageRole::Tool => "tool"@,
    }
}

/// The wire name of `role`.
pub fn role_text(role: MessageRole) -> (r: &'static str)
    ensures
        r@ == role_name(role),
{
    match role {
        MessageRole::User => "user",
        MessageRole::Assistant => "assistant",
        MessageRole::System => "system",
        MessageRole::Tool => "tool",
    }
}

/// A tool call as the OpenAI-style object: its id, the type `function`, and the
/// function's name and arguments text.
pub open spec fn call_json(id: Seq<char>, name: Seq<char>, arguments: Seq<char>) -> JsonV {
    JsonV::Object(
        seq![
            ("id"@, JsonV::Str(id)),
            ("type"@, JsonV::Str("function"@)),
            ("function"@, JsonV::Object(seq![("name"@, JsonV::Str(name)), ("arguments"@, JsonV::Str(arguments))])),
        ],
    )
}

/// The arguments text of call `i`: `encoded[i]`, or empty text where there is none.
pub open spec fn arguments_text(encoded: Seq<String>, i: int) -> Seq<char> {
    if 0 <= i < encoded.len() {
        encoded[i]@
    } else {
        Seq::empty()
    }
}

/// A conversation entry as the OpenAI-style message object. A tool message carries
/// the call it answers (empty when it names none); another message carries its role
/// and content, and, where it asked for tools, its calls with their arguments text
/// taken from `encoded`.
pub open spec fn message_json(m: ChatMessage, encoded: Seq<String>) -> JsonV {
    if m.role == MessageRole::Tool {
        JsonV::Object(
            seq![
                ("role"@, JsonV::Str("tool"@)),
                ("tool_call_id"@, JsonV::Str(
                    match m.tool_call_id {
                        Some(t) => t@,
                        None => Seq::empty(),
                    },
                )),
                ("content"@, JsonV::Str(m.content@)),
            ],
        )
    } else if m.tool_calls.len() == 0 {
        JsonV::Object(seq![("role"@, JsonV::Str(role_name(m.role))), ("content"@, JsonV::Str(m.content@))])
    } else {
        JsonV::Object(
            seq![
                ("role"@, JsonV::Str(role_name(m.role))),
                ("content"@, JsonV::Str(m.content@)),
                ("tool_calls"@, JsonV::Array(
                    Seq::new(
                        m.tool_calls.len() as nat,
                        |i: int|
                            call_json(m.tool_calls@[i].id@, m.tool_calls@[i].name@, arguments_text(encoded, i)),
                    ),
                )),
            ],
        )
    }
}

/// The JSON object of a tool call with the given arguments text.
fn call_to_json(call: &ToolCall, arguments: String) -> (r: Json)
    ensures
        r@ == call_json(call.id@, call.name@, arguments@),
{
    let mut function: Vec<(String, Json)> = Vec::new();
    function.push(("name".to_owned(), Json::Str(call.name.clone())));
    function.push(("arguments".to_owned(), Json::Str(arguments)));
    let ghost function_v = function@;
    let mut e: Vec<(String, Json)> = Vec::new();
    e.push(("id".to_owned(), Json::Str(call.id.clone())));
    e.push(("type".to_owned(), Json::Str("function".to_owned())));
    e.push(("function".to_owned(), Json::Object(function)));
    proof {
        lemma_entries_view(function_v);
        lemma_entries_view(e@);
        assert(entries_view(function_v) =~= seq![("name"@, JsonV::Str(call.name@)), ("arguments"@, JsonV::Str(arguments@))]);
        assert(entries_view(e@) =~= seq![
            ("id"@, JsonV::Str(call.id@)),
            ("type"@, JsonV::Str("function"@)),
            ("function"@, JsonV::Object(entries_view(function_v))),
        ]);
    }
    Json::Object(e)
}

impl ChatMessage {
    /// The message as the OpenAI-style object sent to a model. The arguments of each
    /// tool call are handed in as JSON text, `encoded[i]` for call `i`; a call without
    /// one is sent with empty arguments text, as when its encoding fails.
    pub fn to_json(&self, encoded: &Vec<String>) -> (r: Json)
        ensures
            r@ == message_json(*self, encoded@),
    {
        let mut e: Vec<(String, Json)> = Vec::new();
        if self.role == MessageRole::Tool {
            let id = match &self.tool_call_id {
                Some(t) => t.clone(),
                None => String::new(),
            };
            e.push(("role".to_owned(), Json::Str("tool".to_owned())));
            e.push(("tool_call_id".to_owned(), Json::Str(id)));
            e.push(("content".to_owned(), Json::Str(self.content.clone())));
            proof {
                lemma_entries_view(e@);
                assert(entries_view(e@) =~= seq![
                    ("role"@, JsonV::Str("tool"@)),
                    ("tool_call_id"@, JsonV::Str(
                        match self.tool_call_id {
                            Some(t) => t@,
                            None => Seq::empty(),
                        },
                    )),
                    ("content"@, JsonV::Str(self.content@)),
                ]);
            }
            return Json::Object(e);
        }
        e.push(("role".to_owned(), Json::Str(role_text(self.role).to_owned())));
        e.push(("content".to_owned(), Json::Str(self.content.clone())));
        if self.tool_calls.len() == 0 {
            proof {
                lemma_entries_view(e@);
                assert(entries_view(e@) =~= seq![
                    ("role"@, JsonV::Str(role_name(self.role))),
                    ("content"@, JsonV::Str(self.content@)),
                ]);
            }
            return Json::Object(e);
        }
        let mut calls: Vec<Json> = Vec::new();
        let mut i: usize = 0;
        while i < self.tool_calls.len()
            invariant
                i <= self.tool_calls.len(),
                calls.len() == i,
                forall|k: int|
                    0 <= k < i ==> #[trigger] calls@[k]@ == call_json(
                        self.tool_calls@[k].id@,
                        self.tool_calls@[k].name@,
                        arguments_text(encoded@, k),
                    ),
            decreases self.tool_calls.len() - i,
        {
            let arguments = if i < encoded.len() {
                encoded[i].clone()
            } else {
                String::new()
            };
            calls.push(call_to_json(&self.tool_calls[i], arguments));
            i = i + 1;
        }
        let ghost calls_v = calls@;
        let ghost head = e@;
        e.push(("tool_calls".to_owned(), Json::Array(calls)));
        proof {
            lemma_items_view(calls_v);
            lemma_entries_view(e@);
            let expected = Seq::new(
                self.tool_calls.len() as nat,
                |k: int| call_json(self.tool_calls@[k].id@, self.tool_calls@[k].name@, arguments_text(encoded@, k)),
            );
            assert forall|k: int| 0 <= k < calls_v.len() implies #[trigger] items_view(calls_v)[k] == expected[k] by {
                assert(calls_v[k]@ == expected[k]);
            }
            assert(items_view(calls_v) =~= expected);
            assert(entries_view(e@) =~= seq![
                ("role"@, JsonV::Str(role_name(self.role))),
                ("content"@, JsonV::Str(self.content@)),
                ("tool_calls"@, JsonV::Array(expected)),
            ]);
        }
        Json::Object(e)
    }
}

/// What the caller does next.
#[derive(Debug)]
pub enum ExecutorStep {
    /// Send the whole conversation, with the tool definitions, to the model.
    AskWithHistory,
    /// Send this single message to the model, without tools.
    AskPlain(String),
    /// The run is over; this is its answer.
    Finished(String),
}

/// Where a run stands.
#[derive(Debug, Clone, Copy, PartialEq, Eq, Structural)]
pub enum RunPhase {
    /// A model request is due.
    Ready,
    /// A model request was asked for and its reply is due.
    AwaitingReply,
    /// The last reply asked for tools; their results are due.
    AwaitingToolResults,
    /// The run has its answer.
    Finished,
}

/// The state of one execution of the agent loop.
#[derive(Debug)]
pub struct ExecutorRun {
    pub conversation: Vec<ChatMessage>,
    pub message: String,
    pub iteration: usize,
    pub max_iterations: usize,
    pub supports_tool_role: bool,
    pub enable_tools: bool,
    pub phase: RunPhase,
    pub final_response: String,
}

/// What [`ExecutorRun::next_step`] does: `pre` becomes `post` and `step` is returned.
pub open spec fn next_step_post(pre: ExecutorRun, post: ExecutorRun, step: ExecutorStep) -> bool {
    &&& post.conversation@ == pre.conversation@
    &&& post.message == pre.message
    &&& post.max_iterations == pre.max_iterations
    &&& post.supports_tool_role == pre.supports_tool_role
    &&& post.enable_tools == pre.enable_tools
    &&& (pre.phase == RunPhase::Finished ==> {
            &&& post == pre
            &&& step matches ExecutorStep::Finished(f) && f@ == pre.final_response@
        })
    &&& (pre.phase == RunPhase::Ready && pre.iteration >= pre.max_iterations ==> {
            &&& post.phase == RunPhase::Finished
            &&& post.iteration == pre.iteration
            &&& post.final_response@ == Seq::<char>::empty()
            &&& step matches ExecutorStep::Finished(f) && f@ == Seq::<char>::empty()
        })
    &&& (pre.phase == RunPhase::Ready && pre.iteration < pre.max_iterations ==> {
            &&& post.phase == RunPhase::AwaitingReply
            &&& post.iteration == pre.iteration + 1
            &&& post.final_response == pre.final_response
            &&& if pre.enable_tools {
                step is AskWithHistory
            } else {
                step matches ExecutorStep::AskPlain(m) && m@ == last_user_content(
                    pre.conversation@,
                    pre.message@,
                )
            }
        })
    &&& (pre.phase == RunPhase::AwaitingReply || pre.phase
            == RunPhase::AwaitingToolResults ==> {
            &&& post == pre
            &&& step matches ExecutorStep::Finished(f) && f@ == pre.final_response@
        })
}

/// What [`ExecutorRun::accept_reply`] does with `reply`: `pre` becomes `post`, `done` is returned.
pub open spec fn accept_reply_post(pre: ExecutorRun, post: ExecutorRun, reply: LlmResponse, done: Option<String>) -> bool {
    &&& post.message == pre.message
    &&& post.iteration == pre.iteration
    &&& post.max_iterations == pre.max_iterations
    &&& post.supports_tool_role == pre.supports_tool_role
    &&& post.enable_tools == pre.enable_tools
    &&& (pre.phase != RunPhase::AwaitingReply ==> (post == pre && done is None))
    &&& (pre.phase == RunPhase::AwaitingReply ==> {
            &&& post.conversation@.len() == pre.conversation@.len() + 1
            &&& post.conversation@.drop_last() =~= pre.conversation@
            &&& post.conversation@.last().role == MessageRole::Assistant
            &&& post.conversation@.last().content@ == reply.content@
            &&& post.conversation@.last().tool_calls@ == reply.tool_calls@
            &&& post.conversation@.last().tool_call_id is None
            &&& if reply.tool_calls.len() == 0 {
                &&& post.phase == RunPhase::Finished
                &&& post.final_response@ == reply.content@
                &&& done matches Some(f) && f@ == reply.content@
            } else {
                &&& post.phase == RunPhase::AwaitingToolResults
                &&& post.final_response == pre.final_response
                &&& done is None
            }
        })
}

/// What [`ExecutorRun::accept_tool_results`] does with `results`: `pre` becomes `post`.
pub open spec fn accept_results_post(pre: ExecutorRun, post: ExecutorRun, results: Vec<ToolResult>, accepted: bool) -> bool {
    &&& post.message == pre.message
    &&& post.iteration == pre.iteration
    &&& post.max_iterations == pre.max_iterations
    &&& post.supports_tool_role == pre.supports_tool_role
    &&& post.enable_tools == pre.enable_tools
    &&& post.final_response == pre.final_response
    &&& (accepted == (pre.phase == RunPhase::AwaitingToolResults
            && results.len() == pre.conversation@.last().tool_calls.len()))
    &&& (!accepted ==> post == pre)
    &&& (accepted ==> {
            let calls = pre.conversation@.last().tool_calls@;
            let added = post.conversation@.skip(pre.conversation@.len() as int);
            &&& post.phase == RunPhase::Ready
            &&& post.conversation@.len() == pre.conversation@.len() + added.len()
            &&& post.conversation@.take(pre.conversation@.len() as int)
                =~= pre.conversation@
            &&& if pre.supports_tool_role {
                &&& added.len() == calls.len()
                &&& forall|i: int|
                    0 <= i < calls.len() ==> is_tool_answer(
                        #[trigger] added[i],
                        calls[i].id@,
                        results@[i].for_llm@,
                    )
            } else {
                &&& added.len() == 1
                &&& is_plain(
                    added[0],
                    MessageRole::User,
                    joined(result_lines(calls, results@), "\n\n"@),
                )
            }
        })
}

impl ExecutorRun {
    /// The run's invariant: the counter stays within its limit, and a run waiting for
    /// tool results has a last message that asked for them.
    pub open spec fn wf(&self) -> bool {
        &&& self.iteration <= self.max_iterations
        &&& self.conversation.len() >= 2
        &&& (self.phase == RunPhase::AwaitingReply ==> self.iteration >= 1)
        &&& (self.phase == RunPhase::AwaitingToolResults ==> self.conversation@.last().tool_calls.len() > 0)
    }

    /// Starts a run for `message` with `system_prompt`, for the given provider; for
    /// `ollama` the prompt also says how to call a tool in the reply's text.
    pub fn new(provider: &str, system_prompt: String, message: String, max_iterations: usize) -> (r: Self)
        ensures
            r.wf(),
            r.conversation@.len() == 2,
            is_plain(r.conversation@[0], MessageRole::System, system_content(provider@, system_prompt@)),
            is_plain(r.conversation@[1], MessageRole::User, message@),
            r.message@ == message@,
            r.iteration == 0,
            r.max_iterations == max_iterations,
            r.supports_tool_role == supports_tool_role(provider@),
            r.enable_tools == enables_tools(provider@),
            r.phase == RunPhase::Ready,
            r.final_response@ == Seq::<char>::empty(),
    {
        let tool_role = same_text(provider, "openai") || same_text(provider, "anthropic")
            || same_text(provider, "openrouter") || same_text(provider, "gemini")
            || same_text(provider, "google");
        let tools = tool_role || same_text(provider, "ollama") || same_text(provider, "vllm");
        let mut system = system_prompt;
        if same_text(provider, "ollama") {
            system.append(
                "\n\n## Calling Tools\n\nTo call a tool, reply with only a JSON object of this form and nothing else:\n{\"name\": \"<tool name>\", \"arguments\": {\"<parameter>\": <value>}}",
            );
        }
        let first = ChatMessage {
            role: MessageRole::System,
            content: system,
            tool_calls: Vec::new(),
            tool_call_id: None,
        };
        let second = ChatMessage {
            role: MessageRole::User,
            content: message.clone(),
            tool_calls: Vec::new(),
            tool_call_id: None,
        };
        let mut conversation = Vec::new();
        conversation.push(first);
        conversation.push(second);
        ExecutorRun {
            conversation,
            message,
            iteration: 0,
            max_iterations,
            supports_tool_role: tool_role,
            enable_tools: tools,
            phase: RunPhase::Ready,
            final_response: String::new(),
        }
    }

    /// The content of the last user message, or the original message when there is none.
    pub fn last_user_message(&self) -> (r: String)
        ensures
            r@ == last_user_content(self.conversation@, self.message@),
    {
        let mut i = self.conversation.len();
        assert(self.conversation@.take(i as int) =~= self.conversation@);
        while i > 0
            invariant
                i <= self.conversation.len(),
                last_user_content(self.conversation@, self.message@)
                    == last_user_content(self.conversation@.take(i as int), self.message@),
            decreases i,
        {
            assert(self.conversation@.take(i as int).drop_last() =~= self.conversation@.take(i - 1));
            if self.conversation[i - 1].role == MessageRole::User {
                return self.conversation[i - 1].content.clone();
            }
            i = i - 1;
        }
        assert(self.conversation@.take(0) =~= Seq::<ChatMessage>::empty());
        self.message.clone()
    }

    /// Decides the next step. A ready run asks the model again until it has asked
    /// `max_iterations` times; then it finishes with an empty answer. A finished run
    /// keeps its answer. A run in any other phase is left as it is.
    pub fn next_step(&mut self) -> (step: ExecutorStep)
        requires
            old(self).wf(),
        ensures
            final(self).wf(),
            next_step_post(*old(self), *final(self), step),

    {
        if self.phase == RunPhase::Ready {
            if self.iteration >= self.max_iterations {
                self.phase = RunPhase::Finished;
                self.final_response = String::new();
                ExecutorStep::Finished(String::new())
            } else {
                self.iteration = self.iteration + 1;
                self.phase = RunPhase::AwaitingReply;
                if self.enable_tools {
                    ExecutorStep::AskWithHistory
                } else {
                    ExecutorStep::AskPlain(self.last_user_message())
                }
            }
        } else {
            ExecutorStep::Finished(self.final_response.clone())
        }
    }

    /// Records the model's reply. The reply joins the conversation as an assistant
    /// message with its tool calls. Without tool calls its content is the answer and
    /// is returned; otherwise the run waits for the tool results. A run that was not
    /// waiting for a reply is left as it is.
    pub fn accept_reply(&mut self, reply: LlmResponse) -> (done: Option<String>)
        requires
            old(self).wf(),
        ensures
            final(self).wf(),
            accept_reply_post(*old(self), *final(self), reply, done),

    {
        if self.phase != RunPhase::AwaitingReply {
            return None;
        }
        let no_calls = reply.tool_calls.len() == 0;
        let content = reply.content;
        let answer = content.clone();
        self.conversation.push(
            ChatMessage {
                role: MessageRole::Assistant,
                content,
                tool_calls: reply.tool_calls,
                tool_call_id: None,
            },
        );
        if no_calls {
            self.phase = RunPhase::Finished;
            self.final_response = answer.clone();
            Some(answer)
        } else {
            self.phase = RunPhase::AwaitingToolResults;
            None
        }
    }

    /// The tool calls whose results are due, in the order the model asked for them.
    pub fn pending_calls(&self) -> (r: Option<&Vec<ToolCall>>)
        requires
            self.wf(),
        ensures
            self.phase == RunPhase::AwaitingToolResults ==> (r matches Some(c) && c@
                == self.conversation@.last().tool_calls@),
            self.phase != RunPhase::AwaitingToolResults ==> r is None,
    {
        if self.phase == RunPhase::AwaitingToolResults {
            Some(&self.conversation[self.conversation.len() - 1].tool_calls)
        } else {
            None
        }
    }

    /// Records the results of the pending tool calls, one per call and in the same
    /// order. With a tool role each result becomes a tool message that answers its
    /// call; without one, all results become one user message of report lines joined
    /// by blank lines. The run is then ready for the next model request. When the run
    /// was not waiting for results, or the number of results is wrong, nothing changes
    /// and `false` is returned.
    pub fn accept_tool_results(&mut self, results: Vec<ToolResult>) -> (accepted: bool)
        requires
            old(self).wf(),
        ensures
            final(self).wf(),
            accept_results_post(*old(self), *final(self), results, accepted),

    {
        if self.phase != RunPhase::AwaitingToolResults {
            return false;
        }
        let last = self.conversation.len() - 1;
        let n = self.conversation[last].tool_calls.len();
        if results.len() != n {
            return false;
        }
        let ghost old_conv = self.conversation@;
        let ghost calls = self.conversation@[last as int].tool_calls@;
        if self.supports_tool_role {
            let mut i: usize = 0;
            while i < n
                invariant
                    self.message == old(self).message,
                    self.iteration == old(self).iteration,
                    self.max_iterations == old(self).max_iterations,
                    self.supports_tool_role == old(self).supports_tool_role,
                    self.enable_tools == old(self).enable_tools,
                    self.final_response == old(self).final_response,
                    self.iteration <= self.max_iterations,
                    i <= n,
                    n == calls.len(),
                    results.len() == n,
                    last + 1 == old_conv.len(),
                    calls == old_conv[last as int].tool_calls@,
                    self.conversation@.len() == old_conv.len() + i,
                    self.conversation@.take(old_conv.len() as int) == old_conv,
                    self.conversation@[last as int].tool_calls@ == calls,
                    forall|k: int|
                        0 <= k < i ==> is_tool_answer(
                            #[trigger] self.conversation@[old_conv.len() + k],
                            calls[k].id@,
                            results@[k].for_llm@,
                        ),
                decreases n - i,
            {
                let id = self.conversation[last].tool_calls[i].id.clone();
                let content = results[i].for_llm.clone();
                self.conversation.push(
                    ChatMessage {
                        role: MessageRole::Tool,
                        content,
                        tool_calls: Vec::new(),
                        tool_call_id: Some(id),
                    },
                );
                assert(self.conversation@.take(old_conv.len() as int) =~= old_conv);
                i = i + 1;
            }
            proof {
                let added = self.conversation@.skip(old_conv.len() as int);
                assert forall|k: int| 0 <= k < calls.len() implies is_tool_answer(
                    #[trigger] added[k],
                    calls[k].id@,
                    results@[k].for_llm@,
                ) by {
                    assert(added[k] == self.conversation@[old_conv.len() + k]);
                }
            }
        } else {
            let mut lines: Vec<String> = Vec::new();
            let mut i: usize = 0;
            while i < n
                invariant
                    self.message == old(self).message,
                    self.iteration == old(self).iteration,
                    self.max_iterations == old(self).max_iterations,
                    self.supports_tool_role == old(self).supports_tool_role,
                    self.enable_tools == old(self).enable_tools,
                    self.final_response == old(self).final_response,
                    self.iteration <= self.max_iterations,
                    i <= n,
                    n == calls.len(),
                    results.len() == n,
                    last + 1 == old_conv.len(),
                    self.conversation@ == old_conv,
                    calls == old_conv[last as int].tool_calls@,
                    lines.len() == i,
                    forall|k: int| 0 <= k < i ==> #[trigger] lines@[k]@ == result_line(calls[k].name@, results@[k].for_llm@),
                decreases n - i,
            {
                let mut line = String::new();
                line.append("Tool '");
                line.append(self.conversation[last].tool_calls[i].name.as_str());
                line.append("' result: ");
                line.append(results[i].for_llm.as_str());
                lines.push(line);
                i = i + 1;
            }
            let report = join(&lines, "\n\n");
            assert(views(lines@) =~= result_lines(calls, results@));
            self.conversation.push(
                ChatMessage {
                    role: MessageRole::User,
                    content: report,
                    tool_calls: Vec::new(),
                    tool_call_id: None,
                },
            );
            proof {
                let added = self.conversation@.skip(old_conv.len() as int);
                assert(added.len() == 1);
                assert(added[0] == self.conversation@.last());
            }
        }
        self.phase = RunPhase::Ready;
        proof {
            let added = self.conversation@.skip(old_conv.len() as int);
            assert(self.conversation@.take(old_conv.len() as int) =~= old_conv);
        }
        true
    }
}

/// Which providers answer tool calls with tool messages: openai, anthropic, openrouter,
/// gemini and google do; every other provider gets its tool results back as one user
/// message. Tools are used with those providers and with ollama and vllm only.
pub proof fn law_tool_role_providers(provider: Seq<char>)
    ensures
        supports_tool_role("openai"@),
        supports_tool_role("anthropic"@),
        supports_tool_role("openrouter"@),
        supports_tool_role("gemini"@),
        supports_tool_role("google"@),
        !supports_tool_role("ollama"@),
        !supports_tool_role("vllm"@),
        provider != "openai"@ && provider != "anthropic"@ && provider != "openrouter"@ && provider != "gemini"@
            && provider != "google"@ ==> !supports_tool_role(provider),
        supports_tool_role(provider) ==> enables_tools(provider),
        enables_tools("ollama"@) && enables_tools("vllm"@),
        provider != "openai"@ && provider != "anthropic"@ && provider != "openrouter"@ && provider != "gemini"@
            && provider != "google"@ && provider != "ollama"@ && provider != "vllm"@ ==> !enables_tools(provider),
{
    reveal_strlit("openai");
    reveal_strlit("anthropic");
    reveal_strlit("openrouter");
    reveal_strlit("gemini");
    reveal_strlit("google");
    reveal_strlit("ollama");
    reveal_strlit("vllm");
    assert("ollama"@[1] != "openai"@[1] && "ollama"@.len() != "anthropic"@.len() && "ollama"@.len()
        != "openrouter"@.len() && "ollama"@[0] != "gemini"@[0] && "ollama"@[0] != "google"@[0]);
    assert("vllm"@.len() != "openai"@.len() && "vllm"@.len() != "anthropic"@.len() && "vllm"@.len()
        != "openrouter"@.len() && "vllm"@.len() != "gemini"@.len() && "vllm"@.len() != "google"@.len());
}

/// A run for a provider with a tool role answers every tool call of the model's last
/// message with a tool message carrying that call's id and the result's text, one per
/// call and in order; a run for any other provider adds one user message instead.
pub proof fn law_tool_results_answer_calls(pre: ExecutorRun, post: ExecutorRun, results: Vec<ToolResult>)
    requires
        accept_results_post(pre, post, results, true),
    ensures
        pre.supports_tool_role ==> post.conversation@.len() == pre.conversation@.len() + pre.conversation@.last().tool_calls.len(),
        pre.supports_tool_role ==> forall|i: int|
            0 <= i < pre.conversation@.last().tool_calls.len() ==> {
                let m = #[trigger] post.conversation@[pre.conversation@.len() + i];
                &&& m.role == MessageRole::Tool
                &&& m.tool_call_id matches Some(t) && t@ == pre.conversation@.last().tool_calls@[i].id@
                &&& m.content@ == results@[i].for_llm@
            },
        !pre.supports_tool_role ==> post.conversation@.len() == pre.conversation@.len() + 1,
        !pre.supports_tool_role ==> post.conversation@.last().role == MessageRole::User
            && post.conversation@.last().tool_call_id is None,
{
    let n = pre.conversation@.len();
    let added = post.conversation@.skip(n as int);
    if pre.supports_tool_role {
        assert forall|i: int| 0 <= i < pre.conversation@.last().tool_calls.len() implies {
            let m = #[trigger] post.conversation@[n + i];
            &&& m.role == MessageRole::Tool
            &&& m.tool_call_id matches Some(t) && t@ == pre.conversation@.last().tool_calls@[i].id@
            &&& m.content@ == results@[i].for_llm@
        } by {
            assert(added[i] == post.conversation@[n + i]);
        }
    } else {
        assert(added[0] == post.conversation@.last());
    }
}

/// The message a plain request sends is the content of the last user message: a user
/// message at position `i` with no user message after it gives its content, whatever
/// the other messages hold.
pub proof fn law_last_user_content(conv: Seq<ChatMessage>, fallback: Seq<char>, i: int)
    requires
        0 <= i < conv.len(),
        conv[i].role == MessageRole::User,
        forall|j: int| i < j < conv.len() ==> conv[j].role != MessageRole::User,
    ensures
        last_user_content(conv, fallback) == conv[i].content@,
    decreases conv.len(),
{
    if conv.len() - 1 > i {
        assert(conv.drop_last()[i] == conv[i]);
        law_last_user_content(conv.drop_last(), fallback, i);
    }
}

/// Whether a step asks the model.
pub open spec fn is_request(step: ExecutorStep) -> bool {
    step is AskWithHistory || step is AskPlain
}

/// Whether `post` follows `pre` by one of the run's operations; `asked` tells whether
/// that operation was a model request.
pub open spec fn is_transition(pre: ExecutorRun, post: ExecutorRun, asked: bool) -> bool {
    ||| exists|step: ExecutorStep| #[trigger] next_step_post(pre, post, step) && asked == is_request(step)
    ||| !asked && exists|reply: LlmResponse, done: Option<String>| #[trigger] accept_reply_post(pre, post, reply, done)
    ||| !asked && exists|results: Vec<ToolResult>, acc: bool| #[trigger] accept_results_post(pre, post, results, acc)
}

/// The number of requests among `asked`.
pub open spec fn request_count(asked: Seq<bool>) -> nat
    decreases asked.len(),
{
    if asked.len() == 0 {
        0
    } else {
        request_count(asked.drop_last()) + if asked.last() { 1nat } else { 0nat }
    }
}

/// A request advances the request counter by one, within the limit; no other
/// operation changes the counter or the limit.
pub proof fn law_request_counting(pre: ExecutorRun, post: ExecutorRun, asked: bool)
    requires
        pre.wf(),
        post.wf(),
        is_transition(pre, post, asked),
    ensures
        post.max_iterations == pre.max_iterations,
        asked ==> pre.iteration < pre.max_iterations && post.iteration == pre.iteration + 1,
        !asked ==> post.iteration == pre.iteration,
{
}

/// Over any sequence of operations, a run asks the model at most `max_iterations`
/// times: the number of requests made equals the growth of the request counter.
pub proof fn law_requests_bounded(states: Seq<ExecutorRun>, asked: Seq<bool>)
    requires
        states.len() == asked.len() + 1,
        forall|i: int| 0 <= i < states.len() ==> #[trigger] states[i].wf(),
        forall|i: int| 0 <= i < asked.len() ==> is_transition(#[trigger] states[i], states[i + 1], asked[i]),
    ensures
        states.last().max_iterations == states[0].max_iterations,
        states.last().iteration == states[0].iteration + request_count(asked),
        request_count(asked) <= states[0].max_iterations,
    decreases asked.len(),
{
    if asked.len() > 0 {
        let n = asked.len() - 1;
        assert(is_transition(states[n], states[n + 1], asked[n]));
        law_requests_bounded(states.drop_last(), asked.drop_last());
        assert(states.drop_last().last() == states[n]);
        law_request_counting(states[n], states[n + 1], asked[n]);
    }
}

/// A finished run stays finished and keeps its answer.
pub proof fn law_finished_is_final(pre: ExecutorRun, post: ExecutorRun, step: ExecutorStep)
    requires
        next_step_post(pre, post, step),
        pre.phase == RunPhase::Finished,
    ensures
        post == pre,
        step matches ExecutorStep::Finished(f) && f@ == pre.final_response@,
{
}

/// The conversation only grows: no operation changes or drops a message already in it.
pub proof fn law_conversation_grows(pre: ExecutorRun, post: ExecutorRun, asked: bool)
    requires
        is_transition(pre, post, asked),
    ensures
        post.conversation@.len() >= pre.conversation@.len(),
        post.conversation@.take(pre.conversation@.len() as int) == pre.conversation@,
{
    if exists|step: ExecutorStep| #[trigger] next_step_post(pre, post, step) && asked == is_request(step) {
        assert(post.conversation@.take(pre.conversation@.len() as int) =~= pre.conversation@);
    } else if exists|reply: LlmResponse, done: Option<String>| #[trigger] accept_reply_post(pre, post, reply, done) {
        let (reply, done) = choose|reply: LlmResponse, done: Option<String>| #[trigger] accept_reply_post(pre, post, reply, done);
        assert(post.conversation@.take(pre.conversation@.len() as int) =~= pre.conversation@);
    } else {
        let (results, acc) = choose|results: Vec<ToolResult>, acc: bool| #[trigger] accept_results_post(pre, post, results, acc);
        assert(post.conversation@.take(pre.conversation@.len() as int) =~= pre.conversation@);
    }
}

/// A reply without tool calls ends the run, and its content is the answer.
pub proof fn law_answer_is_final_reply(pre: ExecutorRun, post: ExecutorRun, reply: LlmResponse, done: Option<String>)
    requires
        accept_reply_post(pre, post, reply, done),
        pre.phase == RunPhase::AwaitingReply,
        reply.tool_calls.len() == 0,
    ensures
        post.phase == RunPhase::Finished,
        post.final_response@ == reply.content@,
        done matches Some(f) && f@ == reply.content@,
{
}

} // verus!
