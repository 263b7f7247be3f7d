//! The LLM client: provider selection, request framing and reply reading.
//!
//! Sending a request and receiving its reply is the caller's part: it sends the
//! [`HttpRequest`] that a `*_request` method frames, turns a reply that is not a
//! success into [`api_error`], and hands the parsed reply body to a `read_*` function.
use crate::error::Error;
use crate::json::{
    at_element, at_field, duplicate_entries, element, entries_at, entries_of, entries_view,
    field, is_first_key, items_at, items_of, items_view, lemma_entries_view, lemma_entry_at,
    lemma_no_entry, lemma_items_view, lemma_values_view,
    opt_view, text_at,
    text_of, values_view, Json, JsonV,
};
use crate::text::{
    concat2, concat3, ends_with, find_char, first_occurrence, same_text, text_ends_with, trim_end,
    trim_end_char,
};
use crate::tools::base::{ArgumentsV, ToolArguments, ToolCall, ToolCallV, calls_view};
use vstd::prelude::*;
use vstd::string::{StrSliceExecFns, StringExecFns};

verus! {

/// A model reply: its text and the tool calls it asks for.
#[derive(Debug)]
pub struct LlmResponse {
    pub content: String,
    pub tool_calls: Vec<ToolCall>,
}

/// Connection settings for one provider.
#[derive(Debug)]
pub struct LlmClient {
    pub provider: String,
    pub model: String,
    pub api_key: String,
    pub api_base: String,
}

/// The wire protocol that a provider speaks.
#[derive(Debug, Clone, Copy, PartialEq, Eq, Structural)]
pub enum ChatApi {
    /// The OpenAI chat completions protocol with native tools (openrouter, openai).
    OpenAiCompatible,
    /// The OpenAI chat completions protocol for plain conversation, without tools (vllm).
    Conversational,
    /// The Anthropic messages protocol.
    Anthropic,
    /// Ollama's OpenAI-compatible endpoint; tools are offered through the prompt and
    /// called in the reply's text.
    Ollama,
    /// Google's Gemini `generateContent` API, for plain conversation.
    Gemini,
}

/// An HTTP POST request: its URL, its headers and its JSON body.
#[derive(Debug)]
pub struct HttpRequest {
    pub url: String,
    pub headers: Vec<(String, String)>,
    pub body: Json,
}

/// The protocol of a provider, if the client supports it.
pub open spec fn api_of(provider: Seq<char>) -> Option<ChatApi> {
    if provider == "openrouter"@ || provider == "openai"@ {
        Some(ChatApi::OpenAiCompatible)
    } else if provider == "vllm"@ {
        Some(ChatApi::Conversational)
    } else if provider == "gemini"@ {
        Some(ChatApi::Gemini)
    } else if provider == "anthropic"@ {
        Some(ChatApi::Anthropic)
    } else if provider == "ollama"@ {
        Some(ChatApi::Ollama)
    } else {
        None
    }
}

/// Whether `e` is the error for a provider that the client does not support.
pub open spec fn is_unsupported_error(e: Error, provider: Seq<char>) -> bool {
    e matches Error::LlmProvider(m) && m@ == "Unsupported provider: "@ + provider
}

/// The protocol of `provider`, or the error for an unsupported provider.
pub fn chat_api(provider: &str) -> (r: Result<ChatApi, Error>)
    ensures
        match api_of(provider@) {
            Some(a) => r == Ok::<ChatApi, Error>(a),
            None => r matches Err(e) && is_unsupported_error(e, provider@),
        },
{
    if same_text(provider, "openrouter") || same_text(provider, "openai") {
        Ok(ChatApi::OpenAiCompatible)
    } else if same_text(provider, "vllm") {
        Ok(ChatApi::Conversational)
    } else if same_text(provider, "gemini") {
        Ok(ChatApi::Gemini)
    } else if same_text(provider, "anthropic") {
        Ok(ChatApi::Anthropic)
    } else if same_text(provider, "ollama") {
        Ok(ChatApi::Ollama)
    } else {
        Err(Error::LlmProvider(concat2("Unsupported provider: ", provider)))
    }
}

/// Prefixes that name a provider's namespace in a model name.
pub open spec fn is_namespace_prefix(prefix: Seq<char>) -> bool {
    prefix == "vllm"@ || prefix == "moonshot"@ || prefix == "nvidia"@ || prefix == "ollama"@
}

/// A model name without its provider namespace: the part after the first `/` when
/// the part before it is a namespace prefix, else the whole name.
pub open spec fn normalized_model(model: Seq<char>) -> Seq<char> {
    match first_occurrence(model, '/') {
        Some(i) => if is_namespace_prefix(model.take(i)) {
            model.skip(i + 1)
        } else {
            model
        },
        None => model,
    }
}

/// The chat completions endpoint of a provider at `api_base`. The local servers
/// `vllm` and `ollama` serve it under `/v1`, which is added unless the base already
/// ends with it.
pub open spec fn chat_endpoint(provider: Seq<char>, api_base: Seq<char>) -> Seq<char> {
    if (provider == "vllm"@ || provider == "ollama"@) && !ends_with(trim_end(api_base, '/'), "/v1"@) {
        trim_end(api_base, '/') + "/v1/chat/completions"@
    } else {
        trim_end(api_base, '/') + "/chat/completions"@
    }
}

/// Gemini's endpoint for `model`, with the key in the query string.
pub open spec fn gemini_url(api_base: Seq<char>, model: Seq<char>, api_key: Seq<char>) -> Seq<char> {
    trim_end(api_base, '/') + "/models/"@ + model + ":generateContent?key="@ + api_key
}

/// The URL that a request of the given protocol goes to.
pub open spec fn request_url(api: ChatApi, client: LlmClient) -> Seq<char> {
    match api {
        ChatApi::Anthropic => client.api_base@ + "/messages"@,
        ChatApi::Gemini => gemini_url(client.api_base@, normalized_model(client.model@), client.api_key@),
        _ => chat_endpoint(client.provider@, client.api_base@),
    }
}

/// Whether a protocol is offered tools natively.
pub open spec fn offers_tools(api: ChatApi) -> bool {
    api == ChatApi::OpenAiCompatible || api == ChatApi::Anthropic
}

/// The headers of a request of the given protocol.
pub open spec fn request_headers(api: ChatApi, api_key: Seq<char>) -> Seq<(Seq<char>, Seq<char>)> {
    match api {
        ChatApi::OpenAiCompatible | ChatApi::Conversational => seq![
            ("Authorization"@, "Bearer "@ + api_key),
            ("Content-Type"@, "application/json"@),
        ],
        ChatApi::Anthropic => seq![
            ("x-api-key"@, api_key),
            ("anthropic-version"@, "2023-06-01"@),
            ("Content-Type"@, "application/json"@),
        ],
        _ => seq![("Content-Type"@, "application/json"@)],
    }
}

/// A single user message.
pub open spec fn user_message(content: Seq<char>) -> JsonV {
    JsonV::Object(seq![("role"@, JsonV::Str("user"@)), ("content"@, JsonV::Str(content))])
}

/// The role of a message in Gemini's terms: `model` for the assistant, else `user`.
pub open spec fn gemini_role(m: JsonV) -> Seq<char> {
    if text_of(field(Some(m), "role"@)) == Some("assistant"@) {
        "model"@
    } else {
        "user"@
    }
}

/// A chat message as a Gemini content: its role and one text part with its content
/// (empty when it has no text).
pub open spec fn gemini_content(m: JsonV) -> JsonV {
    JsonV::Object(
        seq![
            ("role"@, JsonV::Str(gemini_role(m))),
            ("parts"@, JsonV::Array(seq![JsonV::Object(seq![("text"@, JsonV::Str(or_empty(text_of(field(Some(m), "content"@)))))])])),
        ],
    )
}

/// The body of a request: the model, the messages and, where the protocol takes them,
/// the tools, with the sampling settings of each protocol.
pub open spec fn request_body(api: ChatApi, model: Seq<char>, messages: Seq<JsonV>, tools: Option<Seq<JsonV>>) -> JsonV {
    match api {
        ChatApi::OpenAiCompatible => match tools {
            Some(t) => JsonV::Object(seq![
                ("model"@, JsonV::Str(model)),
                ("messages"@, JsonV::Array(messages)),
                ("tools"@, JsonV::Array(t)),
                ("tool_choice"@, JsonV::Str("auto"@)),
                ("temperature"@, JsonV::Number("0.7"@)),
                ("max_tokens"@, JsonV::Number("2048"@)),
            ]),
            None => JsonV::Object(seq![
                ("model"@, JsonV::Str(model)),
                ("messages"@, JsonV::Array(messages)),
                ("temperature"@, JsonV::Number("0.7"@)),
                ("max_tokens"@, JsonV::Number("2048"@)),
            ]),
        },
        ChatApi::Anthropic => match tools {
            Some(t) => JsonV::Object(seq![
                ("model"@, JsonV::Str(model)),
                ("max_tokens"@, JsonV::Number("2048"@)),
                ("tools"@, JsonV::Array(t)),
                ("messages"@, JsonV::Array(messages)),
            ]),
            None => JsonV::Object(seq![
                ("model"@, JsonV::Str(model)),
                ("max_tokens"@, JsonV::Number("2048"@)),
                ("messages"@, JsonV::Array(messages)),
            ]),
        },
        ChatApi::Conversational => JsonV::Object(seq![
            ("model"@, JsonV::Str(model)),
            ("messages"@, JsonV::Array(messages)),
            ("temperature"@, JsonV::Number("0.7"@)),
            ("max_tokens"@, JsonV::Number("2048"@)),
        ]),
        ChatApi::Ollama => JsonV::Object(seq![
            ("model"@, JsonV::Str(model)),
            ("messages"@, JsonV::Array(messages)),
            ("stream"@, JsonV::Bool(false)),
        ]),
        ChatApi::Gemini => JsonV::Object(seq![
            ("contents"@, JsonV::Array(messages.map_values(|m: JsonV| gemini_content(m)))),
        ]),
    }
}

/// Which protocol each provider speaks: openai and openrouter the OpenAI protocol with
/// native tools, anthropic its own with native tools, vllm plain OpenAI-style
/// conversation, ollama the OpenAI-style endpoint with tools through the prompt, gemini
/// Google's API; any other provider is unsupported. Only the OpenAI and Anthropic
/// protocols are offered tools natively.
pub proof fn law_provider_protocols(provider: Seq<char>, api: ChatApi)
    ensures
        api_of("openai"@) == Some(ChatApi::OpenAiCompatible),
        api_of("openrouter"@) == Some(ChatApi::OpenAiCompatible),
        api_of("anthropic"@) == Some(ChatApi::Anthropic),
        api_of("vllm"@) == Some(ChatApi::Conversational),
        api_of("ollama"@) == Some(ChatApi::Ollama),
        api_of("gemini"@) == Some(ChatApi::Gemini),
        provider != "openai"@ && provider != "openrouter"@ && provider != "anthropic"@ && provider != "vllm"@
            && provider != "ollama"@ && provider != "gemini"@ ==> api_of(provider) is None,
        offers_tools(api) <==> (api == ChatApi::OpenAiCompatible || api == ChatApi::Anthropic),
{
    reveal_strlit("openai");
    reveal_strlit("openrouter");
    reveal_strlit("anthropic");
    reveal_strlit("vllm");
    reveal_strlit("ollama");
    reveal_strlit("gemini");
    assert("anthropic"@.len() != "openai"@.len() && "anthropic"@.len() != "openrouter"@.len());
    assert("vllm"@.len() != "openai"@.len() && "vllm"@.len() != "openrouter"@.len() && "vllm"@.len()
        != "anthropic"@.len());
    assert("ollama"@[1] != "openai"@[1] && "ollama"@.len() != "openrouter"@.len() && "ollama"@.len()
        != "anthropic"@.len() && "ollama"@.len() != "vllm"@.len());
    assert("gemini"@[0] != "openai"@[0] && "gemini"@.len() != "openrouter"@.len() && "gemini"@.len()
        != "anthropic"@.len() && "gemini"@.len() != "vllm"@.len() && "gemini"@[0] != "ollama"@[0]);
}

/// A Gemini content keeps the message's text and maps the assistant to `model` and
/// every other role to `user`.
pub proof fn law_gemini_content(m: JsonV, text: Seq<char>)
    ensures
        text_of(field(Some(m), "role"@)) == Some("assistant"@) ==> gemini_role(m) == "model"@,
        text_of(field(Some(m), "role"@)) != Some("assistant"@) ==> gemini_role(m) == "user"@,
        text_of(field(Some(m), "content"@)) == Some(text) ==> gemini_content(m) == JsonV::Object(
            seq![
                ("role"@, JsonV::Str(gemini_role(m))),
                ("parts"@, JsonV::Array(seq![JsonV::Object(seq![("text"@, JsonV::Str(text))])])),
            ],
        ),
{
}

/// A reply's text that decodes to an object with a string `name` and an object
/// `arguments` makes exactly one call, with that name and those arguments; any other
/// text makes none.
pub proof fn law_prompt_call(decoded: Option<JsonV>, name: Seq<char>, args: Seq<(Seq<char>, JsonV)>)
    ensures
        text_of(field(decoded, "name"@)) == Some(name) && entries_of(field(decoded, "arguments"@)) == Some(args)
            ==> prompt_calls(decoded).len() == 1 && prompt_calls(decoded)[0].name == name
            && prompt_calls(decoded)[0].arguments == ArgumentsV::Fields(args),
        text_of(field(decoded, "name"@)) is None ==> prompt_calls(decoded).len() == 0,
        entries_of(field(decoded, "arguments"@)) is None ==> prompt_calls(decoded).len() == 0,
{
}

/// The keys of a request body differ from `tools` and from `messages`.
proof fn lemma_body_keys_distinct()
    ensures
        "model"@ != "tools"@,
        "messages"@ != "tools"@,
        "tool_choice"@ != "tools"@,
        "temperature"@ != "tools"@,
        "max_tokens"@ != "tools"@,
        "stream"@ != "tools"@,
        "contents"@ != "tools"@,
        "model"@ != "messages"@,
        "max_tokens"@ != "messages"@,
        "tools"@ != "messages"@,
{
    reveal_strlit("model");
    reveal_strlit("messages");
    reveal_strlit("tools");
    reveal_strlit("tool_choice");
    reveal_strlit("temperature");
    reveal_strlit("max_tokens");
    reveal_strlit("stream");
    reveal_strlit("contents");
    assert("model"@[0] != "tools"@[0]);
    assert("messages"@.len() != "tools"@.len());
    assert("tool_choice"@.len() != "tools"@.len());
    assert("temperature"@.len() != "tools"@.len());
    assert("max_tokens"@.len() != "tools"@.len());
    assert("stream"@.len() != "tools"@.len());
    assert("contents"@.len() != "tools"@.len());
    assert("model"@.len() != "messages"@.len());
    assert("max_tokens"@.len() != "messages"@.len());
}

/// A request body offers tools exactly where the protocol takes tools natively
/// (OpenAI-style and Anthropic) and tools are given: its `tools` field is then the
/// given tools, and it always carries the model and the messages as given.
pub proof fn law_request_body_fields(api: ChatApi, model: Seq<char>, messages: Seq<JsonV>, tools: Option<Seq<JsonV>>)
    ensures
        (api == ChatApi::OpenAiCompatible || api == ChatApi::Anthropic) && tools is Some ==> field(
            Some(request_body(api, model, messages, tools)),
            "tools"@,
        ) == Some(JsonV::Array(tools->0)),
        !((api == ChatApi::OpenAiCompatible || api == ChatApi::Anthropic) && tools is Some) ==> field(
            Some(request_body(api, model, messages, tools)),
            "tools"@,
        ) is None,
        api != ChatApi::Gemini ==> field(Some(request_body(api, model, messages, tools)), "model"@) == Some(
            JsonV::Str(model),
        ),
        api != ChatApi::Gemini ==> field(Some(request_body(api, model, messages, tools)), "messages"@) == Some(
            JsonV::Array(messages),
        ),
{
    lemma_body_keys_distinct();
    let body = request_body(api, model, messages, tools);
    let e = match body {
        JsonV::Object(e) => e,
        _ => Seq::empty(),
    };
    assert(body == JsonV::Object(e));
    if (api == ChatApi::OpenAiCompatible || api == ChatApi::Anthropic) && tools is Some {
        let k: int = if api == ChatApi::OpenAiCompatible { 2 } else { 2 };
        assert(is_first_key(e, "tools"@, k));
        lemma_entry_at(e, "tools"@, k);
    } else {
        assert forall|j: int| 0 <= j < e.len() implies e[j].0 != "tools"@ by {}
        lemma_no_entry(e, "tools"@);
    }
    if api != ChatApi::Gemini {
        assert(is_first_key(e, "model"@, 0));
        lemma_entry_at(e, "model"@, 0);
        let m: int = if api == ChatApi::Anthropic {
            if tools is Some { 3 } else { 2 }
        } else {
            1
        };
        assert(is_first_key(e, "messages"@, m));
        lemma_entry_at(e, "messages"@, m);
    }
}

/// The headers of a request, as content.
pub open spec fn headers_view(h: Seq<(String, String)>) -> Seq<(Seq<char>, Seq<char>)> {
    h.map_values(|p: (String, String)| (p.0@, p.1@))
}

/// Whether `r` is the request of `client` in protocol `api` with these messages and tools.
pub open spec fn is_request(r: HttpRequest, client: LlmClient, api: ChatApi, messages: Seq<JsonV>, tools: Option<Seq<JsonV>>) -> bool {
    &&& r.url@ == request_url(api, client)
    &&& headers_view(r.headers@) == request_headers(api, client.api_key@)
    &&& r.body@ == request_body(api, normalized_model(client.model@), messages, tools)
}

/// The message object of an OpenAI-style reply.
pub open spec fn reply_message(data: JsonV) -> Option<JsonV> {
    field(element(field(Some(data), "choices"@), 0), "message"@)
}

/// The text of an OpenAI-style reply, if it has one.
pub open spec fn reply_text(data: JsonV) -> Option<Seq<char>> {
    text_of(field(reply_message(data), "content"@))
}

/// The text of a Gemini reply, if it has one: the first part of the first candidate.
pub open spec fn gemini_text(data: JsonV) -> Option<Seq<char>> {
    text_of(field(element(field(field(element(field(Some(data), "candidates"@), 0), "content"@), "parts"@), 0), "text"@))
}

/// The text of an Anthropic reply without tools, if it has one.
pub open spec fn first_block_text(data: JsonV) -> Option<Seq<char>> {
    text_of(field(element(field(Some(data), "content"@), 0), "text"@))
}

/// Some text, or the empty text.
pub open spec fn or_empty(t: Option<Seq<char>>) -> Seq<char> {
    match t {
        Some(s) => s,
        None => Seq::empty(),
    }
}

/// The tool call that an OpenAI-style call entry describes, if it has a string id,
/// function name and function arguments.
pub open spec fn openai_call(call: JsonV) -> Option<ToolCallV> {
    let f = field(Some(call), "function"@);
    match (text_of(field(Some(call), "id"@)), text_of(field(f, "name"@)), text_of(field(f, "arguments"@))) {
        (Some(id), Some(name), Some(args)) => Some(ToolCallV { id, name, arguments: ArgumentsV::Encoded(args) }),
        _ => None,
    }
}

/// The tool calls of OpenAI-style call entries; entries that lack a part are skipped.
pub open spec fn openai_calls(calls: Seq<JsonV>) -> Seq<ToolCallV>
    decreases calls.len(),
{
    if calls.len() == 0 {
        Seq::empty()
    } else {
        let rest = openai_calls(calls.drop_last());
        match openai_call(calls.last()) {
            Some(c) => rest.push(c),
            None => rest,
        }
    }
}

/// The call entries of an OpenAI-style reply.
pub open spec fn reply_call_entries(data: JsonV) -> Seq<JsonV> {
    match items_of(field(reply_message(data), "tool_calls"@)) {
        Some(s) => s,
        None => Seq::empty(),
    }
}

/// The text that a reply's content blocks carry, in order.
pub open spec fn blocks_text(blocks: Seq<JsonV>) -> Seq<char>
    decreases blocks.len(),
{
    if blocks.len() == 0 {
        Seq::empty()
    } else {
        blocks_text(blocks.drop_last()) + or_empty(text_of(field(Some(blocks.last()), "text"@)))
    }
}

/// The tool call that an Anthropic content block describes, if it is a `tool_use`
/// block with a string id and name and an object input.
pub open spec fn anthropic_call(block: JsonV) -> Option<ToolCallV> {
    if text_of(field(Some(block), "type"@)) == Some("tool_use"@) {
        match (
            text_of(field(Some(block), "id"@)),
            text_of(field(Some(block), "name"@)),
            entries_of(field(Some(block), "input"@)),
        ) {
            (Some(id), Some(name), Some(input)) => Some(ToolCallV { id, name, arguments: ArgumentsV::Fields(input) }),
            _ => None,
        }
    } else {
        None
    }
}

/// The tool calls of Anthropic content blocks; other blocks are skipped.
pub open spec fn anthropic_calls(blocks: Seq<JsonV>) -> Seq<ToolCallV>
    decreases blocks.len(),
{
    if blocks.len() == 0 {
        Seq::empty()
    } else {
        let rest = anthropic_calls(blocks.drop_last());
        match anthropic_call(blocks.last()) {
            Some(c) => rest.push(c),
            None => rest,
        }
    }
}

/// The tool calls of a run of Anthropic content blocks are those of its parts, in
/// order: no block's call is dropped or repeated because of the blocks around it.
pub proof fn law_anthropic_calls_concat(a: Seq<JsonV>, b: Seq<JsonV>)
    ensures
        anthropic_calls(a + b) == anthropic_calls(a) + anthropic_calls(b),
    decreases b.len(),
{
    if b.len() == 0 {
        assert(a + b =~= a);
        assert(anthropic_calls(a) + anthropic_calls(b) =~= anthropic_calls(a));
    } else {
        law_anthropic_calls_concat(a, b.drop_last());
        assert((a + b).drop_last() =~= a + b.drop_last());
        assert((a + b).last() == b.last());
        match anthropic_call(b.last()) {
            Some(c) => {
                assert(anthropic_calls(a) + anthropic_calls(b) =~= (anthropic_calls(a) + anthropic_calls(
                    b.drop_last(),
                )).push(c));
            },
            None => {},
        }
    }
}

/// One Anthropic content block yields one call, with the block's id, name and input,
/// when it is a `tool_use` block with a string id and name and an object input, and
/// no call otherwise.
pub proof fn law_anthropic_block_call(b: JsonV, id: Seq<char>, name: Seq<char>, input: Seq<(Seq<char>, JsonV)>)
    ensures
        text_of(field(Some(b), "type"@)) == Some("tool_use"@) && text_of(field(Some(b), "id"@)) == Some(id)
            && text_of(field(Some(b), "name"@)) == Some(name) && entries_of(field(Some(b), "input"@)) == Some(
            input,
        ) ==> anthropic_calls(seq![b]) == seq![ToolCallV { id, name, arguments: ArgumentsV::Fields(input) }],
        text_of(field(Some(b), "type"@)) != Some("tool_use"@) ==> anthropic_calls(seq![b]).len() == 0,
        text_of(field(Some(b), "id"@)) is None ==> anthropic_calls(seq![b]).len() == 0,
        text_of(field(Some(b), "name"@)) is None ==> anthropic_calls(seq![b]).len() == 0,
        entries_of(field(Some(b), "input"@)) is None ==> anthropic_calls(seq![b]).len() == 0,
{
    assert(seq![b].drop_last() =~= Seq::<JsonV>::empty());
    assert(seq![b].last() == b);
    assert(anthropic_calls(Seq::<JsonV>::empty()) =~= Seq::<ToolCallV>::empty());
    reveal_with_fuel(anthropic_calls, 2);
}

/// The tool calls of a run of OpenAI-style call entries are those of its parts, in
/// order.
pub proof fn law_openai_calls_concat(a: Seq<JsonV>, b: Seq<JsonV>)
    ensures
        openai_calls(a + b) == openai_calls(a) + openai_calls(b),
    decreases b.len(),
{
    if b.len() == 0 {
        assert(a + b =~= a);
        assert(openai_calls(a) + openai_calls(b) =~= openai_calls(a));
    } else {
        law_openai_calls_concat(a, b.drop_last());
        assert((a + b).drop_last() =~= a + b.drop_last());
        assert((a + b).last() == b.last());
        match openai_call(b.last()) {
            Some(c) => {
                assert(openai_calls(a) + openai_calls(b) =~= (openai_calls(a) + openai_calls(b.drop_last())).push(c));
            },
            None => {},
        }
    }
}

/// One OpenAI-style call entry yields one call, with the entry's id, its function's
/// name and its encoded arguments, when all three are strings, and no call otherwise.
pub proof fn law_openai_entry_call(e: JsonV, id: Seq<char>, name: Seq<char>, args: Seq<char>)
    ensures
        text_of(field(Some(e), "id"@)) == Some(id) && text_of(field(field(Some(e), "function"@), "name"@)) == Some(
            name,
        ) && text_of(field(field(Some(e), "function"@), "arguments"@)) == Some(args) ==> openai_calls(seq![e])
            == seq![ToolCallV { id, name, arguments: ArgumentsV::Encoded(args) }],
        text_of(field(Some(e), "id"@)) is None ==> openai_calls(seq![e]).len() == 0,
        text_of(field(field(Some(e), "function"@), "name"@)) is None ==> openai_calls(seq![e]).len() == 0,
        text_of(field(field(Some(e), "function"@), "arguments"@)) is None ==> openai_calls(seq![e]).len() == 0,
{
    assert(seq![e].drop_last() =~= Seq::<JsonV>::empty());
    assert(seq![e].last() == e);
    assert(openai_calls(Seq::<JsonV>::empty()) =~= Seq::<ToolCallV>::empty());
    reveal_with_fuel(openai_calls, 2);
}

/// The text of a run of Anthropic content blocks is the text of its parts, in order.
pub proof fn law_blocks_text_concat(a: Seq<JsonV>, b: Seq<JsonV>)
    ensures
        blocks_text(a + b) == blocks_text(a) + blocks_text(b),
    decreases b.len(),
{
    if b.len() == 0 {
        assert(a + b =~= a);
        assert(blocks_text(a) + blocks_text(b) =~= blocks_text(a));
    } else {
        law_blocks_text_concat(a, b.drop_last());
        assert((a + b).drop_last() =~= a + b.drop_last());
        assert(blocks_text(a) + blocks_text(b) =~= blocks_text(a) + blocks_text(b.drop_last()) + or_empty(
            text_of(field(Some(b.last()), "text"@)),
        ));
    }
}

/// The content blocks of an Anthropic reply.
pub open spec fn reply_blocks(data: JsonV) -> Seq<JsonV> {
    match items_of(field(Some(data), "content"@)) {
        Some(s) => s,
        None => Seq::empty(),
    }
}

/// The text of a reply to a request without native tools, if it has one: Anthropic
/// replies carry it in the first content block, Gemini replies in the first part of the
/// first candidate, the others in the first choice's message.
pub open spec fn chat_text(api: ChatApi, data: JsonV) -> Option<Seq<char>> {
    match api {
        ChatApi::Anthropic => first_block_text(data),
        ChatApi::Gemini => gemini_text(data),
        _ => reply_text(data),
    }
}

/// The id given to a tool call read out of a reply's text.
pub open spec fn prompt_call_id() -> Seq<char> {
    "prompt_call"@
}

/// The tool call that a reply's text makes when it is a JSON object (given decoded) with
/// a string `name` and an object `arguments`, as the prompt asks of models without
/// native tools; none otherwise.
pub open spec fn prompt_calls(decoded: Option<JsonV>) -> Seq<ToolCallV> {
    match (text_of(field(decoded, "name"@)), entries_of(field(decoded, "arguments"@))) {
        (Some(name), Some(args)) => seq![ToolCallV { id: prompt_call_id(), name, arguments: ArgumentsV::Fields(args) }],
        _ => Seq::empty(),
    }
}

/// Whether `e` is the error for a reply without content.
pub open spec fn is_no_content_error(e: Error) -> bool {
    e matches Error::LlmProvider(m) && m@ == "No content in response"@
}

/// The error for a reply whose status is not a success: `API error {status}: {body}`.
pub fn api_error(status: &str, body: &str) -> (e: Error)
    ensures
        e matches Error::LlmProvider(m) && m@ == "API error "@ + status@ + ": "@ + body@,
{
    let mut m = concat3("API error ", status, ": ");
    m.append(body);
    Error::LlmProvider(m)
}

/// The user message `{"role": "user", "content": content}`.
pub fn user_message_json(content: &str) -> (r: Json)
    ensures
        r@ == user_message(content@),
{
    let mut e: Vec<(String, Json)> = Vec::new();
    e.push(("role".to_owned(), Json::Str("user".to_owned())));
    e.push(("content".to_owned(), Json::Str(content.to_owned())));
    proof {
        lemma_entries_view(e@);
        assert(entries_view(e@) =~= seq![("role"@, JsonV::Str("user"@)), ("content"@, JsonV::Str(content@))]);
    }
    Json::Object(e)
}

/// Copies of the values of `v`.
pub fn duplicate_all(v: &Vec<Json>) -> (r: Vec<Json>)
    ensures
        values_view(r@) == values_view(v@),
{
    let mut r: Vec<Json> = Vec::new();
    let mut i: usize = 0;
    while i < v.len()
        invariant
            i <= v.len(),
            r.len() == i,
            forall|k: int| 0 <= k < i ==> #[trigger] r@[k]@ == v@[k]@,
        decreases v.len() - i,
    {
        r.push(v[i].duplicate());
        i = i + 1;
    }
    assert(values_view(r@) =~= values_view(v@));
    r
}

/// The views of an optional list of JSON values.
pub open spec fn opt_values_view(t: Option<Vec<Json>>) -> Option<Seq<JsonV>> {
    match t {
        Some(v) => Some(values_view(v@)),
        None => None,
    }
}

/// A chat message as a Gemini content.
fn gemini_content_json(m: &Json) -> (r: Json)
    ensures
        r@ == gemini_content(m@),
{
    let is_assistant = match text_at(at_field(Some(m), "role")) {
        Some(t) => same_text(t.as_str(), "assistant"),
        None => false,
    };
    let role = if is_assistant { "model" } else { "user" };
    let text = match text_at(at_field(Some(m), "content")) {
        Some(t) => t.clone(),
        None => String::new(),
    };
    let ghost tv = text@;
    let mut part: Vec<(String, Json)> = Vec::new();
    part.push(("text".to_owned(), Json::Str(text)));
    let ghost part_v = part@;
    let mut parts: Vec<Json> = Vec::new();
    parts.push(Json::Object(part));
    let ghost parts_v = parts@;
    let mut e: Vec<(String, Json)> = Vec::new();
    e.push(("role".to_owned(), Json::Str(role.to_owned())));
    e.push(("parts".to_owned(), Json::Array(parts)));
    proof {
        reveal_strlit("assistant");
        lemma_entries_view(part_v);
        lemma_items_view(parts_v);
        lemma_entries_view(e@);
        assert(tv == or_empty(text_of(field(Some(m@), "content"@))));
        assert(role@ == gemini_role(m@));
        assert(entries_view(part_v) =~= seq![("text"@, JsonV::Str(tv))]);
        assert(items_view(parts_v) =~= seq![JsonV::Object(seq![("text"@, JsonV::Str(tv))])]);
        assert(entries_view(e@) =~= seq![
            ("role"@, JsonV::Str(gemini_role(m@))),
            ("parts"@, JsonV::Array(seq![JsonV::Object(seq![("text"@, JsonV::Str(tv))])])),
        ]);
    }
    Json::Object(e)
}

/// The Gemini contents of chat messages, in order.
fn gemini_contents(messages: &Vec<Json>) -> (r: Vec<Json>)
    ensures
        values_view(r@) == values_view(messages@).map_values(|m: JsonV| gemini_content(m)),
{
    let mut r: Vec<Json> = Vec::new();
    let mut i: usize = 0;
    while i < messages.len()
        invariant
            i <= messages.len(),
            r.len() == i,
            forall|k: int| 0 <= k < i ==> #[trigger] r@[k]@ == gemini_content(messages@[k]@),
        decreases messages.len() - i,
    {
        r.push(gemini_content_json(&messages[i]));
        i = i + 1;
    }
    assert(values_view(r@) =~= values_view(messages@).map_values(|m: JsonV| gemini_content(m)));
    r
}

/// Builds the request body of `request_body` from concrete parts.
fn body_json(api: ChatApi, model: String, messages: Vec<Json>, tools: Option<Vec<Json>>) -> (r: Json)
    ensures
        r@ == request_body(
            api,
            model@,
            values_view(messages@),
            opt_values_view(tools),
        ),
{
    let ghost mv = values_view(messages@);
    let ghost tv = opt_values_view(tools);
    proof {
        lemma_values_view(messages@);
        if tools is Some {
            lemma_values_view(tools->0@);
        }
    }
    let mut e: Vec<(String, Json)> = Vec::new();
    match api {
        ChatApi::OpenAiCompatible => {
            e.push(("model".to_owned(), Json::Str(model)));
            e.push(("messages".to_owned(), Json::Array(messages)));
            match tools {
                Some(t) => {
                    e.push(("tools".to_owned(), Json::Array(t)));
                    e.push(("tool_choice".to_owned(), Json::Str("auto".to_owned())));
                },
                None => {},
            }
            e.push(("temperature".to_owned(), Json::Number("0.7".to_owned())));
            e.push(("max_tokens".to_owned(), Json::Number("2048".to_owned())));
        },
        ChatApi::Anthropic => {
            e.push(("model".to_owned(), Json::Str(model)));
            e.push(("max_tokens".to_owned(), Json::Number("2048".to_owned())));
            match tools {
                Some(t) => {
                    e.push(("tools".to_owned(), Json::Array(t)));
                },
                None => {},
            }
            e.push(("messages".to_owned(), Json::Array(messages)));
        },
        ChatApi::Conversational => {
            e.push(("model".to_owned(), Json::Str(model)));
            e.push(("messages".to_owned(), Json::Array(messages)));
            e.push(("temperature".to_owned(), Json::Number("0.7".to_owned())));
            e.push(("max_tokens".to_owned(), Json::Number("2048".to_owned())));
        },
        ChatApi::Ollama => {
            e.push(("model".to_owned(), Json::Str(model)));
            e.push(("messages".to_owned(), Json::Array(messages)));
            e.push(("stream".to_owned(), Json::Bool(false)));
        },
        ChatApi::Gemini => {
            let contents = gemini_contents(&messages);
            proof {
                lemma_values_view(contents@);
            }
            e.push(("contents".to_owned(), Json::Array(contents)));
        },
    }
    proof {
        lemma_entries_view(e@);
        let expected = request_body(api, model@, mv, tv);
        assert(expected matches JsonV::Object(x) && entries_view(e@) =~= x);
    }
    Json::Object(e)
}

/// The message object of an OpenAI-style reply.
fn message_of(data: &Json) -> (r: Option<&Json>)
    ensures
        opt_view(r) == reply_message(data@),
{
    at_field(at_element(at_field(Some(data), "choices"), 0), "message")
}

/// The text of an OpenAI-style reply, if it has one.
fn reply_text_of(data: &Json) -> (r: Option<String>)
    ensures
        match r {
            Some(t) => reply_text(data@) == Some(t@),
            None => reply_text(data@) is None,
        },
{
    match text_at(at_field(message_of(data), "content")) {
        Some(t) => Some(t.clone()),
        None => None,
    }
}

/// The tool calls of an OpenAI-style reply: each call entry with a string id, function
/// name and function arguments gives a call whose arguments are still encoded.
pub fn read_openai_calls(data: &Json) -> (r: Vec<ToolCall>)
    ensures
        calls_view(r@) == openai_calls(reply_call_entries(data@)),
{
    let mut out: Vec<ToolCall> = Vec::new();
    let calls = match items_at(at_field(message_of(data), "tool_calls")) {
        Some(c) => c,
        None => {
            assert(calls_view(out@) =~= Seq::<ToolCallV>::empty());
            return out;
        },
    };
    let ghost entries = values_view(calls@);
    assert(entries == reply_call_entries(data@));
    let mut i: usize = 0;
    while i < calls.len()
        invariant
            i <= calls.len(),
            entries == values_view(calls@),
            calls_view(out@) == openai_calls(entries.take(i as int)),
        decreases calls.len() - i,
    {
        assert(entries.take(i + 1).drop_last() =~= entries.take(i as int));
        assert(entries.take(i + 1).last() == calls@[i as int]@);
        let call = Some(&calls[i]);
        let f = at_field(call, "function");
        let id = text_at(at_field(call, "id"));
        let name = text_at(at_field(f, "name"));
        let args = text_at(at_field(f, "arguments"));
        match (id, name, args) {
            (Some(id), Some(name), Some(args)) => {
                out.push(
                    ToolCall {
                        id: id.clone(),
                        name: name.clone(),
                        arguments: ToolArguments::Encoded(args.clone()),
                    },
                );
                assert(calls_view(out@) =~= openai_calls(entries.take(i + 1)));
            },
            _ => {},
        }
        i = i + 1;
    }
    assert(entries.take(calls.len() as int) =~= entries);
    out
}

/// The text and tool calls of an Anthropic reply: the text of every content block, in
/// order, and a call for every `tool_use` block with a string id and name and an
/// object input.
pub fn read_anthropic_blocks(data: &Json) -> (r: LlmResponse)
    ensures
        r.content@ == blocks_text(reply_blocks(data@)),
        calls_view(r.tool_calls@) == anthropic_calls(reply_blocks(data@)),
{
    let mut content = String::new();
    let mut out: Vec<ToolCall> = Vec::new();
    let blocks = match items_at(at_field(Some(data), "content")) {
        Some(b) => b,
        None => {
            assert(calls_view(out@) =~= Seq::<ToolCallV>::empty());
            return LlmResponse { content, tool_calls: out };
        },
    };
    let ghost bv = values_view(blocks@);
    let mut i: usize = 0;
    while i < blocks.len()
        invariant
            i <= blocks.len(),
            bv == values_view(blocks@),
            bv == reply_blocks(data@),
            content@ == blocks_text(bv.take(i as int)),
            calls_view(out@) == anthropic_calls(bv.take(i as int)),
        decreases blocks.len() - i,
    {
        assert(bv.take(i + 1).drop_last() =~= bv.take(i as int));
        assert(bv.take(i + 1).last() == blocks@[i as int]@);
        let block = Some(&blocks[i]);
        match text_at(at_field(block, "text")) {
            Some(t) => {
                content.append(t.as_str());
            },
            None => {},
        }
        assert(content@ =~= blocks_text(bv.take(i + 1)));
        let is_tool_use = match text_at(at_field(block, "type")) {
            Some(t) => same_text(t.as_str(), "tool_use"),
            None => false,
        };
        if is_tool_use {
            let id = text_at(at_field(block, "id"));
            let name = text_at(at_field(block, "name"));
            let input = entries_at(at_field(block, "input"));
            match (id, name, input) {
                (Some(id), Some(name), Some(input)) => {
                    out.push(
                        ToolCall {
                            id: id.clone(),
                            name: name.clone(),
                            arguments: ToolArguments::Fields(duplicate_entries(input)),
                        },
                    );
                },
                _ => {},
            }
        }
        assert(calls_view(out@) =~= anthropic_calls(bv.take(i + 1)));
        i = i + 1;
    }
    assert(bv.take(blocks.len() as int) =~= bv);
    LlmResponse { content, tool_calls: out }
}

/// The text of a reply to a request without native tools, as `chat_text` gives it.
pub fn read_chat_text(api: ChatApi, data: &Json) -> (r: Option<String>)
    ensures
        match r {
            Some(t) => chat_text(api, data@) == Some(t@),
            None => chat_text(api, data@) is None,
        },
{
    let t = match api {
        ChatApi::Anthropic => text_at(at_field(at_element(at_field(Some(data), "content"), 0), "text")),
        ChatApi::Gemini => text_at(
            at_field(at_element(at_field(at_field(at_element(at_field(Some(data), "candidates"), 0), "content"), "parts"), 0), "text"),
        ),
        _ => text_at(at_field(message_of(data), "content")),
    };
    match t {
        Some(t) => Some(t.clone()),
        None => None,
    }
}

/// The text of a reply to a request without tools, or the error for a reply without
/// one.
pub fn read_chat_reply(api: ChatApi, data: &Json) -> (r: Result<String, Error>)
    ensures
        match chat_text(api, data@) {
            Some(t) => r matches Ok(s) && s@ == t,
            None => r matches Err(e) && is_no_content_error(e),
        },
{
    match read_chat_text(api, data) {
        Some(t) => Ok(t),
        None => Err(Error::llm_provider("No content in response")),
    }
}

/// The tool call that a reply's text makes, given the text decoded as JSON (`None` when
/// it is not JSON), as `prompt_calls` gives it.
pub fn read_prompt_calls(decoded: Option<&Json>) -> (r: Vec<ToolCall>)
    ensures
        calls_view(r@) == prompt_calls(opt_view(decoded)),
{
    let mut out: Vec<ToolCall> = Vec::new();
    let name = text_at(at_field(decoded, "name"));
    let args = entries_at(at_field(decoded, "arguments"));
    match (name, args) {
        (Some(name), Some(args)) => {
            let call = ToolCall {
                id: "prompt_call".to_owned(),
                name: name.clone(),
                arguments: ToolArguments::Fields(duplicate_entries(args)),
            };
            out.push(call);
            proof {
                reveal_strlit("prompt_call");
            }
            assert(calls_view(out@) =~= prompt_calls(opt_view(decoded)));
        },
        _ => {
            assert(calls_view(out@) =~= prompt_calls(opt_view(decoded)));
        },
    }
    out
}

/// The reply to a request with tools. Protocols with native tools give their text
/// (OpenAI-style: empty when missing; Anthropic: the blocks' text) and calls; vLLM, asked
/// without tools, its text (empty when missing) and no calls; Ollama and Gemini their
/// text, or the error for a reply without one.
pub fn read_tools_reply(api: ChatApi, data: &Json) -> (r: Result<LlmResponse, Error>)
    ensures
        api == ChatApi::OpenAiCompatible ==> (r matches Ok(resp) && resp.content@ == or_empty(reply_text(data@))
            && calls_view(resp.tool_calls@) == openai_calls(reply_call_entries(data@))),
        api == ChatApi::Anthropic ==> (r matches Ok(resp) && resp.content@ == blocks_text(reply_blocks(data@))
            && calls_view(resp.tool_calls@) == anthropic_calls(reply_blocks(data@))),
        api == ChatApi::Conversational ==> (r matches Ok(resp) && resp.content@ == or_empty(reply_text(data@))
            && resp.tool_calls.len() == 0),
        (api == ChatApi::Ollama || api == ChatApi::Gemini) ==> match chat_text(api, data@) {
            Some(t) => r matches Ok(resp) && resp.content@ == t && resp.tool_calls.len() == 0,
            None => r matches Err(e) && is_no_content_error(e),
        },
{
    match api {
        ChatApi::OpenAiCompatible => {
            let content = match reply_text_of(data) {
                Some(t) => t,
                None => String::new(),
            };
            Ok(LlmResponse { content, tool_calls: read_openai_calls(data) })
        },
        ChatApi::Anthropic => Ok(read_anthropic_blocks(data)),
        ChatApi::Conversational => {
            let content = match reply_text_of(data) {
                Some(t) => t,
                None => String::new(),
            };
            Ok(LlmResponse { content, tool_calls: Vec::new() })
        },
        _ => {
            let content = read_chat_reply(api, data)?;
            Ok(LlmResponse { content, tool_calls: Vec::new() })
        },
    }
}

/// The reply to a request with the conversation history. OpenAI-style and Anthropic
/// replies are read as by [`read_tools_reply`]. vLLM and Gemini replies give their text
/// (empty when missing) and no calls. An Ollama reply gives its text (empty when
/// missing) and the tool call that text makes, read from `decoded_text`, the text
/// decoded as JSON by the caller (`None` when it is not JSON).
pub fn read_history_reply(api: ChatApi, data: &Json, decoded_text: Option<&Json>) -> (r: LlmResponse)
    ensures
        api == ChatApi::OpenAiCompatible ==> r.content@ == or_empty(reply_text(data@))
            && calls_view(r.tool_calls@) == openai_calls(reply_call_entries(data@)),
        api == ChatApi::Anthropic ==> r.content@ == blocks_text(reply_blocks(data@))
            && calls_view(r.tool_calls@) == anthropic_calls(reply_blocks(data@)),
        (api == ChatApi::Conversational || api == ChatApi::Gemini) ==> r.content@ == or_empty(chat_text(api, data@))
            && r.tool_calls.len() == 0,
        api == ChatApi::Ollama ==> r.content@ == or_empty(reply_text(data@))
            && calls_view(r.tool_calls@) == prompt_calls(opt_view(decoded_text)),
{
    match api {
        ChatApi::Anthropic => read_anthropic_blocks(data),
        _ => {
            let content = match read_chat_text(api, data) {
                Some(t) => t,
                None => String::new(),
            };
            let tool_calls = match api {
                ChatApi::OpenAiCompatible => read_openai_calls(data),
                ChatApi::Ollama => read_prompt_calls(decoded_text),
                _ => Vec::new(),
            };
            LlmResponse { content, tool_calls }
        },
    }
}

impl LlmClient {
    /// A client for `provider` serving `model`, with the given key and base URL.
    pub fn new(provider: &str, model: &str, api_key: &str, api_base: &str) -> (r: Self)
        ensures
            r.provider@ == provider@,
            r.model@ == model@,
            r.api_key@ == api_key@,
            r.api_base@ == api_base@,
    {
        LlmClient {
            provider: provider.to_owned(),
            model: model.to_owned(),
            api_key: api_key.to_owned(),
            api_base: api_base.to_owned(),
        }
    }

    /// Strips a provider namespace from a model name (`vllm/qwen-7b` gives `qwen-7b`).
    pub fn normalize_model_name(&self, model: &str) -> (r: String)
        ensures
            r@ == normalized_model(model@),
    {
        match find_char(model, '/') {
            Some(idx) => {
                let prefix = model.substring_char(0, idx);
                if same_text(prefix, "vllm") || same_text(prefix, "moonshot")
                    || same_text(prefix, "nvidia") || same_text(prefix, "ollama") {
                    let n = model.unicode_len();
                    let rest = model.substring_char(idx + 1, n);
                    assert(rest@ =~= model@.skip(idx + 1));
                    rest.to_owned()
                } else {
                    model.to_owned()
                }
            },
            None => model.to_owned(),
        }
    }

    /// The chat completions endpoint of the provider.
    pub fn get_chat_endpoint(&self) -> (r: String)
        ensures
            r@ == chat_endpoint(self.provider@, self.api_base@),
    {
        let base = trim_end_char(self.api_base.as_str(), '/');
        let local = same_text(self.provider.as_str(), "vllm") || same_text(self.provider.as_str(), "ollama");
        if local && !text_ends_with(base, "/v1") {
            concat2(base, "/v1/chat/completions")
        } else {
            concat2(base, "/chat/completions")
        }
    }

    /// The URL and headers of a request in protocol `api`.
    fn frame(&self, api: ChatApi) -> (r: (String, Vec<(String, String)>))
        ensures
            r.0@ == request_url(api, *self),
            headers_view(r.1@) == request_headers(api, self.api_key@),
    {
        let url = match api {
            ChatApi::Anthropic => concat2(self.api_base.as_str(), "/messages"),
            ChatApi::Gemini => {
                let mut u = concat2(trim_end_char(self.api_base.as_str(), '/'), "/models/");
                u.append(self.normalize_model_name(self.model.as_str()).as_str());
                u.append(":generateContent?key=");
                u.append(self.api_key.as_str());
                u
            },
            _ => self.get_chat_endpoint(),
        };
        let mut h: Vec<(String, String)> = Vec::new();
        match api {
            ChatApi::OpenAiCompatible | ChatApi::Conversational => {
                h.push(("Authorization".to_owned(), concat2("Bearer ", self.api_key.as_str())));
            },
            ChatApi::Anthropic => {
                h.push(("x-api-key".to_owned(), self.api_key.clone()));
                h.push(("anthropic-version".to_owned(), "2023-06-01".to_owned()));
            },
            _ => {},
        }
        h.push(("Content-Type".to_owned(), "application/json".to_owned()));
        assert(headers_view(h@) =~= request_headers(api, self.api_key@));
        (url, h)
    }

    /// The request for a single `message` without tools, or the error for an
    /// unsupported provider.
    pub fn chat_request(&self, message: &str) -> (r: Result<HttpRequest, Error>)
        ensures
            match api_of(self.provider@) {
                Some(api) => r matches Ok(req) && is_request(req, *self, api, seq![user_message(message@)], None),
                None => r matches Err(e) && is_unsupported_error(e, self.provider@),
            },
    {
        let api = chat_api(self.provider.as_str())?;
        let (url, headers) = self.frame(api);
        let mut messages: Vec<Json> = Vec::new();
        messages.push(user_message_json(message));
        assert(values_view(messages@) =~= seq![user_message(message@)]);
        let body = body_json(api, self.normalize_model_name(self.model.as_str()), messages, None);
        Ok(HttpRequest { url, headers, body })
    }

    /// The request for a single `message` with `tools`, or the error for an unsupported
    /// provider. Only protocols with native tools are offered them.
    pub fn chat_with_tools_request(&self, message: &str, tools: Vec<Json>) -> (r: Result<HttpRequest, Error>)
        ensures
            match api_of(self.provider@) {
                Some(api) => r matches Ok(req) && is_request(
                    req,
                    *self,
                    api,
                    seq![user_message(message@)],
                    if offers_tools(api) { Some(values_view(tools@)) } else { None },
                ),
                None => r matches Err(e) && is_unsupported_error(e, self.provider@),
            },
    {
        let api = chat_api(self.provider.as_str())?;
        let (url, headers) = self.frame(api);
        let mut messages: Vec<Json> = Vec::new();
        messages.push(user_message_json(message));
        assert(values_view(messages@) =~= seq![user_message(message@)]);
        let offered = if api == ChatApi::OpenAiCompatible || api == ChatApi::Anthropic { Some(tools) } else { None };
        let body = body_json(api, self.normalize_model_name(self.model.as_str()), messages, offered);
        Ok(HttpRequest { url, headers, body })
    }

    /// The request for the conversation `history` with `tools`, or the error for an
    /// unsupported provider. Only protocols with native tools are offered them.
    pub fn chat_with_tools_and_history_request(&self, tools: Vec<Json>, history: &Vec<Json>) -> (r: Result<HttpRequest, Error>)
        ensures
            match api_of(self.provider@) {
                Some(api) => r matches Ok(req) && is_request(
                    req,
                    *self,
                    api,
                    values_view(history@),
                    if offers_tools(api) { Some(values_view(tools@)) } else { None },
                ),
                None => r matches Err(e) && is_unsupported_error(e, self.provider@),
            },
    {
        let api = chat_api(self.provider.as_str())?;
        let (url, headers) = self.frame(api);
        let messages = duplicate_all(history);
        let offered = if api == ChatApi::OpenAiCompatible || api == ChatApi::Anthropic { Some(tools) } else { None };
        let body = body_json(api, self.normalize_model_name(self.model.as_str()), messages, offered);
        Ok(HttpRequest { url, headers, body })
    }
}

} // verus!
