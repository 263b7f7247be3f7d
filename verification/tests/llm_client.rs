use picoclaw::json::Json;
use picoclaw::llm::client::{
    api_error, chat_api, read_chat_reply, read_chat_text, read_history_reply, read_prompt_calls, read_tools_reply,
    ChatApi, LlmClient,
};
use picoclaw::tools::base::ToolArguments;
use picoclaw::error::Error;

fn s(t: &str) -> Json {
    Json::Str(t.to_string())
}

fn obj(entries: Vec<(&str, Json)>) -> Json {
    Json::Object(entries.into_iter().map(|(k, v)| (k.to_string(), v)).collect())
}

fn field<'a>(j: &'a Json, key: &str) -> &'a Json {
    j.get_field(key).expect("field present")
}

#[test]
fn test_ollama_client_creation() {
    let client = LlmClient::new("ollama", "llama2", "", "http://localhost:11434");
    assert_eq!(client.provider, "ollama");
    assert_eq!(client.model, "llama2");
    assert_eq!(client.api_base, "http://localhost:11434");
}

#[test]
fn test_model_name_normalization() {
    let client = LlmClient::new("ollama", "ollama/llama2", "", "http://localhost:11434");
    let normalized = client.normalize_model_name("ollama/llama2");
    assert_eq!(normalized, "llama2");
}

#[test]
fn test_vllm_model_name_normalization() {
    let client = LlmClient::new("vllm", "vllm/meta-llama/Llama-2-7b-hf", "test-key", "http://localhost:8000");
    let normalized = client.normalize_model_name("vllm/meta-llama/Llama-2-7b-hf");
    assert_eq!(normalized, "meta-llama/Llama-2-7b-hf");
}

#[test]
fn test_model_name_without_prefix() {
    let client = LlmClient::new("ollama", "llama2", "", "http://localhost:11434");
    let normalized = client.normalize_model_name("llama2");
    assert_eq!(normalized, "llama2");
}

#[test]
fn model_names_keep_foreign_prefixes() {
    let client = LlmClient::new("openrouter", "x", "", "");
    assert_eq!(client.normalize_model_name("meta-llama/llama-2-70b-chat"), "meta-llama/llama-2-70b-chat");
    assert_eq!(client.normalize_model_name("moonshot/kimi"), "kimi");
    assert_eq!(client.normalize_model_name("nvidia/a/b"), "a/b");
    assert_eq!(client.normalize_model_name("vllm/"), "");
    assert_eq!(client.normalize_model_name(""), "");
}

#[test]
fn chat_endpoints() {
    assert_eq!(LlmClient::new("vllm", "m", "", "http://h:8000///").get_chat_endpoint(), "http://h:8000/v1/chat/completions");
    assert_eq!(LlmClient::new("ollama", "m", "", "http://h").get_chat_endpoint(), "http://h/v1/chat/completions");
    assert_eq!(
        LlmClient::new("ollama", "llama2", "", "http://localhost:11434/v1").get_chat_endpoint(),
        "http://localhost:11434/v1/chat/completions"
    );
    assert_eq!(LlmClient::new("vllm", "m", "", "http://h/v1/").get_chat_endpoint(), "http://h/v1/chat/completions");
    assert_eq!(LlmClient::new("openai", "m", "", "https://api.openai.com/v1/").get_chat_endpoint(), "https://api.openai.com/v1/chat/completions");
    assert_eq!(LlmClient::new("openrouter", "m", "", "").get_chat_endpoint(), "/chat/completions");
}

#[test]
fn provider_protocols() {
    assert_eq!(chat_api("openai").ok(), Some(ChatApi::OpenAiCompatible));
    assert_eq!(chat_api("openrouter").ok(), Some(ChatApi::OpenAiCompatible));
    assert_eq!(chat_api("vllm").ok(), Some(ChatApi::Conversational));
    assert_eq!(chat_api("anthropic").ok(), Some(ChatApi::Anthropic));
    assert_eq!(chat_api("ollama").ok(), Some(ChatApi::Ollama));
    assert_eq!(chat_api("gemini").ok(), Some(ChatApi::Gemini));
    match chat_api("cohere") {
        Err(Error::LlmProvider(m)) => assert_eq!(m, "Unsupported provider: cohere"),
        other => panic!("unexpected {:?}", other),
    }
}

#[test]
fn openai_request_framing() {
    let client = LlmClient::new("openai", "vllm/qwen", "sk-1", "https://api.example/v1/");
    let req = client.chat_request("hi").unwrap();
    assert_eq!(req.url, "https://api.example/v1/chat/completions");
    assert_eq!(req.headers, vec![
        ("Authorization".to_string(), "Bearer sk-1".to_string()),
        ("Content-Type".to_string(), "application/json".to_string()),
    ]);
    assert!(matches!(field(&req.body, "model"), Json::Str(m) if m == "qwen"));
    assert!(matches!(field(&req.body, "temperature"), Json::Number(n) if n == "0.7"));
    assert!(matches!(field(&req.body, "max_tokens"), Json::Number(n) if n == "2048"));
    assert!(req.body.get_field("tools").is_none());
    let msg = field(&req.body, "messages").get_element(0).unwrap();
    assert!(matches!(field(msg, "role"), Json::Str(r) if r == "user"));
    assert!(matches!(field(msg, "content"), Json::Str(c) if c == "hi"));

    let with_tools = client.chat_with_tools_request("hi", vec![s("t")]).unwrap();
    assert!(matches!(field(&with_tools.body, "tool_choice"), Json::Str(c) if c == "auto"));
    assert!(matches!(field(&with_tools.body, "tools"), Json::Array(t) if t.len() == 1));
}

#[test]
fn anthropic_and_ollama_framing() {
    let a = LlmClient::new("anthropic", "model-a", "key", "https://api.anthropic.com/");
    let req = a.chat_with_tools_and_history_request(vec![], &vec![s("m1"), s("m2")]).unwrap();
    assert_eq!(req.url, "https://api.anthropic.com//messages");
    assert_eq!(req.headers.len(), 3);
    assert_eq!(req.headers[0], ("x-api-key".to_string(), "key".to_string()));
    assert_eq!(req.headers[1], ("anthropic-version".to_string(), "2023-06-01".to_string()));
    assert!(matches!(field(&req.body, "messages"), Json::Array(m) if m.len() == 2));
    assert!(req.body.get_field("temperature").is_none());

    let o = LlmClient::new("ollama", "ollama/llama2", "", "http://localhost:11434");
    let req = o.chat_with_tools_request("hi", vec![s("tool")]).unwrap();
    assert_eq!(req.url, "http://localhost:11434/v1/chat/completions");
    assert_eq!(req.headers, vec![("Content-Type".to_string(), "application/json".to_string())]);
    assert!(matches!(field(&req.body, "stream"), Json::Bool(false)));
    assert!(req.body.get_field("tools").is_none());

    let bad = LlmClient::new("mystery", "m", "", "");
    assert!(matches!(bad.chat_request("x"), Err(Error::LlmProvider(m)) if m == "Unsupported provider: mystery"));
}

fn openai_reply(content: Option<&str>, calls: Vec<Json>) -> Json {
    let mut message = vec![];
    if let Some(c) = content {
        message.push(("content", s(c)));
    }
    if !calls.is_empty() {
        message.push(("tool_calls", Json::Array(calls)));
    }
    obj(vec![("choices", Json::Array(vec![obj(vec![("message", obj(message))])]))])
}

fn openai_call(id: &str, name: &str, args: &str) -> Json {
    obj(vec![("id", s(id)), ("type", s("function")), ("function", obj(vec![("name", s(name)), ("arguments", s(args))]))])
}

#[test]
fn openai_reply_reading() {
    let data = openai_reply(Some("done"), vec![
        openai_call("c1", "write_file", "{\"path\":\"a\"}"),
        obj(vec![("id", s("c2"))]),
        openai_call("c3", "other", "{}"),
    ]);
    let r = read_tools_reply(ChatApi::OpenAiCompatible, &data).unwrap();
    assert_eq!(r.content, "done");
    assert_eq!(r.tool_calls.len(), 2);
    assert_eq!(r.tool_calls[0].id, "c1");
    assert_eq!(r.tool_calls[0].name, "write_file");
    assert!(matches!(&r.tool_calls[0].arguments, ToolArguments::Encoded(a) if a == "{\"path\":\"a\"}"));
    assert_eq!(r.tool_calls[1].id, "c3");

    let empty = read_history_reply(ChatApi::OpenAiCompatible, &openai_reply(None, vec![]), None);
    assert_eq!(empty.content, "");
    assert!(empty.tool_calls.is_empty());
    assert_eq!(read_chat_reply(ChatApi::OpenAiCompatible, &data).unwrap(), "done");
    assert!(matches!(read_chat_reply(ChatApi::Ollama, &openai_reply(None, vec![])), Err(Error::LlmProvider(m)) if m == "No content in response"));
    assert!(read_tools_reply(ChatApi::Ollama, &openai_reply(None, vec![])).is_err());
    let o = read_tools_reply(ChatApi::Ollama, &openai_reply(Some("hey"), vec![openai_call("x", "y", "{}")])).unwrap();
    assert_eq!(o.content, "hey");
    assert!(o.tool_calls.is_empty());
}

#[test]
fn anthropic_reply_reading() {
    let data = obj(vec![("content", Json::Array(vec![
        obj(vec![("type", s("text")), ("text", s("Hello "))]),
        obj(vec![("type", s("tool_use")), ("id", s("tu1")), ("name", s("write_file")), ("input", obj(vec![("path", s("x.txt"))]))]),
        obj(vec![("type", s("text")), ("text", s("world"))]),
        obj(vec![("type", s("tool_use")), ("id", s("tu2")), ("name", s("n")), ("input", s("not an object"))]),
    ]))]);
    let r = read_tools_reply(ChatApi::Anthropic, &data).unwrap();
    assert_eq!(r.content, "Hello world");
    assert_eq!(r.tool_calls.len(), 1);
    assert_eq!(r.tool_calls[0].id, "tu1");
    match &r.tool_calls[0].arguments {
        ToolArguments::Fields(f) => {
            assert_eq!(f.len(), 1);
            assert_eq!(f[0].0, "path");
            assert!(matches!(&f[0].1, Json::Str(p) if p == "x.txt"));
        }
        other => panic!("unexpected {:?}", other),
    }
    assert_eq!(read_chat_reply(ChatApi::Anthropic, &data).unwrap(), "Hello ");
}

#[test]
fn api_error_message() {
    match api_error("500 Internal Server Error", "boom") {
        Error::LlmProvider(m) => assert_eq!(m, "API error 500 Internal Server Error: boom"),
        other => panic!("unexpected {:?}", other),
    }
}

#[test]
fn vllm_and_gemini_are_conversational() {
    let v = LlmClient::new("vllm", "vllm/qwen", "k", "http://h:8000");
    let req = v.chat_with_tools_and_history_request(vec![s("tool")], &vec![s("m")]).unwrap();
    assert_eq!(req.url, "http://h:8000/v1/chat/completions");
    assert!(req.body.get_field("tools").is_none());
    assert!(req.body.get_field("tool_choice").is_none());
    assert!(matches!(field(&req.body, "model"), Json::Str(m) if m == "qwen"));
    let empty = read_tools_reply(ChatApi::Conversational, &openai_reply(None, vec![])).unwrap();
    assert_eq!(empty.content, "");
    assert!(empty.tool_calls.is_empty());
    let r = read_history_reply(ChatApi::Conversational, &openai_reply(Some("hi"), vec![openai_call("c", "t", "{}")]), None);
    assert_eq!(r.content, "hi");
    assert!(r.tool_calls.is_empty());

    let g = LlmClient::new("gemini", "gemini-2.5-flash", "gk", "https://generativelanguage.googleapis.com/v1beta/");
    let history = vec![
        obj(vec![("role", s("system")), ("content", s("be brief"))]),
        obj(vec![("role", s("user")), ("content", s("hello"))]),
        obj(vec![("role", s("assistant")), ("content", s("hi"))]),
    ];
    let req = g.chat_with_tools_and_history_request(vec![s("tool")], &history).unwrap();
    assert_eq!(
        req.url,
        "https://generativelanguage.googleapis.com/v1beta/models/gemini-2.5-flash:generateContent?key=gk"
    );
    assert_eq!(req.headers, vec![("Content-Type".to_string(), "application/json".to_string())]);
    assert!(req.body.get_field("tools").is_none());
    let contents = field(&req.body, "contents");
    let third = contents.get_element(2).unwrap();
    assert!(matches!(field(third, "role"), Json::Str(r) if r == "model"));
    let part = field(third, "parts").get_element(0).unwrap();
    assert!(matches!(field(part, "text"), Json::Str(t) if t == "hi"));
    assert!(matches!(field(contents.get_element(0).unwrap(), "role"), Json::Str(r) if r == "user"));
    assert!(contents.get_element(3).is_none());

    let reply = obj(vec![("candidates", Json::Array(vec![obj(vec![(
        "content",
        obj(vec![("parts", Json::Array(vec![obj(vec![("text", s("Bonjour"))])]))]),
    )])]))]);
    assert_eq!(read_chat_reply(ChatApi::Gemini, &reply).unwrap(), "Bonjour");
    let r = read_history_reply(ChatApi::Gemini, &reply, None);
    assert_eq!(r.content, "Bonjour");
    assert!(r.tool_calls.is_empty());
    assert!(read_chat_reply(ChatApi::Gemini, &obj(vec![])).is_err());
}

#[test]
fn ollama_calls_from_reply_text() {
    let text = "{\"name\": \"write_file\", \"arguments\": {\"path\": \"a.txt\"}}";
    let data = openai_reply(Some(text), vec![]);
    assert_eq!(read_chat_text(ChatApi::Ollama, &data).as_deref(), Some(text));
    let decoded = obj(vec![("name", s("write_file")), ("arguments", obj(vec![("path", s("a.txt"))]))]);
    let r = read_history_reply(ChatApi::Ollama, &data, Some(&decoded));
    assert_eq!(r.content, text);
    assert_eq!(r.tool_calls.len(), 1);
    assert_eq!(r.tool_calls[0].id, "prompt_call");
    assert_eq!(r.tool_calls[0].name, "write_file");
    assert!(matches!(&r.tool_calls[0].arguments, ToolArguments::Fields(f) if f.len() == 1 && f[0].0 == "path"));
    let plain = read_history_reply(ChatApi::Ollama, &openai_reply(Some("just text"), vec![]), None);
    assert!(plain.tool_calls.is_empty());
    assert!(read_prompt_calls(Some(&obj(vec![("name", s("x")), ("arguments", s("no"))]))).is_empty());
    assert!(read_prompt_calls(Some(&s("x"))).is_empty());
}

#[test]
fn argument_fields_fall_back_to_empty() {
    let enc = ToolArguments::Encoded("{\"a\":1}".to_string());
    let decoded = vec![("a".to_string(), Json::Number("1".to_string()))];
    let f = enc.fields(Some(&decoded));
    assert_eq!(f.len(), 1);
    assert_eq!(f[0].0, "a");
    assert!(ToolArguments::Encoded("oops".to_string()).fields(None).is_empty());
    let given = ToolArguments::Fields(vec![("b".to_string(), Json::Bool(true))]);
    let f = given.fields(Some(&decoded));
    assert_eq!(f.len(), 1);
    assert_eq!(f[0].0, "b");
}
