use picoclaw::agent::context::MessageRole;
use picoclaw::agent::executor::{ChatMessage, ExecutorRun, ExecutorStep, RunPhase};
use picoclaw::json::Json;
use picoclaw::agent::loop_impl::{IterationLoop, LoopStep};
use picoclaw::llm::client::LlmResponse;
use picoclaw::llm::framework::{LlmResponse as ProviderResponse, TokenUsage};
use picoclaw::tools::base::{ToolArguments, ToolCall, ToolResult};

fn call(id: &str, name: &str) -> ToolCall {
    ToolCall { id: id.to_string(), name: name.to_string(), arguments: ToolArguments::Encoded("{}".to_string()) }
}

fn reply(content: &str, calls: Vec<ToolCall>) -> LlmResponse {
    LlmResponse { content: content.to_string(), tool_calls: calls }
}

#[test]
fn executor_answers_without_tools() {
    let mut run = ExecutorRun::new("openai", "sys".to_string(), "hello".to_string(), 10);
    assert!(run.supports_tool_role && run.enable_tools);
    assert_eq!(run.conversation.len(), 2);
    assert_eq!(run.conversation[0].role, MessageRole::System);
    assert_eq!(run.conversation[0].content, "sys");
    assert!(matches!(run.next_step(), ExecutorStep::AskWithHistory));
    assert_eq!(run.accept_reply(reply("hi there", vec![])), Some("hi there".to_string()));
    assert_eq!(run.phase, RunPhase::Finished);
    assert!(matches!(run.next_step(), ExecutorStep::Finished(f) if f == "hi there"));
    assert_eq!(run.conversation.len(), 3);
}

#[test]
fn executor_tool_role_results() {
    let mut run = ExecutorRun::new("anthropic", "sys".to_string(), "write".to_string(), 10);
    assert!(matches!(run.next_step(), ExecutorStep::AskWithHistory));
    assert_eq!(run.accept_reply(reply("calling", vec![call("a", "t1"), call("b", "t2")])), None);
    assert_eq!(run.pending_calls().map(|c| c.len()), Some(2));
    assert!(!run.accept_tool_results(vec![ToolResult::success("only one")]));
    assert!(run.accept_tool_results(vec![ToolResult::success("r1"), ToolResult::error("r2")]));
    assert_eq!(run.conversation.len(), 5);
    assert_eq!(run.conversation[3].role, MessageRole::Tool);
    assert_eq!(run.conversation[3].tool_call_id.as_deref(), Some("a"));
    assert_eq!(run.conversation[3].content, "r1");
    assert_eq!(run.conversation[4].tool_call_id.as_deref(), Some("b"));
    assert_eq!(run.conversation[4].content, "r2");
    assert_eq!(run.phase, RunPhase::Ready);
}

#[test]
fn executor_results_as_user_message() {
    let mut run = ExecutorRun::new("ollama", "sys".to_string(), "go".to_string(), 10);
    assert!(!run.supports_tool_role && run.enable_tools);
    run.next_step();
    run.accept_reply(reply("", vec![call("a", "write_file"), call("b", "ls")]));
    assert!(run.accept_tool_results(vec![ToolResult::success("ok"), ToolResult::success("files")]));
    let last = run.conversation.last().unwrap();
    assert_eq!(last.role, MessageRole::User);
    assert_eq!(last.content, "Tool 'write_file' result: ok\n\nTool 'ls' result: files");
}

#[test]
fn executor_plain_provider_and_limit() {
    let mut run = ExecutorRun::new("gpt-proxy", "sys".to_string(), "question".to_string(), 1);
    assert!(!run.enable_tools);
    assert!(matches!(run.next_step(), ExecutorStep::AskPlain(m) if m == "question"));
    run.accept_reply(reply("partial", vec![call("a", "t")]));
    run.accept_tool_results(vec![ToolResult::success("x")]);
    assert!(matches!(run.next_step(), ExecutorStep::Finished(f) if f.is_empty()));
    assert_eq!(run.iteration, 1);
}

#[test]
fn executor_stops_after_max_iterations() {
    let mut run = ExecutorRun::new("openrouter", "s".to_string(), "m".to_string(), 10);
    let mut asks = 0;
    loop {
        match run.next_step() {
            ExecutorStep::Finished(f) => {
                assert_eq!(f, "");
                break;
            }
            _ => asks += 1,
        }
        run.accept_reply(reply("again", vec![call("i", "t")]));
        run.accept_tool_results(vec![ToolResult::success("r")]);
    }
    assert_eq!(asks, 10);
}

#[test]
fn loop_keeps_last_content_at_limit() {
    let mut l = IterationLoop::new(vec![], 2);
    let usage = TokenUsage { input_tokens: 1, output_tokens: 2 };
    for i in 0..2 {
        assert!(matches!(l.next_step(), LoopStep::AskModel));
        let r = ProviderResponse { content: format!("step {}", i), usage, tool_calls: vec![call("c", "t")] };
        assert_eq!(l.accept_reply(r), None);
        assert_eq!(l.pending_calls().map(|c| c.len()), Some(1));
        assert!(l.accept_tool_results(vec![ToolResult::success("out")]));
    }
    assert!(matches!(l.next_step(), LoopStep::Finished(f) if f == "step 1"));
    assert_eq!(l.messages.len(), 4);
    assert_eq!(l.messages[0].role, MessageRole::Assistant);
    assert_eq!(l.messages[1].role, MessageRole::Tool);
    assert_eq!(l.messages[1].tool_call_id.as_deref(), Some("c"));
}

#[test]
fn loop_finishes_on_plain_reply() {
    let mut l = IterationLoop::new(vec![], 10);
    l.next_step();
    let r = ProviderResponse { content: "final".to_string(), usage: TokenUsage { input_tokens: 0, output_tokens: 0 }, tool_calls: vec![] };
    assert_eq!(l.accept_reply(r), Some("final".to_string()));
    assert!(l.messages.is_empty());
    assert!(!l.accept_tool_results(vec![]));
}

fn text_at<'a>(j: &'a Json, key: &str) -> Option<&'a str> {
    j.get_field(key).and_then(|v| v.as_text()).map(|s| s.as_str())
}

#[test]
fn chat_message_json_shapes() {
    let tool = ChatMessage {
        role: MessageRole::Tool,
        content: "done".to_string(),
        tool_calls: Vec::new(),
        tool_call_id: Some("c1".to_string()),
    };
    let j = tool.to_json(&Vec::new());
    assert_eq!(text_at(&j, "role"), Some("tool"));
    assert_eq!(text_at(&j, "tool_call_id"), Some("c1"));
    assert_eq!(text_at(&j, "content"), Some("done"));

    let user = ChatMessage {
        role: MessageRole::User,
        content: "hi".to_string(),
        tool_calls: Vec::new(),
        tool_call_id: None,
    };
    let j = user.to_json(&Vec::new());
    assert_eq!(text_at(&j, "role"), Some("user"));
    assert_eq!(text_at(&j, "content"), Some("hi"));
    assert!(j.get_field("tool_calls").is_none());

    let assistant = ChatMessage {
        role: MessageRole::Assistant,
        content: "".to_string(),
        tool_calls: vec![call("a", "write_file"), call("b", "read_file")],
        tool_call_id: None,
    };
    let j = assistant.to_json(&vec!["{\"path\":\"x\"}".to_string()]);
    assert_eq!(text_at(&j, "role"), Some("assistant"));
    let calls = j.get_field("tool_calls").unwrap();
    let first = calls.get_element(0).unwrap();
    assert_eq!(text_at(first, "id"), Some("a"));
    assert_eq!(text_at(first, "type"), Some("function"));
    let f = first.get_field("function").unwrap();
    assert_eq!(text_at(f, "name"), Some("write_file"));
    assert_eq!(text_at(f, "arguments"), Some("{\"path\":\"x\"}"));
    let second = calls.get_element(1).unwrap();
    assert_eq!(text_at(second.get_field("function").unwrap(), "arguments"), Some(""));
    assert!(calls.get_element(2).is_none());
}

#[test]
fn ollama_prompt_says_how_to_call_tools() {
    let run = ExecutorRun::new("ollama", "sys".to_string(), "go".to_string(), 10);
    assert!(run.conversation[0].content.starts_with("sys\n\n## Calling Tools"));
    assert!(run.conversation[0].content.contains("{\"name\": \"<tool name>\", \"arguments\""));
}
