use picoclaw::agent::context_builder::ContextBuilder;
use picoclaw::agent::memory::MemoryManager;
use picoclaw::device::manager::{Device, DeviceConfig, DeviceManager, DeviceStatus, DeviceType};
use std::collections::HashMap;
use picoclaw::error::Error;
use picoclaw::heartbeat::HeartbeatService;
use picoclaw::json::Json;
use picoclaw::runtime::{
    admit_task, can_accept_task, shutdown_start, shutdown_step, RuntimeConfig, ShutdownStart, ShutdownStep,
};
use picoclaw::session::manager::SessionManager;
use picoclaw::tools::base::{ToolDefinition, ToolResult};
use picoclaw::tools::write_file::WriteFileTool;

#[test]
fn heartbeat_intervals_and_start() {
    assert_eq!(HeartbeatService::new(0, true).interval_minutes, 30);
    assert_eq!(HeartbeatService::new(1, true).interval_minutes, 5);
    assert_eq!(HeartbeatService::new(4, true).interval_minutes, 5);
    assert_eq!(HeartbeatService::new(5, true).interval_minutes, 5);
    assert_eq!(HeartbeatService::new(60, false).interval_minutes, 60);
    let mut h = HeartbeatService::default_service();
    assert_eq!(h.interval_minutes, 30);
    assert!(h.start());
    assert!(!h.start());
    assert!(h.is_running());
    assert_eq!(h.tick_seconds(), Some(1800));
    assert_eq!(HeartbeatService::new(u64::MAX, true).tick_seconds(), None);
    assert!(h.stop().is_ok());
    assert!(!h.is_running());
    let mut off = HeartbeatService::new(10, false);
    assert!(!off.start());
    assert!(!off.is_running());
}

#[test]
fn runtime_decisions() {
    let cfg = RuntimeConfig::default();
    assert!(cfg.worker_threads >= 1);
    assert_eq!(cfg.max_blocking_threads, 512);
    assert_eq!(cfg.thread_name_prefix, "takobull-worker");
    assert_eq!(cfg.stack_size, 2 * 1024 * 1024);
    assert!(can_accept_task(1, 2));
    assert!(!can_accept_task(2, 2));
    assert!(admit_task(0, 10).is_ok());
    assert!(matches!(admit_task(2, 2), Err(Error::Runtime(m)) if m == "Task pool at capacity: 2/2"));
    assert!(matches!(shutdown_step(0, true), ShutdownStep::Completed));
    assert!(matches!(shutdown_step(3, false), ShutdownStep::Wait));
    assert!(matches!(shutdown_step(3, true), ShutdownStep::TimedOut(Error::Runtime(m)) if m == "Graceful shutdown timeout: 3 tasks still active"));
}

#[test]
fn stub_managers() {
    let m = MemoryManager::new(10);
    assert_eq!(m.get_memory_usage(), 0);
    let mut d = DeviceManager::new();
    assert!(d.discover_devices().unwrap().is_empty());
    assert!(d.get_device("x").unwrap().is_none());
    let _ = SessionManager::new();
}

fn device(id: &str, device_type: DeviceType, address: &str) -> Device {
    let mut parameters = HashMap::new();
    parameters.insert("speed".to_string(), "100k".to_string());
    Device {
        id: id.to_string(),
        device_type,
        status: DeviceStatus::Available,
        config: DeviceConfig { address: address.to_string(), parameters },
    }
}

#[test]
fn device_register_and_get() {
    let mut d = DeviceManager::new();
    assert!(d.register_device(device("i2c0", DeviceType::I2C, "0x40")).is_ok());
    assert!(d.register_device(device("spi1", DeviceType::SPI, "cs0")).is_ok());
    let got = d.get_device("i2c0").unwrap().unwrap();
    assert_eq!(got.id, "i2c0");
    assert_eq!(got.device_type, DeviceType::I2C);
    assert_eq!(got.config.address, "0x40");
    assert_eq!(got.config.parameters.get("speed").map(|s| s.as_str()), Some("100k"));
    assert!(d.get_device("gpio9").unwrap().is_none());
    assert!(d.register_device(device("i2c0", DeviceType::GPIO, "0x41")).is_ok());
    let again = d.get_device("i2c0").unwrap().unwrap();
    assert_eq!(again.device_type, DeviceType::GPIO);
    assert_eq!(again.config.address, "0x41");
}

#[test]
fn tool_result_builders() {
    let r = ToolResult::success("done").with_user_content("shown").silent().async_result();
    assert_eq!(r.for_llm, "done");
    assert_eq!(r.for_user.as_deref(), Some("shown"));
    assert!(!r.is_error && r.silent && r.async_exec);
    let e = ToolResult::error("bad");
    assert!(e.is_error && !e.silent && !e.async_exec && e.for_user.is_none());
}

#[test]
fn system_prompt_sections() {
    let b = ContextBuilder::new("/tmp/ws");
    let id = b.get_identity("2024-01-01 10:00 (Monday)", "linux", "x86_64");
    assert!(id.starts_with("# TakoBull"));
    assert!(id.ends_with("Answer simple questions directly, without tools: to \"What is 2+2?\" just answer \"4\"."));
    assert!(id.contains("4. **Response style** - Be concise and professional. Do not use emojis."));
    assert!(id.contains("## Current Time\n2024-01-01 10:00 (Monday)\n\n## Runtime\nlinux x86_64, Rust"));
    assert!(id.contains("Your workspace is at: /tmp/ws\n\n## Important Rules"));
    let none = b.build_system_prompt_at("t", "os", "arch", &vec![]);
    assert_eq!(none, b.get_identity("t", "os", "arch"));
    let defs = vec![ToolDefinition::from_parts("write_file", "Write content", Json::Null)];
    let section = b.build_tools_section(&defs);
    assert!(section.starts_with("## Available Tools\n\n**CRITICAL**"));
    assert!(section.ends_with("You have access to the following tools:\n\n- `write_file` - Write content\n"));
    let full = b.build_system_prompt_at("t", "os", "arch", &defs);
    assert_eq!(full, format!("{}\n\n{}", b.get_identity("t", "os", "arch"), section));
    let prompt = b.build_system_prompt("linux", "x86_64", &defs).unwrap();
    assert!(prompt.contains("- `write_file` - Write content"));
    assert!(prompt.contains("## Current Time\n20"));
}

#[test]
fn tool_definition_json() {
    let d = ToolDefinition::from_parts("n", "d", Json::Bool(true));
    let j = d.to_json();
    assert!(matches!(j.get_field("type"), Some(Json::Str(t)) if t == "function"));
    let f = j.get_field("function").unwrap();
    assert!(matches!(f.get_field("name"), Some(Json::Str(t)) if t == "n"));
    assert!(matches!(f.get_field("parameters"), Some(Json::Bool(true))));
}

#[test]
fn write_file_decisions() {
    let t = WriteFileTool::new("/ws".to_string());
    assert_eq!(t.name(), "write_file");
    assert_eq!(t.description(), "Write content to a file in the workspace");
    let args = vec![("path".to_string(), Json::Str("a.txt".to_string())), ("content".to_string(), Json::Str("hi".to_string()))];
    let w = t.check_arguments(&args).ok().unwrap();
    assert_eq!((w.path.as_str(), w.content.as_str()), ("a.txt", "hi"));
    let missing_path = t.check_arguments(&vec![("content".to_string(), Json::Str("x".to_string()))]).err().unwrap();
    assert_eq!(missing_path.for_llm, "Missing 'path' parameter");
    let missing_content = t.check_arguments(&vec![("path".to_string(), Json::Str("x".to_string()))]).err().unwrap();
    assert_eq!(missing_content.for_llm, "Missing 'content' parameter");
    let not_text = t.check_arguments(&vec![("path".to_string(), Json::Bool(true))]).err().unwrap();
    assert_eq!(not_text.for_llm, "Missing 'path' parameter");
    assert!(!missing_path.silent && !missing_path.async_exec && missing_path.is_error);
    assert_eq!(t.resolve_target("a.txt").as_deref(), Some("/ws/a.txt"));
    assert_eq!(t.resolve_target("./d/../b/./c.txt").as_deref(), Some("/ws/b/c.txt"));
    assert_eq!(t.resolve_target("d//e.txt").as_deref(), Some("/ws/d/e.txt"));
    assert_eq!(t.resolve_target("/ws/x/y.txt").as_deref(), Some("/ws/x/y.txt"));
    assert_eq!(t.resolve_target("../x"), None);
    assert_eq!(t.resolve_target("a/../../x"), None);
    assert_eq!(t.resolve_target("/etc/passwd"), None);
    assert_eq!(t.resolve_target("/ws/../etc/passwd"), None);
    assert_eq!(t.resolve_target("/wsx/a"), None);
    assert_eq!(t.resolve_target(".").as_deref(), Some("/ws"));
    assert_eq!(t.resolve_target("").as_deref(), Some("/ws"));
    let slash = WriteFileTool::new("/ws/".to_string());
    assert_eq!(slash.resolve_target("a").as_deref(), Some("/ws/a"));
    let ok = WriteFileTool::written_result("a.txt", "/ws/a.txt");
    assert_eq!(ok.for_llm, "File written successfully: a.txt");
    assert_eq!(ok.for_user.as_deref(), Some("✓ Created file: a.txt (/ws/a.txt)"));
    assert_eq!(WriteFileTool::outside_workspace_result().for_llm, "Path is outside workspace");
    assert_eq!(WriteFileTool::failure_result("Failed to write file: ", "denied").for_llm, "Failed to write file: denied");
}

fn text_field<'a>(j: &'a Json, key: &str) -> Option<&'a str> {
    j.get_field(key).and_then(|v| v.as_text()).map(|s| s.as_str())
}

#[test]
fn write_file_parameters_schema() {
    let t = WriteFileTool::new("/ws".to_string());
    let schema = t.parameters();
    assert_eq!(text_field(&schema, "type"), Some("object"));
    let props = schema.get_field("properties").unwrap();
    let path = props.get_field("path").unwrap();
    assert_eq!(text_field(path, "type"), Some("string"));
    assert_eq!(text_field(path, "description"), Some("File path relative to workspace"));
    let content = props.get_field("content").unwrap();
    assert_eq!(text_field(content, "type"), Some("string"));
    assert_eq!(text_field(content, "description"), Some("File content to write"));
    let required = schema.get_field("required").unwrap();
    assert_eq!(required.get_element(0).and_then(|v| v.as_text()).map(|s| s.as_str()), Some("path"));
    assert_eq!(required.get_element(1).and_then(|v| v.as_text()).map(|s| s.as_str()), Some("content"));
    assert!(required.get_element(2).is_none());
}

#[test]
fn shutdown_is_idempotent() {
    assert_eq!(shutdown_start(false), ShutdownStart::Begin);
    assert_eq!(shutdown_start(true), ShutdownStart::AlreadyShutDown);
}
