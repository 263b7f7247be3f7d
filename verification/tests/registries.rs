use picoclaw::channels::manager::ChannelManager;
use picoclaw::cron::{CronJob, CronJobState, CronPayload, CronSchedule, CronService};
use picoclaw::error::Error;
use picoclaw::table::NameTable;
use picoclaw::tools::registry::ToolRegistry;

#[test]
fn table_read_after_write_and_remove() {
    let mut t: NameTable<u32> = NameTable::new();
    t.insert("a".to_string(), 1);
    t.insert("b".to_string(), 2);
    t.insert("a".to_string(), 3);
    assert_eq!(t.get("a"), Some(&3));
    assert_eq!(t.get("b"), Some(&2));
    assert_eq!(t.len(), 2);
    assert_eq!(t.names_list(), vec!["a".to_string(), "b".to_string()]);
    assert_eq!(t.remove("a"), Some(3));
    assert_eq!(t.get("a"), None);
    assert_eq!(t.remove("a"), None);
    assert_eq!(t.len(), 1);
}

#[test]
fn tool_registry_lookup() {
    let mut r: ToolRegistry<&str> = ToolRegistry::new();
    r.register("write_file".to_string(), "writer");
    r.register("shell".to_string(), "sh");
    r.register("write_file".to_string(), "writer2");
    assert_eq!(r.count(), 2);
    assert_eq!(r.list(), vec!["write_file".to_string(), "shell".to_string()]);
    assert_eq!(r.get("write_file"), Some(&"writer2"));
    assert_eq!(r.resolve("shell").ok(), Some(&"sh"));
    let missing = r.resolve("nope").err().unwrap();
    assert!(missing.is_error);
    assert_eq!(missing.for_llm, "Tool 'nope' not found");
}

#[test]
fn channel_manager_lookup() {
    let mut m: ChannelManager<u8> = ChannelManager::new();
    assert!(m.register("telegram".to_string(), 7).is_ok());
    assert_eq!(m.get("telegram").ok(), Some(&7));
    assert!(matches!(m.get("discord"), Err(Error::Channel(s)) if s == "Channel not found: discord"));
    assert_eq!(m.list().unwrap(), vec!["telegram".to_string()]);
}

fn job(id: &str) -> CronJob {
    CronJob {
        id: id.to_string(),
        name: "daily".to_string(),
        enabled: true,
        schedule: CronSchedule::Cron("0 0 * * *".to_string()),
        payload: CronPayload { kind: "agent".to_string(), message: "hi".to_string(), command: None, deliver: false, channel: None, to: None },
        state: CronJobState { next_run_at_ms: None, last_run_at_ms: None, last_status: None, last_error: None },
        created_at_ms: 0,
        updated_at_ms: 0,
        delete_after_run: false,
    }
}

#[test]
fn cron_add_get_delete() {
    let mut c = CronService::new();
    let id = c.add_job_at(job("j1"), "fresh".to_string(), 42);
    assert_eq!(id, "j1");
    let stored = c.get_job("j1").unwrap();
    assert_eq!(stored.created_at_ms, 42);
    assert_eq!(stored.updated_at_ms, 42);
    let id2 = c.add_job_at(job(""), "generated".to_string(), 7);
    assert_eq!(id2, "generated");
    assert_eq!(c.list_jobs().len(), 2);
    assert!(c.delete_job("j1").is_ok());
    assert!(matches!(c.get_job("j1"), Err(Error::Internal(m)) if m == "Job not found: j1"));
    assert!(c.delete_job("j1").is_ok());
    let id3 = c.add_job(job("")).unwrap();
    assert_eq!(id3.len(), 36);
    assert!(c.get_job(&id3).unwrap().created_at_ms > 0);
    c.restore_job(job("old"));
    assert_eq!(c.get_job("old").unwrap().created_at_ms, 0);
}
