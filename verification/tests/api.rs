use rtspy::api::{
    connect, connect_rtsp_url, disconnect, disconnect_status, root, status, stop_failure_message,
    worker_target, workers, ConnectRequest, DisconnectRequest, StopOutcome,
};
use rtspy::registry::WorkerRegistry;

fn spawn_child() -> tokio::process::Child {
    tokio::process::Command::new("sleep").arg("5").kill_on_drop(true).spawn().unwrap()
}

#[test]
fn root_and_status_texts() {
    assert_eq!(root(), "Controller is online");
    assert_eq!(status(), "Status OK");
}

#[test]
fn connect_launches_worker_with_url() {
    let plan = connect(&ConnectRequest { url: "rtsp://127.0.0.1:8554/live".to_string() });
    assert_eq!(plan.program, "./target/debug/rtspy-worker");
    assert_eq!(plan.args, vec!["rtsp://127.0.0.1:8554/live".to_string()]);
    assert_eq!(plan.status, 200);
}

#[test]
fn disconnect_statuses() {
    assert_eq!(disconnect_status(StopOutcome::Stopped), 200);
    assert_eq!(disconnect_status(StopOutcome::NotFound), 404);
    assert_eq!(disconnect_status(StopOutcome::StopFailed), 500);
}

#[test]
fn stop_failure_text() {
    assert_eq!(
        stop_failure_message("rtsp://a", "Os { code: 3 }"),
        "Failed to stop worker for rtsp://a: Os { code: 3 }"
    );
}

#[test]
fn empty_registry() {
    let mut reg = WorkerRegistry::new();
    assert_eq!(reg.len(), 0);
    assert!(workers(&reg).is_empty());
    assert!(disconnect(&mut reg, &DisconnectRequest { url: "rtsp://none".to_string() }).is_none());
    assert_eq!(reg.len(), 0);
}

#[test]
fn registry_records_lists_and_removes_workers() {
    let rt = tokio::runtime::Runtime::new().unwrap();
    rt.block_on(async {
        let mut reg = WorkerRegistry::new();
        let child_a = spawn_child();
        let child_b = spawn_child();
        let pid_a = child_a.id();
        let pid_b = child_b.id();
        assert!(pid_a.is_some() && pid_b.is_some() && pid_a != pid_b);
        assert!(reg.insert("rtsp://a".to_string(), child_a).is_none());
        assert!(reg.insert("rtsp://b".to_string(), child_b).is_none());
        assert!(reg.contains("rtsp://a"));
        assert!(!reg.contains("rtsp://c"));
        assert_eq!(reg.len(), 2);

        let mut urls: Vec<String> = workers(&reg).into_iter().map(|w| w.url).collect();
        urls.sort();
        assert_eq!(urls, vec!["rtsp://a".to_string(), "rtsp://b".to_string()]);
        for w in workers(&reg) {
            let expected = if w.url == "rtsp://a" { pid_a } else { pid_b };
            assert_eq!(w.pid, expected);
        }

        let replaced = reg.insert("rtsp://a".to_string(), spawn_child());
        assert!(replaced.is_some());
        assert_eq!(reg.len(), 2);

        let taken = disconnect(&mut reg, &DisconnectRequest { url: "rtsp://a".to_string() });
        assert!(taken.is_some());
        assert!(!reg.contains("rtsp://a"));
        assert_eq!(reg.len(), 1);
        assert!(disconnect(&mut reg, &DisconnectRequest { url: "rtsp://a".to_string() }).is_none());
        assert!(reg.remove("rtsp://b").is_some());
        assert_eq!(reg.len(), 0);
    });
}

#[test]
fn connect_rtsp_body_is_trimmed() {
    assert_eq!(connect_rtsp_url("  rtsp://127.0.0.1:8554/live\n"), "rtsp://127.0.0.1:8554/live");
}

#[test]
fn worker_command_line() {
    let ok = worker_target(&vec!["rtspy-worker".to_string(), "rtsp://x".to_string()]);
    assert_eq!(ok, Ok("rtsp://x".to_string()));
    let usage = worker_target(&vec!["rtspy-worker".to_string()]);
    assert_eq!(usage, Err("Usage: rtspy-worker <rtsp_url>".to_string()));
}
