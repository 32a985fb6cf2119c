use summary_server::exception::AppError;
use summary_server::exception::ServerError;
use summary_server::models::ServerState;
use summary_server::models::TaskMap;
use summary_server::models::TaskStatus;

#[test]
fn empty_registry_has_nothing() {
    let m = TaskMap::new();
    assert!(!m.contains("t"));
    assert!(m.get("t").is_none());
}

#[test]
fn update_then_get() {
    let mut m = TaskMap::new();
    let prev = m.update("t1", TaskStatus::Download);
    assert!(prev.is_none());
    assert!(m.contains("t1"));
    assert!(matches!(m.get("t1"), Some(TaskStatus::Download)));
}

#[test]
fn last_writer_wins() {
    let mut m = TaskMap::new();
    m.update("t1", TaskStatus::Download);
    let prev = m.update("t1", TaskStatus::Pending);
    assert!(matches!(prev, Some(TaskStatus::Download)));
    assert!(matches!(m.get("t1"), Some(TaskStatus::Pending)));
}

#[test]
fn take_consumes_the_entry() {
    let mut m = TaskMap::new();
    m.update("t1", TaskStatus::Done);
    let prev = m.take("t1");
    assert!(matches!(prev, Some(TaskStatus::Done)));
    assert!(!m.contains("t1"));
    assert!(m.take("t1").is_none());
}

#[test]
fn entries_are_independent() {
    let mut m = TaskMap::new();
    m.update("t1", TaskStatus::Download);
    m.update("t2", TaskStatus::Pending);
    m.update(
        "t3",
        TaskStatus::Failed(AppError::Server(ServerError::CompressFile)),
    );
    m.take("t2");
    assert!(matches!(m.get("t1"), Some(TaskStatus::Download)));
    assert!(!m.contains("t2"));
    assert!(matches!(m.get("t3"), Some(TaskStatus::Failed(_))));
}

#[test]
fn server_state_delegates_to_registry() {
    let mut state = ServerState::new("/work".into());
    assert_eq!(state.work_dir, "/work");
    assert!(!state.has_task("t"));
    assert!(state.update_task("t", TaskStatus::Download).is_none());
    assert!(state.has_task("t"));
    assert!(matches!(state.get_task("t"), Some(TaskStatus::Download)));
    assert!(matches!(
        state.remove_task("t"),
        Some(TaskStatus::Download)
    ));
    assert!(!state.has_task("t"));
}
