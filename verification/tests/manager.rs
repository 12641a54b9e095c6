use std::sync::Arc;

use herald::federation::manager::{
    api_log, listen_address, server_log, started_log, tasks_log, Action, FederationManager,
    Launched, ServerEvent, Stage,
};

type Manager = FederationManager<u8, &'static str, u32, char>;

fn launched(service: &'static str, first: u32, token: char) -> Launched<&'static str, u32, char> {
    Launched {
        service: Arc::new(service),
        task_handles: vec![first, first + 1],
        cancel_token: token,
        api_handle: first + 2,
    }
}

/// Performs stages and writes down what is handed out.
fn perform(manager: &mut Manager, stages: Vec<Stage>, service: &'static str) -> Vec<String> {
    let mut seen = Vec::new();
    for stage in stages {
        match manager.perform(stage) {
            Action::Proceed => {}
            Action::Cancel { token, log } => {
                assert_eq!(log, "[federation] Cancellation signal sent");
                seen.push(format!("cancel {token}"));
            }
            Action::AwaitTasks { handles, secs } => seen.push(format!("tasks {handles:?} {secs}")),
            Action::AwaitApi { handle, secs } => seen.push(format!("api {handle} {secs}")),
            Action::Launch => {
                assert!(!manager.is_running());
                manager.launched(launched(service, 10, 'n')).unwrap();
                seen.push("launch".to_string());
            }
        }
    }
    seen
}

#[test]
fn new_manager_is_not_running() {
    let manager = Manager::new(9);
    assert!(!manager.is_running());
    assert!(manager.service().is_none());
    assert_eq!(manager.shared, 9);
}

#[test]
fn launched_service_runs() {
    let mut manager = Manager::new(9);
    assert_eq!(manager.launched(launched("one", 1, 'a')), Ok(()));
    assert!(manager.is_running());
    assert_eq!(*manager.service().unwrap(), "one");
}

#[test]
fn stop_hands_out_everything_once() {
    let mut manager = Manager::new(9);
    manager.launched(launched("one", 1, 'a')).unwrap();
    let stages = manager.stop();
    assert_eq!(
        perform(&mut manager, stages, ""),
        vec!["cancel a", "tasks [1, 2] 5", "api 3 3"]
    );
    assert!(!manager.is_running());
    let stages = manager.stop();
    assert!(perform(&mut manager, stages, "").is_empty());
}

#[test]
fn service_stays_until_the_waits_are_over() {
    let mut manager = Manager::new(9);
    manager.launched(launched("one", 1, 'a')).unwrap();
    for stage in manager.stop() {
        assert!(manager.is_running());
        manager.perform(stage);
    }
    assert!(!manager.is_running());
}

#[test]
fn start_stops_what_runs() {
    let mut manager = Manager::new(9);
    manager.launched(launched("one", 1, 'a')).unwrap();
    let stages = manager.start();
    assert_eq!(
        perform(&mut manager, stages, "two"),
        vec!["cancel a", "tasks [1, 2] 5", "api 3 3", "launch"]
    );
    assert_eq!(*manager.service().unwrap(), "two");
}

#[test]
fn restart_is_stop_and_start() {
    let mut manager = Manager::new(9);
    let mut stages = manager.stop();
    stages.extend(manager.start());
    assert_eq!(manager.restart(), stages);
    manager.launched(launched("one", 1, 'a')).unwrap();
    assert_eq!(
        perform(&mut manager, stages, "two"),
        vec!["cancel a", "tasks [1, 2] 5", "api 3 3", "launch"]
    );
    assert_eq!(*manager.service().unwrap(), "two");
}

#[test]
fn lifecycle_is_logged() {
    assert_eq!(tasks_log(3, false), "[federation] 3 background tasks stopped");
    assert_eq!(tasks_log(3, true), "[federation] Timeout waiting for 3 background tasks");
    assert_eq!(api_log(false), "[federation] API server stopped");
    assert_eq!(api_log(true), "[federation] Timeout waiting for API server");
    assert_eq!(
        started_log("box", 8081),
        "[federation] Started (instance: 'box', port: 8081)"
    );
}

#[test]
fn server_is_logged() {
    assert_eq!(listen_address(8081), "0.0.0.0:8081");
    assert_eq!(
        server_log(8081, ServerEvent::Listening),
        "[federation] API listening on http://0.0.0.0:8081"
    );
    assert_eq!(
        server_log(8081, ServerEvent::BindFailed { reason: "in use".to_string() }),
        "[federation] Failed to bind 0.0.0.0:8081: in use"
    );
    assert_eq!(
        server_log(8081, ServerEvent::Failed { reason: "gone".to_string() }),
        "[federation] API server error: gone"
    );
    assert_eq!(server_log(8081, ServerEvent::Stopped), "[federation] API server stopped");
}
