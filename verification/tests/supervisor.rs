//! Supervisor life-cycle scenarios: ownership, stopping, restart
//! exclusion, and recovery after a failed spawn.

use kiroku_supervisor::status::{HealthResponse, ServiceStatus};
use kiroku_supervisor::supervisor::{
    ServiceNotification, ServiceSupervisor, SupervisorError,
};

#[test]
fn new_supervisor_is_stopped_and_owns_nothing() {
    let sup = ServiceSupervisor::new();
    assert_eq!(sup.get_status(), ServiceStatus::Stopped);
    assert_eq!(sup.owned_pid(), None);
    assert!(sup.should_auto_restart());
}

#[test]
fn start_attach_then_stop_hands_back_the_pid() {
    let mut sup = ServiceSupervisor::new();
    sup.begin_start();
    assert_eq!(sup.get_status(), ServiceStatus::Starting);
    sup.attach_process(4242);
    assert_eq!(sup.owned_pid(), Some(4242));
    let to_kill = sup.stop();
    assert_eq!(to_kill, Some(4242));
    assert_eq!(sup.owned_pid(), None);
    assert_eq!(sup.get_status(), ServiceStatus::Stopped);
    assert!(!sup.should_auto_restart());
}

#[test]
fn stop_is_idempotent() {
    let mut sup = ServiceSupervisor::new();
    sup.begin_start();
    sup.attach_process(7);
    assert_eq!(sup.stop(), Some(7));
    assert_eq!(sup.get_status(), ServiceStatus::Stopped);
    // A second stop in a row succeeds, owns nothing to hand back, and
    // leaves the state exactly where the first left it.
    assert_eq!(sup.stop(), None);
    assert_eq!(sup.get_status(), ServiceStatus::Stopped);
    // Stopping with no process ever owned is just as fine.
    let mut idle = ServiceSupervisor::new();
    assert_eq!(idle.stop(), None);
    assert_eq!(idle.get_status(), ServiceStatus::Stopped);
}

#[test]
fn concurrent_restart_attempts_exclude_each_other() {
    let mut sup = ServiceSupervisor::new();
    // The first acquisition wins...
    assert!(sup.try_start_restart());
    // ...the second, arriving while the first holds the right, loses.
    assert!(!sup.try_start_restart());
    sup.finish_restart();
    assert!(sup.try_start_restart());
    sup.finish_restart();
}

#[test]
fn second_begin_restart_is_rejected_not_queued() {
    let mut sup = ServiceSupervisor::new();
    assert!(sup.begin_restart().is_ok());
    assert_eq!(sup.get_status(), ServiceStatus::Restarting);
    match sup.begin_restart() {
        Err(SupervisorError::RestartAlreadyInProgress) => {}
        other => panic!("expected a rejected restart, got {:?}", other),
    }
    // The rejected attempt changed nothing.
    assert_eq!(sup.get_status(), ServiceStatus::Restarting);
    sup.finish_restart();
    assert!(sup.begin_restart().is_ok());
}

#[test]
fn restart_sequence_swaps_the_owned_process() {
    let mut sup = ServiceSupervisor::new();
    sup.begin_start();
    sup.attach_process(100);
    sup.mark_running();
    // The restart sequence: acquire, stop (kill + wait happens outside),
    // then start and attach the fresh process.
    assert!(sup.begin_restart().is_ok());
    assert_eq!(sup.stop(), Some(100));
    sup.begin_start();
    sup.attach_process(101);
    sup.finish_restart();
    assert_eq!(sup.owned_pid(), Some(101));
    assert!(sup.should_auto_restart());
}

#[test]
fn spawn_failure_then_corrected_start_recovers() {
    let mut sup = ServiceSupervisor::new();
    // First attempt: the executable path is bad, the spawn fails.
    sup.begin_start();
    sup.mark_error("Python binary not found at: /bad/path".to_string());
    match sup.get_status() {
        ServiceStatus::Error(reason) => {
            assert!(reason.contains("/bad/path"));
        }
        other => panic!("expected an error status, got {:?}", other),
    }
    // Second attempt with a corrected path succeeds, and a successful
    // probe brings the service to Running.
    sup.begin_start();
    sup.attach_process(555);
    let health = HealthResponse {
        status: "ok".to_string(),
        version: "1.0.0".to_string(),
    };
    let notification = sup.conclude_health_wait(Ok(health));
    assert!(matches!(notification, ServiceNotification::Ready));
    assert_eq!(sup.get_status(), ServiceStatus::Running);
}

#[test]
fn failed_health_wait_records_the_error_message() {
    let mut sup = ServiceSupervisor::new();
    sup.begin_start();
    sup.attach_process(9);
    let notification = sup.conclude_health_wait(Err(SupervisorError::HealthTimeout(30000)));
    match notification {
        ServiceNotification::Failed(reason) => {
            assert_eq!(reason, "Health check timed out after 30000 ms");
        }
        other => panic!("expected a failure notification, got {:?}", other),
    }
    assert_eq!(
        sup.get_status(),
        ServiceStatus::Error("Health check timed out after 30000 ms".to_string())
    );
    // The handle is untouched: the process may still be alive, merely stuck.
    assert_eq!(sup.owned_pid(), Some(9));
}

#[test]
fn error_messages_name_each_failure() {
    assert_eq!(
        SupervisorError::SpawnError("no such file".to_string()).message(),
        "no such file"
    );
    assert_eq!(
        SupervisorError::HealthTimeout(2000).message(),
        "Health check timed out after 2000 ms"
    );
    assert_eq!(SupervisorError::ProcessExited.message(), "Service stopped");
    assert_eq!(
        SupervisorError::Unresponsive.message(),
        "Service unresponsive"
    );
    assert_eq!(
        SupervisorError::RestartAlreadyInProgress.message(),
        "Restart already in progress"
    );
}
