//! Monitor-loop scenarios: failure counting, crash detection, and the
//! deliberate-stop gate.

use kiroku_supervisor::monitor::{MonitorLoop, MonitorVerdict};
use kiroku_supervisor::status::ServiceStatus;
use kiroku_supervisor::supervisor::ServiceSupervisor;

fn running_supervisor(pid: u32) -> ServiceSupervisor {
    let mut sup = ServiceSupervisor::new();
    sup.begin_start();
    sup.attach_process(pid);
    sup.mark_running();
    sup
}

#[test]
fn failure_counter_resets_on_intervening_success() {
    let mut sup = running_supervisor(1000);
    let mut monitor = MonitorLoop::new(3);
    // Scripted probe outcomes: fail, fail, success, fail, fail, fail.
    // With threshold 3, the error must come only after the run of three
    // consecutive failures that begins at the fourth probe.
    let outcomes = [false, false, true, false, false, false];
    let mut declared_at = None;
    for (index, &probe_ok) in outcomes.iter().enumerate() {
        let verdict = monitor.tick(&mut sup, true, probe_ok);
        if verdict == (MonitorVerdict::ProbeFailed { declared_unresponsive: true }) {
            declared_at = Some(index);
        }
    }
    assert_eq!(declared_at, Some(5));
    assert_eq!(
        sup.get_status(),
        ServiceStatus::Error("Service unresponsive".to_string())
    );
    assert_eq!(monitor.failures(), 3);
}

#[test]
fn two_failures_alone_do_not_reach_the_threshold() {
    let mut sup = running_supervisor(1001);
    let mut monitor = MonitorLoop::new(3);
    monitor.tick(&mut sup, true, false);
    monitor.tick(&mut sup, true, false);
    assert_eq!(monitor.failures(), 2);
    assert_eq!(sup.get_status(), ServiceStatus::Running);
    // The intervening success resets the count to zero.
    monitor.tick(&mut sup, true, true);
    assert_eq!(monitor.failures(), 0);
    assert_eq!(sup.get_status(), ServiceStatus::Running);
}

#[test]
fn no_flapping_once_unresponsive() {
    let mut sup = running_supervisor(1002);
    let mut monitor = MonitorLoop::new(2);
    monitor.tick(&mut sup, true, false);
    let verdict = monitor.tick(&mut sup, true, false);
    assert_eq!(
        verdict,
        MonitorVerdict::ProbeFailed { declared_unresponsive: true }
    );
    // Further failures keep the error state but declare nothing anew: the
    // counter is not reset until a success, so no flapping between states.
    let verdict = monitor.tick(&mut sup, true, false);
    assert_eq!(
        verdict,
        MonitorVerdict::ProbeFailed { declared_unresponsive: false }
    );
    assert_eq!(
        sup.get_status(),
        ServiceStatus::Error("Service unresponsive".to_string())
    );
}

#[test]
fn external_kill_is_observed_as_an_error() {
    let mut sup = running_supervisor(1003);
    let mut monitor = MonitorLoop::new(3);
    // The process was killed outside the supervisor: the next tick sees
    // non-liveness and transitions to Error.
    let verdict = monitor.tick(&mut sup, false, false);
    assert_eq!(verdict, MonitorVerdict::ProcessDown { transitioned: true });
    assert_eq!(
        sup.get_status(),
        ServiceStatus::Error("Service stopped".to_string())
    );
    // The tick after that finds the status already in Error and does not
    // transition (or notify) again.
    let verdict = monitor.tick(&mut sup, false, false);
    assert_eq!(verdict, MonitorVerdict::ProcessDown { transitioned: false });
}

#[test]
fn deliberately_stopped_service_is_not_monitored() {
    let mut sup = running_supervisor(1004);
    sup.stop();
    let mut monitor = MonitorLoop::new(3);
    let verdict = monitor.tick(&mut sup, false, false);
    assert_eq!(verdict, MonitorVerdict::Skipped);
    assert_eq!(sup.get_status(), ServiceStatus::Stopped);
    assert_eq!(monitor.failures(), 0);
}

#[test]
fn healthy_probe_reports_probe_ok() {
    let mut sup = running_supervisor(1005);
    let mut monitor = MonitorLoop::new(3);
    let verdict = monitor.tick(&mut sup, true, true);
    assert_eq!(verdict, MonitorVerdict::ProbeOk);
    assert_eq!(sup.get_status(), ServiceStatus::Running);
}
