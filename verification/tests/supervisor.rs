use wsl_headless_dev::redirect::Redirector;
use wsl_headless_dev::redirect::RedirectorStatus;
use wsl_headless_dev::redirect::StreamKind;
use wsl_headless_dev::supervisor::LaunchAction;
use wsl_headless_dev::supervisor::Supervisor;
use wsl_headless_dev::supervisor::SupervisorPhase;

#[test]
fn three_failing_runs_relaunch_once_each_without_overlap() {
    // The launch command exits immediately (status 1 stands in for any
    // status); three exits must give three launches, one live child at most.
    let mut sup = Supervisor::new();
    for expected_generation in 0..3u64 {
        assert!(sup.phase == SupervisorPhase::ReadyToLaunch);
        let action = sup.on_launch_result(true);
        assert!(
            action == LaunchAction::AttachAndAwait { generation: expected_generation }
        );
        assert!(sup.phase == SupervisorPhase::Supervising { generation: expected_generation });
        assert_eq!(sup.launches, expected_generation + 1);
        let exit = sup.on_exit();
        assert_eq!(exit.cancel_redirectors_of, expected_generation);
        assert!(sup.phase == SupervisorPhase::ReadyToLaunch);
        assert_eq!(sup.exits, expected_generation + 1);
    }
    assert_eq!(sup.launches, 3);
    assert_eq!(sup.exits, 3);
}

#[test]
fn failed_launch_halts_supervision() {
    let mut sup = Supervisor::new();
    let action = sup.on_launch_result(false);
    assert!(action == LaunchAction::HaltSupervision);
    assert!(sup.phase == SupervisorPhase::LaunchFailed);
    assert_eq!(sup.launches, 0);
    assert_eq!(sup.exits, 0);
}

#[test]
fn cancel_stops_relaunching_and_keeps_counts() {
    let mut sup = Supervisor::new();
    sup.on_launch_result(true);
    sup.on_cancel();
    assert!(sup.phase == SupervisorPhase::Cancelled);
    assert_eq!(sup.launches, 1);
    assert_eq!(sup.exits, 0);
}

#[test]
fn redirector_emits_lines_in_order_with_source_tag() {
    let mut red = Redirector::attach(StreamKind::Stderr, true);
    assert!(red.status == RedirectorStatus::Active);
    let first = red.on_line(&"warming up".to_string());
    let second = red.on_line(&"ready".to_string());
    assert!(first.kind == StreamKind::Stderr);
    assert_eq!(first.line, "warming up");
    assert!(second.kind == StreamKind::Stderr);
    assert_eq!(second.line, "ready");
    assert_eq!(red.lines, 2);
    red.on_end();
    assert!(red.status == RedirectorStatus::Completed);
    assert!(!red.read_error);
}

#[test]
fn redirector_for_a_missing_stream_is_a_completed_noop() {
    let red = Redirector::attach(StreamKind::Stdout, false);
    assert!(red.status == RedirectorStatus::Completed);
    assert_eq!(red.lines, 0);
    assert!(!red.read_error);
}

#[test]
fn redirector_read_error_completes_without_becoming_fatal() {
    let mut red = Redirector::attach(StreamKind::Stdout, true);
    red.on_line(&"partial".to_string());
    red.on_read_error();
    assert!(red.status == RedirectorStatus::Completed);
    assert!(red.read_error);
    assert_eq!(red.lines, 1);
}

#[test]
fn redirector_cancel_completes_without_draining() {
    let mut red = Redirector::attach(StreamKind::Stdout, true);
    red.on_cancel();
    assert!(red.status == RedirectorStatus::Completed);
    assert!(!red.read_error);
}
