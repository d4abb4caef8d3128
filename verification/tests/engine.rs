use wsl_headless_dev::listener::AcceptAction;
use wsl_headless_dev::listener::ListenerStatus;
use wsl_headless_dev::relay::Direction;
use wsl_headless_dev::relay::Relay;
use wsl_headless_dev::runner::launch_invocation;
use wsl_headless_dev::runner::EngineStep;
use wsl_headless_dev::runner::WslRunner;
use wsl_headless_dev::supervisor::SupervisorPhase;
use wsl_headless_dev::run;
use wsl_headless_dev::shutdown::Coordinator;
use wsl_headless_dev::shutdown::DrainStep;
use wsl_headless_dev::Args;
use wsl_headless_dev::RunnerError;

fn strings(xs: &[&str]) -> Vec<String> {
    xs.iter().map(|s| s.to_string()).collect()
}

#[test]
fn runner_uses_fixed_addresses_and_given_commands() {
    let runner = WslRunner::new("start", "stop");
    assert_eq!(runner.listen_addresses, "0.0.0.0:22 :::22");
    assert_eq!(runner.target_address, "localhost:2022");
    assert_eq!(runner.launch_command, "start");
    assert_eq!(runner.shutdown_command, "stop");
}

#[test]
fn run_plans_one_listener_per_configured_address() {
    let engine = run(Args::parse(&strings(&[])));
    assert_eq!(engine.listeners.listeners.len(), 2);
    assert_eq!(engine.listeners.listeners[0].address, "0.0.0.0:22");
    assert_eq!(engine.listeners.listeners[1].address, ":::22");
    assert!(engine.supervisor.phase == SupervisorPhase::ReadyToLaunch);
    assert_eq!(engine.supervisor.launches, 0);
}

#[test]
fn launch_invocation_uses_the_fixed_shell_convention() {
    let inv = launch_invocation("echo hi");
    assert_eq!(inv.program, "wsl");
    assert_eq!(inv.args, vec!["bash".to_string(), "-c".to_string(), "echo hi".to_string()]);
}

#[test]
fn second_signal_in_quick_succession_drains_only_once() {
    let mut engine = run(Args::parse(&strings(&[])));
    engine.supervisor.on_launch_result(true);
    let first = engine.on_signal();
    assert!(first == Some(EngineStep::RunShutdownCommand));
    assert!(engine.supervisor.phase == SupervisorPhase::Cancelled);
    // The second signal arrives while the drain runs: nothing happens again.
    let second = engine.on_signal();
    assert!(second.is_none());
    let step = engine.on_shutdown_command_done(true);
    assert!(step == EngineStep::AwaitBackendExit);
    // A third signal during a later drain step is ignored too.
    assert!(engine.on_signal().is_none());
    let step = engine.on_backend_exit_done(true);
    assert!(step == EngineStep::Finished);
    assert!(engine.outcome().is_ok());
    assert!(engine.listeners.listeners[0].status == ListenerStatus::Stopped);
    assert!(engine.listeners.listeners[1].status == ListenerStatus::Stopped);
}

#[test]
fn failed_shutdown_command_still_finishes_the_drain_but_fails_the_run() {
    let mut engine = run(Args::parse(&strings(&[])));
    let first = engine.on_signal();
    assert!(first == Some(EngineStep::RunShutdownCommand));
    let step = engine.on_shutdown_command_done(false);
    assert!(step == EngineStep::AwaitBackendExit);
    let step = engine.on_backend_exit_done(true);
    assert!(step == EngineStep::Finished);
    let outcome = engine.outcome();
    match outcome {
        Err(RunnerError::Io(text)) => {
            assert_eq!(text, "a step of the shutdown sequence failed");
        }
        _ => panic!("expected an I/O error"),
    }
}

#[test]
fn coordinator_hands_out_drain_steps_in_order() {
    let mut coordinator = Coordinator::new();
    assert!(coordinator.on_signal() == Some(DrainStep::CancelSupervisor));
    assert!(coordinator.on_signal().is_none());
    assert!(coordinator.on_step_done(true) == Some(DrainStep::RunShutdownCommand));
    assert!(coordinator.on_step_done(true) == Some(DrainStep::AwaitBackendExit));
    assert!(coordinator.on_signal().is_none());
    assert!(coordinator.on_step_done(true) == Some(DrainStep::CancelListeners));
    assert!(coordinator.on_step_done(true).is_none());
    assert!(coordinator.succeeded());
}

#[test]
fn coordinator_records_a_failed_step_and_still_finishes() {
    let mut coordinator = Coordinator::new();
    coordinator.on_signal();
    coordinator.on_step_done(true);
    coordinator.on_step_done(false);
    coordinator.on_step_done(true);
    coordinator.on_step_done(true);
    assert!(!coordinator.succeeded());
}

#[test]
fn error_text_is_the_carried_description() {
    let err = RunnerError::Internal("no console".to_string());
    assert_eq!(err.text(), "no console");
    let err = RunnerError::Io("connection reset".to_string());
    assert_eq!(err.text(), "connection reset");
    let err = RunnerError::Windows("mode change refused".to_string());
    assert_eq!(err.text(), "mode change refused");
}

#[test]
fn end_to_end_ping_reaches_the_backend_side() {
    // One listener on 127.0.0.1:9022, backend 127.0.0.1:9122 with nothing
    // bound there yet: the first dial fails and the connection is dropped,
    // the listener keeps accepting; once a backend listens, the next dial
    // succeeds and "ping" sent inbound comes out on the backend side.
    let mut engine = run(Args::parse(&strings(&[])));
    let mut set = wsl_headless_dev::listener::ListenerSet::plan(&strings(&["127.0.0.1:9022"]));
    set.on_bind_result(0, true);
    let action = set.on_accept(0, false);
    assert!(action == AcceptAction::DropInbound);
    assert!(set.listeners[0].status == ListenerStatus::Serving);
    let action = set.on_accept(0, true);
    assert!(action == AcceptAction::StartRelay);
    let mut relay = Relay::new();
    let to_backend = relay.forward(Direction::InboundToOutbound, &b"ping".to_vec());
    assert_eq!(to_backend, b"ping".to_vec());
    relay.source_closed(Direction::InboundToOutbound);
    relay.source_closed(Direction::OutboundToInbound);
    let report = relay.report();
    assert!(report.success);
    assert_eq!(report.bytes_to_outbound, 4);
    // The run itself is still serving and shuts down cleanly afterwards.
    engine.on_signal();
    engine.on_shutdown_command_done(true);
    engine.on_backend_exit_done(true);
    assert!(engine.outcome().is_ok());
}
