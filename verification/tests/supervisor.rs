use hasbase_lib::registry::ProcessHandle;
use hasbase_lib::supervisor::{
    shutdown_command, Acknowledged, ShutdownError, SidecarSupervisor, SpawnError, SpawnOutcome,
    SpawnPlan,
};

/// A stand-in for a child process: it records what is written to its input
/// stream, or refuses every write.
#[derive(Debug, PartialEq, Eq)]
struct FakeChild {
    written: Vec<u8>,
    broken: bool,
}

fn child(id: u32) -> ProcessHandle<FakeChild> {
    ProcessHandle { id, control: FakeChild { written: Vec::new(), broken: false } }
}

fn broken_child(id: u32) -> ProcessHandle<FakeChild> {
    ProcessHandle { id, control: FakeChild { written: Vec::new(), broken: true } }
}

fn write(child: &mut FakeChild, bytes: &[u8]) -> Result<(), String> {
    if child.broken {
        Err("broken pipe".to_string())
    } else {
        child.written.extend_from_slice(bytes);
        Ok(())
    }
}

/// A supervisor with an empty registry.
fn ready() -> SidecarSupervisor<FakeChild> {
    let mut supervisor = SidecarSupervisor::new();
    assert!(supervisor.install_registry());
    supervisor
}

/// A supervisor whose registry holds `handle`.
fn running(handle: ProcessHandle<FakeChild>) -> SidecarSupervisor<FakeChild> {
    let mut supervisor = ready();
    assert_eq!(supervisor.complete_spawn(Ok(handle)), Ok(SpawnOutcome::Started));
    supervisor
}

fn stored(supervisor: &SidecarSupervisor<FakeChild>) -> Option<&ProcessHandle<FakeChild>> {
    supervisor.registry().and_then(|registry| registry.try_get())
}

/// A whole spawn request as a host serves it; `launch` stands for the launch
/// of the worker binary and `launches` counts how often it is asked for.
fn spawn(
    supervisor: &mut SidecarSupervisor<FakeChild>,
    launches: &mut u32,
    launch: Result<ProcessHandle<FakeChild>, String>,
) -> Result<SpawnOutcome, SpawnError> {
    match supervisor.plan_spawn("main") {
        SpawnPlan::AlreadyRunning => Ok(SpawnOutcome::AlreadyRunning),
        SpawnPlan::Launch { worker } => {
            assert_eq!(worker, "main");
            *launches += 1;
            supervisor.complete_spawn(launch)
        }
    }
}

/// A whole shutdown request as a host serves it. Returns the answer and the
/// bytes that reached the worker, if the write went through.
fn shutdown(
    supervisor: &mut SidecarSupervisor<FakeChild>,
) -> (Result<Acknowledged, ShutdownError>, Option<Vec<u8>>) {
    match supervisor.begin_shutdown() {
        Err(error) => (Err(error), None),
        Ok(mut handshake) => {
            let written = write(&mut handshake.handle.control, handshake.command.as_bytes());
            let sent = if written.is_ok() {
                Some(handshake.handle.control.written.clone())
            } else {
                None
            };
            (supervisor.finish_shutdown(handshake.handle, written), sent)
        }
    }
}

#[test]
fn shutdown_command_is_one_ascii_line() {
    assert_eq!(shutdown_command(), "sidecar shutdown\n");
    assert_eq!(shutdown_command().as_bytes(), b"sidecar shutdown\n");
    assert!(shutdown_command().is_ascii());
    assert_eq!(shutdown_command().matches('\n').count(), 1);
    assert!(shutdown_command().ends_with('\n'));
}

#[test]
fn new_supervisor_has_no_registry() {
    let supervisor: SidecarSupervisor<FakeChild> = SidecarSupervisor::new();
    assert!(supervisor.registry().is_none());
}

#[test]
fn installed_registry_is_empty() {
    let mut supervisor: SidecarSupervisor<FakeChild> = SidecarSupervisor::new();
    assert!(supervisor.install_registry());
    assert!(supervisor.registry().is_some());
    assert!(!supervisor.registry().unwrap().is_occupied());
}

#[test]
fn second_install_keeps_the_registry() {
    let mut supervisor = running(child(3));
    assert!(!supervisor.install_registry());
    assert_eq!(stored(&supervisor), Some(&child(3)));
}

#[test]
fn plan_on_empty_registry_is_to_launch_the_named_worker() {
    let supervisor = ready();
    assert_eq!(supervisor.plan_spawn("main"), SpawnPlan::Launch { worker: "main" });
    assert_eq!(supervisor.plan_spawn("other"), SpawnPlan::Launch { worker: "other" });
}

#[test]
fn plan_on_occupied_registry_is_already_running() {
    let supervisor = running(child(1));
    assert_eq!(supervisor.plan_spawn("main"), SpawnPlan::AlreadyRunning);
}

#[test]
fn plan_without_registry_is_to_launch() {
    let supervisor: SidecarSupervisor<FakeChild> = SidecarSupervisor::new();
    assert_eq!(supervisor.plan_spawn("main"), SpawnPlan::Launch { worker: "main" });
}

#[test]
fn first_spawn_starts_the_worker() {
    let mut supervisor = ready();
    let mut launches = 0;
    assert_eq!(spawn(&mut supervisor, &mut launches, Ok(child(11))), Ok(SpawnOutcome::Started));
    assert_eq!(launches, 1);
    assert_eq!(stored(&supervisor), Some(&child(11)));
}

#[test]
fn repeated_spawn_returns_already_running_and_keeps_the_handle() {
    let mut supervisor = ready();
    let mut launches = 0;
    assert_eq!(spawn(&mut supervisor, &mut launches, Ok(child(11))), Ok(SpawnOutcome::Started));
    for next in 12..20 {
        assert_eq!(
            spawn(&mut supervisor, &mut launches, Ok(child(next))),
            Ok(SpawnOutcome::AlreadyRunning)
        );
        assert_eq!(stored(&supervisor), Some(&child(11)));
    }
    assert_eq!(launches, 1);
}

#[test]
fn repeated_spawn_ignores_a_launch_that_would_fail() {
    let mut supervisor = ready();
    let mut launches = 0;
    assert_eq!(spawn(&mut supervisor, &mut launches, Ok(child(3))), Ok(SpawnOutcome::Started));
    assert_eq!(
        spawn(&mut supervisor, &mut launches, Err("no such file".to_string())),
        Ok(SpawnOutcome::AlreadyRunning)
    );
    assert_eq!(stored(&supervisor), Some(&child(3)));
}

#[test]
fn missing_worker_binary_fails_the_launch_and_leaves_registry_empty() {
    let mut supervisor = ready();
    let mut launches = 0;
    assert_eq!(
        spawn(&mut supervisor, &mut launches, Err("No such file or directory".to_string())),
        Err(SpawnError::LaunchFailed("No such file or directory".to_string()))
    );
    assert!(!supervisor.registry().unwrap().is_occupied());
    assert_eq!(stored(&supervisor), None);
}

#[test]
fn spawn_after_failed_launch_can_start() {
    let mut supervisor = ready();
    let mut launches = 0;
    assert_eq!(
        spawn(&mut supervisor, &mut launches, Err("refused".to_string())),
        Err(SpawnError::LaunchFailed("refused".to_string()))
    );
    assert_eq!(spawn(&mut supervisor, &mut launches, Ok(child(8))), Ok(SpawnOutcome::Started));
    assert_eq!(launches, 2);
    assert_eq!(stored(&supervisor), Some(&child(8)));
}

#[test]
fn spawn_without_registry_is_state_unavailable() {
    let mut supervisor = SidecarSupervisor::new();
    let mut launches = 0;
    assert_eq!(
        spawn(&mut supervisor, &mut launches, Ok(child(1))),
        Err(SpawnError::StateUnavailable)
    );
    assert_eq!(launches, 1);
    assert!(supervisor.registry().is_none());
}

#[test]
fn failed_launch_without_registry_is_launch_failed() {
    let mut supervisor: SidecarSupervisor<FakeChild> = SidecarSupervisor::new();
    assert_eq!(
        supervisor.complete_spawn(Err("gone".to_string())),
        Err(SpawnError::LaunchFailed("gone".to_string()))
    );
    assert!(supervisor.registry().is_none());
}

#[test]
fn shutdown_writes_the_command_and_empties_the_registry() {
    let mut supervisor = running(child(21));
    let (answer, sent) = shutdown(&mut supervisor);
    assert_eq!(answer, Ok(Acknowledged));
    assert_eq!(sent, Some(b"sidecar shutdown\n".to_vec()));
    assert_eq!(stored(&supervisor), None);
    assert!(supervisor.registry().is_some());
}

#[test]
fn begin_shutdown_hands_out_the_stored_handle() {
    let mut supervisor = running(child(21));
    let handshake = supervisor.begin_shutdown().unwrap();
    assert_eq!(handshake.handle, child(21));
    assert_eq!(handshake.command, "sidecar shutdown\n");
    assert_eq!(stored(&supervisor), None);
}

#[test]
fn repeated_shutdown_returns_not_running() {
    let mut supervisor = running(child(21));
    assert_eq!(shutdown(&mut supervisor), (Ok(Acknowledged), Some(b"sidecar shutdown\n".to_vec())));
    for _ in 0..5 {
        assert_eq!(shutdown(&mut supervisor), (Err(ShutdownError::NotRunning), None));
        assert_eq!(stored(&supervisor), None);
    }
}

#[test]
fn shutdown_on_empty_registry_is_not_running_and_writes_nothing() {
    let mut supervisor = ready();
    assert_eq!(supervisor.begin_shutdown(), Err(ShutdownError::NotRunning));
    assert_eq!(shutdown(&mut supervisor), (Err(ShutdownError::NotRunning), None));
    assert_eq!(stored(&supervisor), None);
    assert!(supervisor.registry().is_some());
}

#[test]
fn shutdown_without_registry_is_state_unavailable() {
    let mut supervisor: SidecarSupervisor<FakeChild> = SidecarSupervisor::new();
    assert_eq!(shutdown(&mut supervisor), (Err(ShutdownError::StateUnavailable), None));
    assert!(supervisor.registry().is_none());
}

#[test]
fn failed_write_restores_the_handle() {
    let mut supervisor = running(broken_child(30));
    let (answer, sent) = shutdown(&mut supervisor);
    assert_eq!(answer, Err(ShutdownError::WriteFailed("broken pipe".to_string())));
    assert_eq!(sent, None);
    assert_eq!(stored(&supervisor), Some(&broken_child(30)));
}

#[test]
fn shutdown_can_be_retried_after_failed_write() {
    let mut supervisor = running(broken_child(30));
    assert_eq!(
        shutdown(&mut supervisor).0,
        Err(ShutdownError::WriteFailed("broken pipe".to_string()))
    );
    let mut handshake = supervisor.begin_shutdown().unwrap();
    assert_eq!(handshake.handle, broken_child(30));
    handshake.handle.control.broken = false;
    let written = write(&mut handshake.handle.control, handshake.command.as_bytes());
    assert_eq!(written, Ok(()));
    assert_eq!(handshake.handle.control.written, b"sidecar shutdown\n".to_vec());
    assert_eq!(supervisor.finish_shutdown(handshake.handle, written), Ok(Acknowledged));
    assert_eq!(stored(&supervisor), None);
}

#[test]
fn finish_shutdown_after_successful_write_leaves_registry_empty() {
    let mut supervisor = ready();
    assert_eq!(supervisor.finish_shutdown(child(4), Ok(())), Ok(Acknowledged));
    assert_eq!(stored(&supervisor), None);
}

#[test]
fn finish_shutdown_without_registry_reports_the_write() {
    let mut supervisor = SidecarSupervisor::new();
    assert_eq!(supervisor.finish_shutdown(child(4), Ok(())), Ok(Acknowledged));
    assert_eq!(
        supervisor.finish_shutdown(child(4), Err("closed".to_string())),
        Err(ShutdownError::WriteFailed("closed".to_string()))
    );
    assert!(supervisor.registry().is_none());
}

#[test]
fn spawn_shutdown_spawn_runs_a_second_worker() {
    let mut supervisor = ready();
    let mut launches = 0;
    assert_eq!(spawn(&mut supervisor, &mut launches, Ok(child(1))), Ok(SpawnOutcome::Started));
    assert_eq!(shutdown(&mut supervisor).0, Ok(Acknowledged));
    assert_eq!(stored(&supervisor), None);
    assert_eq!(spawn(&mut supervisor, &mut launches, Ok(child(2))), Ok(SpawnOutcome::Started));
    assert_eq!(launches, 2);
    assert_eq!(stored(&supervisor), Some(&child(2)));
}

#[test]
fn spawn_wins_the_race_against_shutdown() {
    let mut supervisor = ready();
    let mut launches = 0;
    assert_eq!(spawn(&mut supervisor, &mut launches, Ok(child(1))), Ok(SpawnOutcome::Started));
    assert_eq!(stored(&supervisor), Some(&child(1)));
    assert_eq!(shutdown(&mut supervisor), (Ok(Acknowledged), Some(b"sidecar shutdown\n".to_vec())));
    assert_eq!(stored(&supervisor), None);
}

#[test]
fn shutdown_wins_the_race_against_spawn() {
    let mut supervisor = ready();
    let mut launches = 0;
    assert_eq!(shutdown(&mut supervisor), (Err(ShutdownError::NotRunning), None));
    assert_eq!(stored(&supervisor), None);
    assert_eq!(spawn(&mut supervisor, &mut launches, Ok(child(1))), Ok(SpawnOutcome::Started));
    assert_eq!(stored(&supervisor), Some(&child(1)));
    assert_eq!(launches, 1);
}

#[test]
fn exit_handshake_takes_the_handle_and_names_the_command() {
    let mut supervisor = running(child(6));
    let handshake = supervisor.begin_exit().unwrap();
    assert_eq!(handshake.handle, child(6));
    assert_eq!(handshake.command, "sidecar shutdown\n");
    assert_eq!(stored(&supervisor), None);
    supervisor.finish_exit(handshake.handle, Ok(()));
    assert_eq!(stored(&supervisor), None);
}

#[test]
fn exit_without_worker_or_registry_has_nothing_to_do() {
    let mut supervisor = ready();
    assert_eq!(supervisor.begin_exit(), None);
    assert_eq!(stored(&supervisor), None);
    let mut unset: SidecarSupervisor<FakeChild> = SidecarSupervisor::new();
    assert_eq!(unset.begin_exit(), None);
    assert!(unset.registry().is_none());
}

#[test]
fn exit_handshake_that_fails_restores_the_handle() {
    let mut supervisor = running(broken_child(6));
    let mut handshake = supervisor.begin_exit().unwrap();
    let written = write(&mut handshake.handle.control, handshake.command.as_bytes());
    assert!(written.is_err());
    supervisor.finish_exit(handshake.handle, written);
    assert_eq!(stored(&supervisor), Some(&broken_child(6)));
}
