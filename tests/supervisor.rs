use mcp_supervisor::outcome::{SendStatus, StartStatus, StopStatus, SupervisorError};
use mcp_supervisor::supervisor::{
    ProcessHandle, ProcessSupervisor, SendStep, StartStep, StopStep, WriteOutcome,
};

/// Stands for the host's process object; counts what the host did to it.
#[derive(Debug, PartialEq)]
struct FakeWorker {
    written: Vec<String>,
}

fn worker() -> FakeWorker {
    FakeWorker { written: Vec::new() }
}

/// Runs `start`, launching through `launch` only when the supervisor asks.
fn start(
    sup: &mut ProcessSupervisor<FakeWorker>,
    launches: &mut u32,
    launch: Result<ProcessHandle<FakeWorker>, String>,
) -> Result<StartStatus, SupervisorError> {
    match sup.begin_start() {
        StartStep::Done(st) => Ok(st),
        StartStep::Spawn => {
            *launches += 1;
            sup.finish_start(launch)
        }
    }
}

/// Runs `stop`, terminating with the given outcome when there is a worker.
fn stop(
    sup: &mut ProcessSupervisor<FakeWorker>,
    kills: &mut u32,
    killed: Result<(), String>,
) -> Result<StopStatus, SupervisorError> {
    match sup.begin_stop() {
        StopStep::Done(st) => Ok(st),
        StopStep::Terminate(h) => {
            *kills += 1;
            sup.finish_stop(h, killed)
        }
    }
}

/// Runs `send`, writing with the given outcome when there is a worker.
fn send(
    sup: &mut ProcessSupervisor<FakeWorker>,
    writes: &mut u32,
    message: &str,
    written: WriteOutcome,
) -> Result<SendStatus, SupervisorError> {
    match sup.begin_send() {
        SendStep::Done(e) => Err(e),
        SendStep::Write(mut h) => {
            *writes += 1;
            h.process.written.push(message.to_string());
            sup.finish_send(h, written)
        }
    }
}

#[test]
fn new_supervisor_is_empty() {
    let sup: ProcessSupervisor<FakeWorker> = ProcessSupervisor::new();
    assert!(!sup.is_running());
    assert_eq!(sup.running_id(), None);
}

#[test]
fn repeated_starts_launch_once() {
    let mut sup = ProcessSupervisor::new();
    let mut launches = 0;
    let mut replies = Vec::new();
    for i in 0..5u32 {
        replies.push(start(&mut sup, &mut launches, Ok(ProcessHandle { id: 100 + i, process: worker() })));
    }
    assert_eq!(launches, 1);
    assert_eq!(replies[0], Ok(StartStatus::Started { id: 100 }));
    for r in &replies[1..] {
        assert_eq!(*r, Ok(StartStatus::AlreadyRunning));
    }
    assert_eq!(sup.running_id(), Some(100));
}

#[test]
fn failed_launch_leaves_slot_empty_and_next_start_launches() {
    let mut sup = ProcessSupervisor::new();
    let mut launches = 0;
    let r = start(&mut sup, &mut launches, Err("No such file or directory (os error 2)".to_string()));
    assert_eq!(r, Err(SupervisorError::SpawnFailed("No such file or directory (os error 2)".to_string())));
    assert!(!sup.is_running());
    let r = start(&mut sup, &mut launches, Ok(ProcessHandle { id: 9, process: worker() }));
    assert_eq!(r, Ok(StartStatus::Started { id: 9 }));
    assert_eq!(launches, 2);
}

#[test]
fn stop_twice_reports_not_running() {
    let mut sup = ProcessSupervisor::new();
    let (mut launches, mut kills) = (0, 0);
    start(&mut sup, &mut launches, Ok(ProcessHandle { id: 5, process: worker() })).unwrap();
    assert_eq!(stop(&mut sup, &mut kills, Ok(())), Ok(StopStatus::Stopped));
    assert_eq!(stop(&mut sup, &mut kills, Ok(())), Ok(StopStatus::WasNotRunning));
    assert_eq!(kills, 1);
}

#[test]
fn stop_on_empty_slot_reports_not_running() {
    let mut sup: ProcessSupervisor<FakeWorker> = ProcessSupervisor::new();
    let mut kills = 0;
    assert_eq!(stop(&mut sup, &mut kills, Err("unused".to_string())), Ok(StopStatus::WasNotRunning));
    assert_eq!(kills, 0);
}

#[test]
fn start_stop_then_send_is_not_running() {
    let mut sup = ProcessSupervisor::new();
    let (mut launches, mut kills, mut writes) = (0, 0, 0);
    assert_eq!(
        start(&mut sup, &mut launches, Ok(ProcessHandle { id: 77, process: worker() })),
        Ok(StartStatus::Started { id: 77 })
    );
    assert_eq!(stop(&mut sup, &mut kills, Ok(())), Ok(StopStatus::Stopped));
    assert_eq!(send(&mut sup, &mut writes, "ping", WriteOutcome::Written), Err(SupervisorError::NotRunning));
    assert_eq!(writes, 0);
}

#[test]
fn send_before_start_is_not_running_and_writes_nothing() {
    let mut sup: ProcessSupervisor<FakeWorker> = ProcessSupervisor::new();
    let mut writes = 0;
    assert_eq!(send(&mut sup, &mut writes, "ping", WriteOutcome::Written), Err(SupervisorError::NotRunning));
    assert_eq!(writes, 0);
    assert!(!sup.is_running());
}

#[test]
fn failed_termination_keeps_worker() {
    let mut sup = ProcessSupervisor::new();
    let (mut launches, mut kills, mut writes) = (0, 0, 0);
    start(&mut sup, &mut launches, Ok(ProcessHandle { id: 3, process: worker() })).unwrap();
    let r = stop(&mut sup, &mut kills, Err("Operation not permitted (os error 1)".to_string()));
    assert_eq!(r, Err(SupervisorError::TerminationFailed("Operation not permitted (os error 1)".to_string())));
    assert_eq!(sup.running_id(), Some(3));
    assert_eq!(send(&mut sup, &mut writes, "ping\n", WriteOutcome::Written), Ok(SendStatus::Sent));
    assert_eq!(writes, 1);
}

#[test]
fn send_keeps_the_same_worker() {
    let mut sup = ProcessSupervisor::new();
    let (mut launches, mut writes) = (0, 0);
    start(&mut sup, &mut launches, Ok(ProcessHandle { id: 11, process: worker() })).unwrap();
    send(&mut sup, &mut writes, "a", WriteOutcome::Written).unwrap();
    send(&mut sup, &mut writes, "b", WriteOutcome::Written).unwrap();
    match sup.begin_send() {
        SendStep::Write(h) => {
            assert_eq!(h.id, 11);
            assert_eq!(h.process.written, vec!["a".to_string(), "b".to_string()]);
        }
        SendStep::Done(_) => panic!("worker missing"),
    }
}

#[test]
fn stdin_unavailable_is_reported_and_worker_stays() {
    let mut sup = ProcessSupervisor::new();
    let (mut launches, mut writes) = (0, 0);
    start(&mut sup, &mut launches, Ok(ProcessHandle { id: 4, process: worker() })).unwrap();
    assert_eq!(
        send(&mut sup, &mut writes, "x", WriteOutcome::StdinUnavailable),
        Err(SupervisorError::StdinUnavailable)
    );
    assert!(sup.is_running());
}

#[test]
fn start_while_running_does_not_replace_worker() {
    let mut sup = ProcessSupervisor::new();
    let mut launches = 0;
    start(&mut sup, &mut launches, Ok(ProcessHandle { id: 1, process: worker() })).unwrap();
    assert!(matches!(sup.begin_start(), StartStep::Done(StartStatus::AlreadyRunning)));
    assert_eq!(sup.running_id(), Some(1));
}

#[test]
fn restart_after_stop_launches_again() {
    let mut sup = ProcessSupervisor::new();
    let (mut launches, mut kills) = (0, 0);
    start(&mut sup, &mut launches, Ok(ProcessHandle { id: 1, process: worker() })).unwrap();
    stop(&mut sup, &mut kills, Ok(())).unwrap();
    assert_eq!(
        start(&mut sup, &mut launches, Ok(ProcessHandle { id: 2, process: worker() })),
        Ok(StartStatus::Started { id: 2 })
    );
    assert_eq!(launches, 2);
}
