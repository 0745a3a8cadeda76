use pbreak::tracee::{TeardownStep, TraceError, Tracee, TraceeStatus};
use pbreak::wait::{decode_wait_status, WaitOutcome};

// Status words as the kernel writes them.
const TRAP_STOP: i32 = (5 << 8) | 0x7f;
const SIGSTOP_STOP: i32 = (19 << 8) | 0x7f;
const EXIT_ZERO: i32 = 0;
const EXIT_THREE: i32 = 3 << 8;
const KILLED: i32 = 9;

fn spawned() -> Tracee {
    Tracee::from_cmd(4242, &String::new(), TRAP_STOP).unwrap()
}

#[test]
fn decode_reads_each_shape() {
    assert_eq!(decode_wait_status(TRAP_STOP), Some(WaitOutcome::Stopped { signal: 5 }));
    assert_eq!(decode_wait_status(SIGSTOP_STOP), Some(WaitOutcome::Stopped { signal: 19 }));
    assert_eq!(decode_wait_status(EXIT_ZERO), Some(WaitOutcome::Exited { code: 0 }));
    assert_eq!(decode_wait_status(EXIT_THREE), Some(WaitOutcome::Exited { code: 3 }));
    assert_eq!(decode_wait_status(KILLED), Some(WaitOutcome::Terminated { signal: 9 }));
    assert_eq!(decode_wait_status(0x89), Some(WaitOutcome::Terminated { signal: 9 }));
    assert_eq!(decode_wait_status(0xff), None);
}

#[test]
fn tracee_from_cmd_succeeds_when_command_is_valid() {
    let tracee = spawned();
    assert_eq!(tracee.status(), TraceeStatus::Stopped);
    assert_eq!(tracee.pid(), 4242);
}

#[test]
fn tracee_from_cmd_fails_when_the_child_reports() {
    let report = String::from("failed to exec newly forked process: No such file or directory");
    match Tracee::from_cmd(4242, &report, 255 << 8) {
        Err(TraceError::Spawn { message }) => assert_eq!(message, report),
        other => panic!("unexpected result: {:?}", other),
    }
}

#[test]
fn construction_needs_a_stop() {
    assert!(matches!(
        Tracee::from_cmd(4242, &String::new(), EXIT_THREE),
        Err(TraceError::NotStopped { outcome: WaitOutcome::Exited { code: 3 } })
    ));
    assert!(matches!(
        Tracee::from_pid(4242, KILLED),
        Err(TraceError::NotStopped { outcome: WaitOutcome::Terminated { signal: 9 } })
    ));
    assert!(matches!(
        Tracee::from_pid(4242, 0xff),
        Err(TraceError::UnexpectedWaitStatus { wait_status: 0xff })
    ));
}

#[test]
fn tracee_from_pid_succeeds_when_pid_exists() {
    let tracee = Tracee::from_pid(4242, SIGSTOP_STOP).unwrap();
    assert_eq!(tracee.status(), TraceeStatus::Stopped);
    assert_eq!(tracee.pid(), 4242);
}

#[test]
fn tracee_from_pid_fails_when_pid_does_not_exist() {
    assert!(matches!(Tracee::from_pid(-1, SIGSTOP_STOP), Err(TraceError::Attach { pid: -1 })));
    assert!(matches!(Tracee::from_pid(0, SIGSTOP_STOP), Err(TraceError::Attach { pid: 0 })));
}

#[test]
fn tracee_resume_succeeds_when_tracee_is_from_cmd() {
    let mut tracee = spawned();
    tracee.resume().unwrap();
    assert_eq!(tracee.status(), TraceeStatus::Running);
}

#[test]
fn tracee_resume_succeeds_when_tracee_is_from_pid() {
    let mut tracee = Tracee::from_pid(4242, SIGSTOP_STOP).unwrap();
    tracee.resume().unwrap();
    assert_eq!(tracee.status(), TraceeStatus::Running);
}

#[test]
fn tracee_resume_fails_when_tracee_has_exited() {
    let mut tracee = spawned();
    tracee.resume().unwrap();
    assert_eq!(tracee.wait_on_signal(EXIT_ZERO).unwrap(), WaitOutcome::Exited { code: 0 });
    assert!(matches!(
        tracee.resume(),
        Err(TraceError::InvalidState { status: TraceeStatus::Exited })
    ));
    assert_eq!(tracee.status(), TraceeStatus::Exited);
}

#[test]
fn resume_while_running_is_refused() {
    let mut tracee = spawned();
    tracee.resume().unwrap();
    assert!(matches!(
        tracee.resume(),
        Err(TraceError::InvalidState { status: TraceeStatus::Running })
    ));
    assert!(tracee.check_stopped().is_err());
}

#[test]
fn spawn_resume_wait_ends_exited_with_code_zero() {
    let mut tracee = spawned();
    assert_eq!(tracee.status(), TraceeStatus::Stopped);
    tracee.resume().unwrap();
    let outcome = tracee.wait_on_signal(EXIT_ZERO).unwrap();
    assert_eq!(outcome, WaitOutcome::Exited { code: 0 });
    assert_eq!(tracee.status(), TraceeStatus::Exited);
}

#[test]
fn wait_after_exit_is_refused() {
    let mut tracee = spawned();
    tracee.wait_on_signal(KILLED).unwrap();
    assert_eq!(tracee.status(), TraceeStatus::Terminated);
    assert!(tracee.check_live().is_err());
    assert!(matches!(
        tracee.wait_on_signal(EXIT_ZERO),
        Err(TraceError::InvalidState { status: TraceeStatus::Terminated })
    ));
}

#[test]
fn wait_with_an_unknown_word_keeps_the_state() {
    let mut tracee = spawned();
    tracee.resume().unwrap();
    assert!(matches!(
        tracee.wait_on_signal(0xff),
        Err(TraceError::UnexpectedWaitStatus { wait_status: 0xff })
    ));
    assert_eq!(tracee.status(), TraceeStatus::Running);
}

#[test]
fn wait_records_a_new_stop() {
    let mut tracee = spawned();
    tracee.resume().unwrap();
    assert_eq!(tracee.wait_on_signal(SIGSTOP_STOP).unwrap(), WaitOutcome::Stopped { signal: 19 });
    assert_eq!(tracee.status(), TraceeStatus::Stopped);
    assert!(tracee.check_stopped().is_ok());
}

#[test]
fn teardown_stops_a_running_process_first() {
    let mut tracee = spawned();
    assert_eq!(
        tracee.teardown(),
        vec![
            TeardownStep::Detach,
            TeardownStep::SendContinue,
            TeardownStep::SendKill,
            TeardownStep::Reap
        ]
    );
    tracee.resume().unwrap();
    assert_eq!(
        tracee.teardown(),
        vec![
            TeardownStep::SendStop,
            TeardownStep::AwaitStop,
            TeardownStep::Detach,
            TeardownStep::SendContinue,
            TeardownStep::SendKill,
            TeardownStep::Reap
        ]
    );
}
