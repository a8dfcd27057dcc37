use helix_vte::bridge::{forward_read, ReadOutcome};
use helix_vte::lifecycle::{Lifecycle, LifecycleAction, LifecycleInput, LifecyclePhase};
use helix_vte::session::{exit_code, PtyEvent, UNKNOWN_EXIT_CODE};

fn report(events: Vec<PtyEvent>) -> LifecycleAction {
    LifecycleAction::Report(events)
}

#[test]
fn hello_then_exit_zero() {
    let (event, more) = forward_read(ReadOutcome::Read(b"hello".to_vec()));
    assert_eq!(event, Some(PtyEvent::Data(b"hello".to_vec())));
    assert!(more);
    let (event, more) = forward_read(ReadOutcome::Read(Vec::new()));
    assert_eq!(event, None);
    assert!(!more);

    let mut life = Lifecycle::new();
    assert_eq!(life.step(LifecycleInput::Polled(None)), LifecycleAction::Wait);
    assert_eq!(life.step(LifecycleInput::Polled(Some(0))), report(vec![PtyEvent::Terminated(0)]));
    assert!(life.is_finished());
}

#[test]
fn terminate_long_running_session() {
    let mut life = Lifecycle::new();
    assert_eq!(life.step(LifecycleInput::Polled(None)), LifecycleAction::Wait);
    assert_eq!(life.step(LifecycleInput::CancelRequested), LifecycleAction::Kill);
    assert_eq!(life.phase, LifecyclePhase::Cancelling);
    assert_eq!(life.step(LifecycleInput::Polled(None)), LifecycleAction::Wait);
    // a killed process reports status 1
    assert_eq!(life.step(LifecycleInput::Polled(Some(1))), report(vec![PtyEvent::Terminated(1)]));
    assert!(life.is_finished());
}

#[test]
fn second_cancel_retries_kill_without_second_end() {
    let mut life = Lifecycle::new();
    assert_eq!(life.step(LifecycleInput::CancelRequested), LifecycleAction::Kill);
    assert_eq!(life.step(LifecycleInput::CancelRequested), LifecycleAction::Kill);
    assert_eq!(life.step(LifecycleInput::Polled(Some(9))), report(vec![PtyEvent::Terminated(9)]));
    assert_eq!(life.step(LifecycleInput::CancelRequested), LifecycleAction::Wait);
    assert_eq!(life.step(LifecycleInput::Polled(Some(0))), LifecycleAction::Wait);
}

#[test]
fn immediate_cancel_with_failed_kill_still_ends() {
    let mut life = Lifecycle::new();
    assert_eq!(life.step(LifecycleInput::CancelRequested), LifecycleAction::Kill);
    assert_eq!(
        life.step(LifecycleInput::KillFailed("no such process".to_string())),
        report(vec![
            PtyEvent::Error("no such process".to_string()),
            PtyEvent::Terminated(UNKNOWN_EXIT_CODE)
        ])
    );
    assert!(life.is_finished());
    assert_eq!(life.step(LifecycleInput::Polled(Some(0))), LifecycleAction::Wait);
}

#[test]
fn wait_failure_ends_with_unknown_code() {
    let mut life = Lifecycle::new();
    assert_eq!(
        life.step(LifecycleInput::WaitFailed("wait failed".to_string())),
        report(vec![PtyEvent::Error("wait failed".to_string()), PtyEvent::Terminated(-1)])
    );
    assert_eq!(
        life.step(LifecycleInput::WaitFailed("again".to_string())),
        LifecycleAction::Wait
    );
}

#[test]
fn exit_codes_beyond_i32_become_unknown() {
    assert_eq!(exit_code(0), 0);
    assert_eq!(exit_code(3), 3);
    assert_eq!(exit_code(2147483647), 2147483647);
    assert_eq!(exit_code(2147483648), -1);
    assert_eq!(exit_code(u32::MAX), UNKNOWN_EXIT_CODE);
    let mut life = Lifecycle::new();
    assert_eq!(
        life.step(LifecycleInput::Polled(Some(u32::MAX))),
        report(vec![PtyEvent::Terminated(-1)])
    );
}
