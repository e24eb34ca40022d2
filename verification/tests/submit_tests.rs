use near_cli::pipeline::Submit;
use near_cli::submit::{
    broadcast_step, is_timeout_data, BroadcastResponse, BroadcastStep, SubmissionOutcome,
};

fn timeout_failure() -> BroadcastResponse {
    BroadcastResponse::Failure { data: Some("Timeout: the node gave no answer".to_string()) }
}

fn other_failure() -> BroadcastResponse {
    BroadcastResponse::Failure { data: Some("InvalidTransaction".to_string()) }
}

#[test]
fn timeout_classification_looks_for_the_marker() {
    assert!(is_timeout_data(&Some("Timeout".to_string())));
    assert!(is_timeout_data(&Some("server Timeout while routing".to_string())));
    assert!(!is_timeout_data(&Some("timed out".to_string())));
    assert!(!is_timeout_data(&None));
}

#[test]
fn step_rule_classifies_each_response() {
    assert!(matches!(
        broadcast_step(BroadcastResponse::Success { outcome: "done".to_string() }),
        BroadcastStep::Accept { .. }
    ));
    assert!(matches!(broadcast_step(timeout_failure()), BroadcastStep::Retry));
    assert!(matches!(broadcast_step(other_failure()), BroadcastStep::Abort));
    assert!(matches!(
        broadcast_step(BroadcastResponse::Failure { data: None }),
        BroadcastStep::Abort
    ));
}

#[test]
fn two_timeouts_then_a_commit_yield_one_committed_outcome() {
    // two timeouts, each with its own retry notice, then exactly one commit
    let responses = vec![
        timeout_failure(),
        timeout_failure(),
        BroadcastResponse::Success { outcome: "final result".to_string() },
    ];
    let (outcome, notices) = Submit::Send.process_online(responses, "blob".to_string());
    match outcome.unwrap() {
        SubmissionOutcome::Committed { result } => assert_eq!(result, "final result"),
        _ => panic!("the broadcast must commit once"),
    }
    assert_eq!(notices, 2);
}

#[test]
fn non_timeout_failure_is_reported_and_suppressed() {
    let responses = vec![timeout_failure(), other_failure()];
    let (outcome, notices) = Submit::Send.process_online(responses, "blob".to_string());
    assert!(matches!(outcome.unwrap(), SubmissionOutcome::Suppressed));
    assert_eq!(notices, 1);
}

#[test]
fn display_choice_never_broadcasts() {
    let responses = vec![BroadcastResponse::Success { outcome: "unused".to_string() }];
    let (outcome, notices) = Submit::Display.process_online(responses, "blob".to_string());
    match outcome.unwrap() {
        SubmissionOutcome::Displayed { rendered } => assert_eq!(rendered, "blob"),
        _ => panic!("display must not broadcast"),
    }
    assert_eq!(notices, 0);
}

#[test]
fn offline_path_displays() {
    match Submit::Send.process_offline("blob".to_string()) {
        SubmissionOutcome::Displayed { rendered } => assert_eq!(rendered, "blob"),
        _ => panic!("offline must display"),
    }
}

#[test]
fn exhausted_timeouts_leave_the_loop_running() {
    let responses = vec![timeout_failure(), timeout_failure()];
    let (outcome, notices) = Submit::Send.process_online(responses, "blob".to_string());
    assert!(outcome.is_none());
    assert_eq!(notices, 2);
}
