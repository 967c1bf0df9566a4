use actioneer::auth::{
    action_after_poll, device_flow_request, poll_interval_secs, DevicePoll, PollAction, PollEvent, PollInstruction,
    PollOutcome, GITHUB_CLIENT_ID,
};

#[test]
fn poll_outcomes() {
    assert_eq!(action_after_poll(PollOutcome::Authorized), PollAction::Succeeded);
    assert_eq!(action_after_poll(PollOutcome::AuthorizationPending), PollAction::PollAgain);
    assert_eq!(action_after_poll(PollOutcome::SlowDown), PollAction::BackOffThenPollAgain);
    assert_eq!(action_after_poll(PollOutcome::ExpiredToken), PollAction::Failed("Authentication timeout".to_string()));
    assert_eq!(action_after_poll(PollOutcome::AccessDenied), PollAction::Failed("Access denied".to_string()));
    assert_eq!(action_after_poll(PollOutcome::Unknown("weird".to_string())), PollAction::Failed("weird".to_string()));
}

#[test]
fn poll_budget() {
    assert_eq!(poll_interval_secs(0), 1);
    assert_eq!(poll_interval_secs(5), 5);
    let mut poll = DevicePoll::new(12, 5);
    assert!(poll.begin_attempt());
    assert!(poll.begin_attempt());
    assert!(!poll.begin_attempt());
    let mut short = DevicePoll::new(3, 5);
    assert!(short.begin_attempt());
    assert!(!short.begin_attempt());
    assert_eq!(DevicePoll::timeout_message(), "Authentication timeout");
}

#[test]
fn device_flow_asks_for_repo_and_workflow() {
    let request = device_flow_request();
    assert_eq!(request.client_id, GITHUB_CLIENT_ID);
    assert_eq!(request.scopes, vec!["repo".to_string(), "workflow".to_string()]);
}

#[test]
fn polling_loop_waits_backs_off_and_finishes() {
    let mut poll = DevicePoll::new(20, 5);
    assert_eq!(poll.step(PollEvent::Ready), PollInstruction::WaitThenPoll(5));
    assert_eq!(poll.step(PollEvent::Polled(PollOutcome::AuthorizationPending)), PollInstruction::WaitThenPoll(5));
    assert_eq!(poll.step(PollEvent::Polled(PollOutcome::SlowDown)), PollInstruction::Wait(5));
    assert_eq!(poll.step(PollEvent::Ready), PollInstruction::WaitThenPoll(5));
    assert_eq!(
        poll.step(PollEvent::Polled(PollOutcome::Authorized)),
        PollInstruction::Finish(PollAction::Succeeded)
    );
}

#[test]
fn polling_loop_times_out_after_its_budget() {
    let mut poll = DevicePoll::new(10, 0);
    assert_eq!(poll.step(PollEvent::Ready), PollInstruction::WaitThenPoll(1));
    for _ in 1..10 {
        assert_eq!(poll.step(PollEvent::Polled(PollOutcome::AuthorizationPending)), PollInstruction::WaitThenPoll(1));
    }
    assert_eq!(
        poll.step(PollEvent::Polled(PollOutcome::AuthorizationPending)),
        PollInstruction::Finish(PollAction::Failed("Authentication timeout".to_string()))
    );
    let mut denied = DevicePoll::new(10, 2);
    assert_eq!(
        denied.step(PollEvent::Polled(PollOutcome::AccessDenied)),
        PollInstruction::Finish(PollAction::Failed("Access denied".to_string()))
    );
}
