use hera::anchor::AnchorConfig;
use hera::driver::{
    backoff_delay, DriverAction, FailureClass, Phase, PipelineDriver, RetryPolicy, Termination,
};
use hera::gate::{process_all, GateResult, GenesisSyncGate, SyncState};
use hera::genesis_wait::{GenesisWaiter, HostEvent, WaitAction, WaitError};
use hera::validation::{IndeterminateCause, InvalidReason, ValidationOutcome};

fn anchor(height: u64) -> AnchorConfig {
    AnchorConfig { chain_id: 10, anchor_height: height, anchor_hash: [7u8; 32], l2_genesis_height: 150 }
}

fn policy(max_attempts: u64) -> RetryPolicy {
    RetryPolicy { max_attempts, base_delay_ms: 100, max_delay_ms: 1000 }
}

/// Feeds committed tips through a waiter, confirming each acknowledgment, and
/// returns the acknowledged heights and the final action.
fn run_waiter(anchor_height: u64, tips: &[u64]) -> (Vec<u64>, WaitAction) {
    let mut w = GenesisWaiter::new(anchor_height);
    let mut acks = Vec::new();
    let mut last = WaitAction::RequestNext;
    for &t in tips {
        match w.step(HostEvent::Committed(t)) {
            WaitAction::Acknowledge(h) => acks.push(h),
            other => panic!("expected an acknowledgment, got {:?}", other),
        }
        last = w.step(HostEvent::AckSent);
        if let WaitAction::Synced(_) = last {
            break;
        }
    }
    (acks, last)
}

#[test]
fn tips_below_then_above_anchor() {
    let r = process_all(100, &vec![50, 90, 150]);
    assert_eq!(
        r,
        vec![GateResult::StillWaiting(50), GateResult::StillWaiting(90), GateResult::ReachedGenesis(150)]
    );
}

#[test]
fn acknowledgments_follow_tips_in_order() {
    let (acks, last) = run_waiter(100, &[50, 90, 150]);
    assert_eq!(acks, vec![50, 90, 150]);
    assert_eq!(last, WaitAction::Synced(150));
}

#[test]
fn gap_over_anchor_is_accepted() {
    let mut g = GenesisSyncGate::new(100);
    assert_eq!(g.process(90), GateResult::StillWaiting(90));
    assert_eq!(g.process(150), GateResult::ReachedGenesis(150));
    assert_eq!(g.state, SyncState::Synced);
    assert_eq!(g.highest_seen, Some(150));
}

#[test]
fn tip_equal_to_anchor_reaches_genesis() {
    let mut g = GenesisSyncGate::new(100);
    assert_eq!(g.process(100), GateResult::ReachedGenesis(100));
    assert!(g.synced());
}

#[test]
fn genesis_reported_only_once() {
    let r = process_all(100, &vec![10, 120, 130, 90, 200]);
    let reached = r.iter().filter(|x| matches!(x, GateResult::ReachedGenesis(_))).count();
    assert_eq!(reached, 1);
    assert_eq!(r[1], GateResult::ReachedGenesis(120));
    assert_eq!(r[2], GateResult::AlreadySynced(130));
    assert_eq!(r[3], GateResult::AlreadySynced(90));
    assert_eq!(r[4], GateResult::AlreadySynced(200));
}

#[test]
fn never_reaching_anchor_keeps_waiting() {
    let r = process_all(100, &vec![1, 2, 99]);
    assert!(r.iter().all(|x| matches!(x, GateResult::StillWaiting(_))));
    assert!(process_all(5, &vec![]).is_empty());
}

#[test]
fn highest_seen_keeps_maximum() {
    let mut g = GenesisSyncGate::new(1000);
    g.process(40);
    g.process(20);
    assert_eq!(g.highest_seen, Some(40));
}

#[test]
fn largest_heights() {
    let r = process_all(u64::MAX, &vec![u64::MAX - 1, u64::MAX]);
    assert_eq!(r, vec![GateResult::StillWaiting(u64::MAX - 1), GateResult::ReachedGenesis(u64::MAX)]);
    let r0 = process_all(0, &vec![0]);
    assert_eq!(r0, vec![GateResult::ReachedGenesis(0)]);
}

#[test]
fn notification_without_segment_requests_next() {
    let mut w = GenesisWaiter::new(100);
    assert_eq!(w.step(HostEvent::NoCommittedChain), WaitAction::RequestNext);
    assert_eq!(w.pending_ack, None);
}

#[test]
fn next_request_waits_for_acknowledgment() {
    let mut w = GenesisWaiter::new(100);
    assert_eq!(w.step(HostEvent::Committed(10)), WaitAction::Acknowledge(10));
    assert_eq!(w.pending_ack, Some(10));
    assert_eq!(w.step(HostEvent::Committed(11)), WaitAction::Fail(WaitError::ProtocolViolation(Some(10))));
}

#[test]
fn rejected_acknowledgment_fails() {
    let mut w = GenesisWaiter::new(100);
    w.step(HostEvent::Committed(10));
    assert_eq!(w.step(HostEvent::AckRejected), WaitAction::Fail(WaitError::AckFailed(10)));
    assert!(w.done);
}

#[test]
fn closed_channel_fails() {
    let mut w = GenesisWaiter::new(100);
    assert_eq!(w.step(HostEvent::ChannelClosed), WaitAction::Fail(WaitError::HostDisconnected(None)));
    assert_eq!(w.step(HostEvent::NoCommittedChain), WaitAction::Fail(WaitError::ProtocolViolation(None)));
}

#[test]
fn unexpected_confirmation_is_protocol_violation() {
    let mut w = GenesisWaiter::new(100);
    assert_eq!(w.step(HostEvent::AckSent), WaitAction::Fail(WaitError::ProtocolViolation(None)));
}

fn synced_driver(max_attempts: u64) -> PipelineDriver {
    let mut d = PipelineDriver::new(&anchor(100), policy(max_attempts));
    assert_eq!(d.on_host_event(HostEvent::Committed(150)), DriverAction::Acknowledge(150));
    assert_eq!(d.on_host_event(HostEvent::AckSent), DriverAction::ValidateNext(151));
    assert_eq!(d.phase, Phase::Validating);
    d
}

#[test]
fn driver_waits_then_validates() {
    let mut d = PipelineDriver::new(&anchor(100), policy(3));
    assert_eq!(d.phase, Phase::WaitingForGenesis);
    assert_eq!(d.on_host_event(HostEvent::Committed(50)), DriverAction::Acknowledge(50));
    assert_eq!(d.on_host_event(HostEvent::AckSent), DriverAction::RequestNotification);
    assert_eq!(d.on_host_event(HostEvent::Committed(120)), DriverAction::Acknowledge(120));
    assert_eq!(d.on_host_event(HostEvent::AckSent), DriverAction::ValidateNext(151));
    assert_eq!(d.phase, Phase::Validating);
}

#[test]
fn valid_outcome_moves_cursor() {
    let mut d = synced_driver(3);
    assert_eq!(d.on_outcome(151, ValidationOutcome::Valid), DriverAction::ValidateNext(152));
    assert_eq!(d.last_validated, Some(151));
}

#[test]
fn undecided_outcomes_exhaust_retries() {
    let mut d = synced_driver(3);
    let o = ValidationOutcome::Indeterminate(IndeterminateCause::Syncing);
    assert_eq!(d.on_outcome(151, o.clone()), DriverAction::RetryAfter { height: 151, delay_ms: 100 });
    assert_eq!(d.on_outcome(151, o.clone()), DriverAction::RetryAfter { height: 151, delay_ms: 200 });
    assert_eq!(d.on_outcome(151, o.clone()), DriverAction::Stop);
    assert_eq!(d.phase, Phase::Terminated(Termination::ExhaustedRetries(151)));
    assert_eq!(d.last_validated, None);
    assert_eq!(d.on_outcome(152, ValidationOutcome::Valid), DriverAction::Stop);
}

#[test]
fn valid_outcome_resets_attempts() {
    let mut d = synced_driver(2);
    let o = ValidationOutcome::Indeterminate(IndeterminateCause::Unreachable);
    assert_eq!(d.on_outcome(151, o.clone()), DriverAction::RetryAfter { height: 151, delay_ms: 100 });
    assert_eq!(d.on_outcome(151, ValidationOutcome::Valid), DriverAction::ValidateNext(152));
    assert_eq!(d.attempts, 0);
    assert_eq!(d.on_outcome(152, o.clone()), DriverAction::RetryAfter { height: 152, delay_ms: 100 });
}

#[test]
fn single_attempt_policy_stops_at_first_undecided() {
    let mut d = synced_driver(1);
    let o = ValidationOutcome::Indeterminate(IndeterminateCause::Accepted);
    assert_eq!(d.on_outcome(151, o.clone()), DriverAction::Stop);
}

#[test]
fn closed_channel_terminates_driver() {
    let mut d = PipelineDriver::new(&anchor(100), policy(3));
    assert_eq!(d.on_host_event(HostEvent::ChannelClosed), DriverAction::Stop);
    assert_eq!(d.phase, Phase::Terminated(Termination::HostDisconnected(None)));
    let mut v = synced_driver(3);
    assert_eq!(v.on_host_event(HostEvent::NoCommittedChain), DriverAction::RequestNotification);
    assert_eq!(v.on_host_event(HostEvent::ChannelClosed), DriverAction::Stop);
    assert_eq!(v.phase, Phase::Terminated(Termination::HostDisconnected(Some(150))));
}

#[test]
fn segments_after_genesis_are_acknowledged() {
    let mut d = synced_driver(3);
    assert_eq!(d.on_host_event(HostEvent::Committed(160)), DriverAction::Acknowledge(160));
    assert_eq!(d.on_host_event(HostEvent::AckSent), DriverAction::RequestNotification);
    assert_eq!(d.phase, Phase::Validating);
    assert_eq!(d.on_host_event(HostEvent::Committed(170)), DriverAction::Acknowledge(170));
    assert_eq!(d.on_host_event(HostEvent::AckRejected), DriverAction::Stop);
    assert_eq!(d.phase, Phase::Terminated(Termination::AckFailed(170)));
}

#[test]
fn outcome_for_other_height_is_refused() {
    let mut d = synced_driver(3);
    assert_eq!(d.on_outcome(150, ValidationOutcome::Valid), DriverAction::Refused);
    assert_eq!(d.on_outcome(152, ValidationOutcome::Valid), DriverAction::Refused);
    assert_eq!(d.last_validated, None);
    assert_eq!(d.on_outcome(151, ValidationOutcome::Valid), DriverAction::ValidateNext(152));
    assert_eq!(d.on_outcome(151, ValidationOutcome::Valid), DriverAction::Refused);
    assert_eq!(d.last_validated, Some(151));
    let mut w = PipelineDriver::new(&anchor(100), policy(3));
    assert_eq!(w.on_outcome(151, ValidationOutcome::Valid), DriverAction::Refused);
}

#[test]
fn synced_reported_once_in_a_run() {
    let mut w = GenesisWaiter::new(100);
    w.step(HostEvent::Committed(120));
    assert_eq!(w.step(HostEvent::AckSent), WaitAction::Synced(120));
    w.step(HostEvent::Committed(130));
    assert_eq!(w.step(HostEvent::AckSent), WaitAction::RequestNext);
}

#[test]
fn failed_acknowledgment_terminates_driver() {
    let mut d = PipelineDriver::new(&anchor(100), policy(3));
    d.on_host_event(HostEvent::Committed(40));
    assert_eq!(d.on_host_event(HostEvent::AckRejected), DriverAction::Stop);
    assert_eq!(d.phase, Phase::Terminated(Termination::AckFailed(40)));
    assert_eq!(Termination::AckFailed(40).class(), FailureClass::Protocol);
}

#[test]
fn termination_classes() {
    assert_eq!(Termination::HostDisconnected(None).class(), FailureClass::Protocol);
    assert_eq!(Termination::ProtocolViolation(Some(3)).class(), FailureClass::Protocol);
    let reason = InvalidReason::Rejected("bad".to_string());
    assert_eq!(Termination::ValidationFailure { height: 3, reason }.class(), FailureClass::Validation);
    assert_eq!(Termination::ExhaustedRetries(3).class(), FailureClass::Protocol);
}

#[test]
fn zero_attempt_policy_stops_at_first_undecided() {
    let mut d = synced_driver(0);
    let o = ValidationOutcome::Indeterminate(IndeterminateCause::Syncing);
    assert_eq!(d.on_outcome(151, o.clone()), DriverAction::Stop);
}

#[test]
fn backoff_doubles_up_to_cap() {
    let p = policy(10);
    assert_eq!(backoff_delay(&p, 0), 100);
    assert_eq!(backoff_delay(&p, 1), 100);
    assert_eq!(backoff_delay(&p, 2), 200);
    assert_eq!(backoff_delay(&p, 3), 400);
    assert_eq!(backoff_delay(&p, 4), 800);
    assert_eq!(backoff_delay(&p, 5), 1000);
    assert_eq!(backoff_delay(&p, 60), 1000);
    let big = RetryPolicy { max_attempts: 1, base_delay_ms: u64::MAX - 1, max_delay_ms: u64::MAX };
    assert_eq!(backoff_delay(&big, 2), u64::MAX);
}
