//! The pipeline driver: waits for the anchor block, then reacts to the outcome
//! of each payload validation, in order of height.
//!
//! The driver decides; the loop around it receives notifications, acknowledges
//! heights, obtains and validates payloads and sleeps, and hands each result
//! back to it.
use vstd::prelude::*;
use crate::anchor::AnchorConfig;
use crate::genesis_wait::{GenesisWaiter, HostEvent, WaitAction, WaitError, wait_step};
use crate::validation::{IndeterminateCause, InvalidReason, ValidationOutcome};

verus! {

/// Why the pipeline stopped.
#[derive(Debug, Clone, PartialEq, Eq)]
pub enum Termination {
    /// The host closed the notification channel; the highest tip seen, if any.
    HostDisconnected(Option<u64>),
    /// The acknowledgment of this height could not be delivered.
    AckFailed(u64),
    /// The host sent an event that the protocol does not allow; the highest
    /// tip seen, if any.
    ProtocolViolation(Option<u64>),
    /// The payload at this height was found invalid, for this reason.
    ValidationFailure { height: u64, reason: InvalidReason },
    /// The payload at this height stayed undecided through every allowed attempt.
    ExhaustedRetries(u64),
}

/// The four classes of failure.
#[derive(Debug, Clone, Copy, PartialEq, Eq, Structural)]
pub enum FailureClass {
    /// Found before the pipeline starts.
    Configuration,
    /// A broken host protocol, or retries used up.
    Protocol,
    /// A payload found invalid.
    Validation,
    /// A failure that a later attempt may not meet again.
    Transient,
}

impl Termination {
    /// Exhausted retries escalate a transient failure to the protocol class.
    pub open spec fn class_of(&self) -> FailureClass {
        match self {
            Termination::ValidationFailure { .. } => FailureClass::Validation,
            _ => FailureClass::Protocol,
        }
    }

    /// The class of failure that this reason belongs to.
    pub fn class(&self) -> (r: FailureClass)
        ensures
            r == self.class_of(),
    {
        match self {
            Termination::ValidationFailure { .. } => FailureClass::Validation,
            _ => FailureClass::Protocol,
        }
    }
}

/// Where the pipeline stands.
#[derive(Debug, Clone, PartialEq, Eq)]
pub enum Phase {
    WaitingForGenesis,
    Validating,
    Terminated(Termination),
}

/// What the loop around the driver has to do next.
#[derive(Debug, Clone, Copy, PartialEq, Eq, Structural)]
pub enum DriverAction {
    /// Receive the next notification from the host.
    RequestNotification,
    /// Tell the host that every block up to this height is finished.
    Acknowledge(u64),
    /// Obtain the derived payload at this height and validate it.
    ValidateNext(u64),
    /// Validate the payload at this height again after this many milliseconds.
    RetryAfter { height: u64, delay_ms: u64 },
    /// The outcome was for another height than the one under validation, or
    /// came before genesis; it is ignored.
    Refused,
    /// Stop the pipeline; the reason is in the driver's phase.
    Stop,
}

/// How undecided validations are retried.
#[derive(Debug, Clone, Copy, PartialEq, Eq, Structural)]
pub struct RetryPolicy {
    /// The number of consecutive undecided outcomes after which the pipeline stops.
    pub max_attempts: u64,
    /// The delay before the first retry.
    pub base_delay_ms: u64,
    /// The largest delay between two attempts.
    pub max_delay_ms: u64,
}

/// The delay before retry number `n` (from 1): the base delay doubled for each
/// earlier retry, never above the cap.
pub open spec fn backoff(base: u64, cap: u64, n: nat) -> u64
    decreases n,
{
    if n <= 1 {
        if base <= cap { base } else { cap }
    } else {
        let d = backoff(base, cap, (n - 1) as nat);
        if 2 * d <= cap { (2 * d) as u64 } else { cap }
    }
}

proof fn lemma_backoff_capped(base: u64, cap: u64, n: nat)
    ensures
        backoff(base, cap, n) <= cap,
    decreases n,
{
    if n > 1 {
        lemma_backoff_capped(base, cap, (n - 1) as nat);
    }
}

/// The delay before retry number `n` under `policy`.
pub fn backoff_delay(policy: &RetryPolicy, n: u64) -> (r: u64)
    ensures
        r == backoff(policy.base_delay_ms, policy.max_delay_ms, n as nat),
{
    let cap = policy.max_delay_ms;
    let mut d: u64 = if policy.base_delay_ms <= cap { policy.base_delay_ms } else { cap };
    let mut i: u64 = 1;
    while i < n
        invariant
            1 <= i,
            i <= n || i == 1,
            d == backoff(policy.base_delay_ms, cap, i as nat),
            cap == policy.max_delay_ms,
        decreases n - i,
    {
        proof {
            lemma_backoff_capped(policy.base_delay_ms, cap, i as nat);
        }
        d = if d <= cap - d { d + d } else { cap };
        i = i + 1;
    }
    assert(backoff(policy.base_delay_ms, cap, 0) == backoff(policy.base_delay_ms, cap, 1));
    d
}

/// The pipeline's state.
#[derive(Debug, Clone)]
pub struct PipelineDriver {
    pub waiter: GenesisWaiter,
    pub phase: Phase,
    /// The height of the last payload found valid.
    pub last_validated: Option<u64>,
    /// The height of the payload to validate next.
    pub next_height: u64,
    /// The consecutive undecided outcomes for the payload under validation.
    pub attempts: u64,
    pub policy: RetryPolicy,
}

/// The termination reason for a failed notification loop.
pub open spec fn wait_termination(e: WaitError) -> Termination {
    match e {
        WaitError::HostDisconnected(h) => Termination::HostDisconnected(h),
        WaitError::AckFailed(h) => Termination::AckFailed(h),
        WaitError::ProtocolViolation(h) => Termination::ProtocolViolation(h),
    }
}

/// The height after `h`, staying at the largest height.
pub open spec fn height_after(h: u64) -> u64 {
    if h < u64::MAX { (h + 1) as u64 } else { h }
}

/// The next state and action of driver `d` on the host event `e`.
pub open spec fn host_step(d: PipelineDriver, e: HostEvent) -> (PipelineDriver, DriverAction) {
    match d.phase {
        Phase::Terminated(_) => (d, DriverAction::Stop),
        _ => {
            let (w, a) = wait_step(d.waiter, e);
            let d2 = PipelineDriver { waiter: w, ..d };
            match a {
                WaitAction::RequestNext => (d2, DriverAction::RequestNotification),
                WaitAction::Acknowledge(t) => (d2, DriverAction::Acknowledge(t)),
                WaitAction::Synced(_) => if d.phase == Phase::WaitingForGenesis {
                    (
                        PipelineDriver { phase: Phase::Validating, attempts: 0, ..d2 },
                        DriverAction::ValidateNext(d.next_height),
                    )
                } else {
                    (d2, DriverAction::RequestNotification)
                },
                WaitAction::Fail(err) => (
                    PipelineDriver { phase: Phase::Terminated(wait_termination(err)), ..d2 },
                    DriverAction::Stop,
                ),
            }
        },
    }
}

/// The next state and action of driver `d` on the outcome `o` of validating
/// the payload at height `h`.
pub open spec fn outcome_step(d: PipelineDriver, h: u64, o: ValidationOutcome) -> (PipelineDriver, DriverAction) {
    match d.phase {
        Phase::Terminated(_) => (d, DriverAction::Stop),
        Phase::WaitingForGenesis => (d, DriverAction::Refused),
        Phase::Validating => if h != d.next_height {
            (d, DriverAction::Refused)
        } else {
            match o {
                ValidationOutcome::Valid => (
                    PipelineDriver { last_validated: Some(h), next_height: height_after(h), attempts: 0, ..d },
                    DriverAction::ValidateNext(height_after(h)),
                ),
                ValidationOutcome::Invalid(reason) => (
                    PipelineDriver {
                        phase: Phase::Terminated(Termination::ValidationFailure { height: h, reason }),
                        ..d
                    },
                    DriverAction::Stop,
                ),
                ValidationOutcome::Indeterminate(_) => if d.attempts + 1 >= d.policy.max_attempts {
                    (
                        PipelineDriver {
                            phase: Phase::Terminated(Termination::ExhaustedRetries(h)),
                            attempts: (d.attempts + 1) as u64,
                            ..d
                        },
                        DriverAction::Stop,
                    )
                } else {
                    (
                        PipelineDriver { attempts: (d.attempts + 1) as u64, ..d },
                        DriverAction::RetryAfter {
                            height: h,
                            delay_ms: backoff(d.policy.base_delay_ms, d.policy.max_delay_ms, (d.attempts + 1) as nat),
                        },
                    )
                },
            }
        },
    }
}

impl PipelineDriver {
    /// The driver's invariant: a live pipeline has a live notification loop
    /// that has reported genesis exactly when validation has begun; while
    /// validating, fewer undecided outcomes have been seen in a row than the
    /// policy allows, if any were seen; the last valid height is not above the
    /// next one.
    pub open spec fn wf(&self) -> bool {
        &&& !(self.phase is Terminated) ==> !self.waiter.done
        &&& self.phase == Phase::WaitingForGenesis ==> !self.waiter.announced
        &&& self.phase == Phase::Validating ==> self.waiter.announced
        &&& self.phase == Phase::Validating ==> (self.attempts == 0 || self.attempts < self.policy.max_attempts)
        &&& self.last_validated matches Some(v) ==> v <= self.next_height
    }

    /// A driver for the rollup anchored at `anchor`, waiting for its anchor
    /// block; the first payload to validate is the one after the rollup's
    /// genesis block.
    pub fn new(anchor: &AnchorConfig, policy: RetryPolicy) -> (r: PipelineDriver)
        ensures
            r.wf(),
            r.phase == Phase::WaitingForGenesis,
            r.waiter.gate.anchor_height == anchor.anchor_height,
            !r.waiter.gate.is_synced(),
            r.waiter.pending_ack is None,
            !r.waiter.announced,
            !r.waiter.done,
            r.last_validated is None,
            r.next_height == height_after(anchor.l2_genesis_height),
            r.attempts == 0,
            r.policy == policy,
    {
        let g = anchor.l2_genesis_height;
        PipelineDriver {
            waiter: GenesisWaiter::new(anchor.anchor_height),
            phase: Phase::WaitingForGenesis,
            last_validated: None,
            next_height: if g < u64::MAX { g + 1 } else { g },
            attempts: 0,
            policy,
        }
    }

    /// Decides what follows an event of the host channel. Committed segments
    /// are acknowledged before and after genesis alike.
    pub fn on_host_event(&mut self, e: HostEvent) -> (r: DriverAction)
        requires
            old(self).wf(),
        ensures
            (*final(self), r) == host_step(*old(self), e),
            final(self).wf(),
    {
        let waiting = match self.phase {
            Phase::Terminated(_) => {
                return DriverAction::Stop;
            },
            Phase::WaitingForGenesis => true,
            Phase::Validating => false,
        };
        match self.waiter.step(e) {
            WaitAction::RequestNext => DriverAction::RequestNotification,
            WaitAction::Acknowledge(t) => DriverAction::Acknowledge(t),
            WaitAction::Synced(_) => {
                if waiting {
                    self.phase = Phase::Validating;
                    self.attempts = 0;
                    DriverAction::ValidateNext(self.next_height)
                } else {
                    DriverAction::RequestNotification
                }
            },
            WaitAction::Fail(err) => {
                let t = match err {
                    WaitError::HostDisconnected(h) => Termination::HostDisconnected(h),
                    WaitError::AckFailed(h) => Termination::AckFailed(h),
                    WaitError::ProtocolViolation(h) => Termination::ProtocolViolation(h),
                };
                self.phase = Phase::Terminated(t);
                DriverAction::Stop
            },
        }
    }

    /// Decides what follows the outcome of validating the payload at height `h`.
    ///
    /// Only an outcome for the height under validation counts. A valid payload
    /// moves the cursor to `h` and asks for the next height; an invalid one
    /// stops the pipeline with its reason; an undecided one is retried after a
    /// growing delay until the policy's number of attempts in a row is used up.
    pub fn on_outcome(&mut self, h: u64, o: ValidationOutcome) -> (r: DriverAction)
        requires
            old(self).wf(),
        ensures
            (*final(self), r) == outcome_step(*old(self), h, o),
            final(self).wf(),
    {
        match self.phase {
            Phase::Terminated(_) => {
                return DriverAction::Stop;
            },
            Phase::WaitingForGenesis => {
                return DriverAction::Refused;
            },
            Phase::Validating => {},
        }
        if h != self.next_height {
            return DriverAction::Refused;
        }
        match o {
            ValidationOutcome::Valid => {
                self.last_validated = Some(h);
                self.next_height = if h < u64::MAX { h + 1 } else { h };
                self.attempts = 0;
                DriverAction::ValidateNext(self.next_height)
            },
            ValidationOutcome::Invalid(reason) => {
                self.phase = Phase::Terminated(Termination::ValidationFailure { height: h, reason });
                DriverAction::Stop
            },
            ValidationOutcome::Indeterminate(_) => {
                self.attempts = self.attempts + 1;
                if self.attempts >= self.policy.max_attempts {
                    self.phase = Phase::Terminated(Termination::ExhaustedRetries(h));
                    DriverAction::Stop
                } else {
                    let delay_ms = backoff_delay(&self.policy, self.attempts);
                    DriverAction::RetryAfter { height: h, delay_ms }
                }
            },
        }
    }
}

/// Whether `a` asks for another attempt at the payload at height `h`.
pub open spec fn is_retry_of(a: DriverAction, h: u64) -> bool {
    a matches DriverAction::RetryAfter { height, .. } && height == h
}

/// The state of driver `d` after `n` undecided outcomes in a row for the
/// payload at height `h`.
pub open spec fn undecided_run(d: PipelineDriver, h: u64, c: IndeterminateCause, n: nat) -> PipelineDriver
    decreases n,
{
    if n == 0 {
        d
    } else {
        outcome_step(undecided_run(d, h, c, (n - 1) as nat), h, ValidationOutcome::Indeterminate(c)).0
    }
}

proof fn lemma_undecided_prefix(d: PipelineDriver, h: u64, c: IndeterminateCause, k: nat)
    requires
        d.wf(),
        d.phase == Phase::Validating,
        d.next_height == h,
        d.attempts == 0,
        k < d.policy.max_attempts,
    ensures
        undecided_run(d, h, c, k).phase == Phase::Validating,
        undecided_run(d, h, c, k).attempts == k,
        undecided_run(d, h, c, k).policy == d.policy,
        undecided_run(d, h, c, k).next_height == h,
        undecided_run(d, h, c, k).last_validated == d.last_validated,
    decreases k,
{
    if k > 0 {
        lemma_undecided_prefix(d, h, c, (k - 1) as nat);
    }
}

/// From a driver validating height `h` with no undecided outcome yet, each
/// undecided outcome before the last allowed one asks for a retry of `h`, and
/// the outcome that uses up the policy's attempts stops the pipeline with
/// exhausted retries at `h`. The last valid height never changes on the way,
/// and a stopped pipeline asks for no further attempt.
pub proof fn lemma_retries_exhausted(d: PipelineDriver, h: u64, c: IndeterminateCause, o: ValidationOutcome)
    requires
        d.wf(),
        d.phase == Phase::Validating,
        d.next_height == h,
        d.attempts == 0,
        d.policy.max_attempts >= 1,
    ensures
        forall|k: nat| k + 1 < d.policy.max_attempts ==>
            is_retry_of(#[trigger] outcome_step(undecided_run(d, h, c, k), h, ValidationOutcome::Indeterminate(c)).1, h),
        forall|k: nat| k <= d.policy.max_attempts ==>
            (#[trigger] undecided_run(d, h, c, k)).last_validated == d.last_validated,
        outcome_step(
            undecided_run(d, h, c, (d.policy.max_attempts - 1) as nat),
            h,
            ValidationOutcome::Indeterminate(c),
        ).1 == DriverAction::Stop,
        undecided_run(d, h, c, d.policy.max_attempts as nat).phase
            == Phase::Terminated(Termination::ExhaustedRetries(h)),
        outcome_step(undecided_run(d, h, c, d.policy.max_attempts as nat), h, o).1 == DriverAction::Stop,
{
    assert forall|k: nat| k + 1 < d.policy.max_attempts implies
        is_retry_of(#[trigger] outcome_step(undecided_run(d, h, c, k), h, ValidationOutcome::Indeterminate(c)).1, h) by {
        lemma_undecided_prefix(d, h, c, k);
    }
    assert forall|k: nat| k <= d.policy.max_attempts implies
        (#[trigger] undecided_run(d, h, c, k)).last_validated == d.last_validated by {
        if k < d.policy.max_attempts {
            lemma_undecided_prefix(d, h, c, k);
        } else {
            lemma_undecided_prefix(d, h, c, (k - 1) as nat);
        }
    }
    lemma_undecided_prefix(d, h, c, (d.policy.max_attempts - 1) as nat);
}

/// Validated heights only grow: an outcome moves the cursor only when it is
/// valid and for the height under validation, and then to that height, which
/// is at least the previous one; the next height never goes down.
pub proof fn lemma_cursor_never_decreases(d: PipelineDriver, h: u64, o: ValidationOutcome)
    requires
        d.wf(),
    ensures
        outcome_step(d, h, o).0.next_height >= d.next_height,
        outcome_step(d, h, o).0.last_validated != d.last_validated ==> (o is Valid && h == d.next_height
            && d.phase == Phase::Validating && outcome_step(d, h, o).0.last_validated == Some(h)),
        d.last_validated matches Some(v) ==> (outcome_step(d, h, o).0.last_validated matches Some(v2) && v2 >= v),
{
}

/// A closed notification channel stops a live pipeline, before or after
/// genesis, as a host disconnection carrying the highest tip seen.
pub proof fn lemma_channel_closed_disconnects(d: PipelineDriver)
    requires
        d.wf(),
        !(d.phase is Terminated),
    ensures
        host_step(d, HostEvent::ChannelClosed).0.phase
            == Phase::Terminated(Termination::HostDisconnected(d.waiter.gate.highest_seen)),
        host_step(d, HostEvent::ChannelClosed).1 == DriverAction::Stop,
{
}

} // verus!
