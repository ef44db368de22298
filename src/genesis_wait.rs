//! Waiting for the anchor block: the decisions of the notification loop.
//!
//! The host delivers chain-commit notifications one at a time and expects a
//! "finished height" acknowledgment for each committed tip before the next
//! notification is taken. The loop that receives and sends lives outside; it
//! hands each happening to [`GenesisWaiter::step`] and performs the action that
//! comes back.
use vstd::prelude::*;
use crate::gate::{GenesisSyncGate, raise_highest, reaches, first_reaching};

verus! {

/// What happened at the host channel.
#[derive(Debug, Clone, Copy, PartialEq, Eq, Structural)]
pub enum HostEvent {
    /// A notification whose committed chain segment ends at this tip height.
    Committed(u64),
    /// A notification that carries no committed chain segment.
    NoCommittedChain,
    /// The notification channel was closed by the host.
    ChannelClosed,
    /// The last requested acknowledgment was delivered.
    AckSent,
    /// The host refused the last requested acknowledgment.
    AckRejected,
}

/// Why the notification loop stopped. Each error carries the highest tip
/// height seen so far, if any, or the height whose acknowledgment failed.
#[derive(Debug, Clone, Copy, PartialEq, Eq, Structural)]
pub enum WaitError {
    /// The notification channel closed.
    HostDisconnected(Option<u64>),
    /// The acknowledgment of this height could not be delivered.
    AckFailed(u64),
    /// An event arrived that the protocol does not allow in the current state.
    ProtocolViolation(Option<u64>),
}

/// What the notification loop has to do next.
#[derive(Debug, Clone, Copy, PartialEq, Eq, Structural)]
pub enum WaitAction {
    /// Receive the next notification.
    RequestNext,
    /// Tell the host that every block up to this height is finished.
    Acknowledge(u64),
    /// The anchor block was reached at this acknowledged tip. Reported once;
    /// later notifications are still acknowledged.
    Synced(u64),
    /// Stop with this error.
    Fail(WaitError),
}

/// The state of the notification loop.
#[derive(Debug, Clone, Copy)]
pub struct GenesisWaiter {
    pub gate: GenesisSyncGate,
    /// The tip whose acknowledgment was requested and not yet confirmed.
    pub pending_ack: Option<u64>,
    /// Set once `Synced` has been reported.
    pub announced: bool,
    /// Set once the loop has failed.
    pub done: bool,
}

/// The next state and action of a waiter `w` on the event `e`.
pub open spec fn wait_step(w: GenesisWaiter, e: HostEvent) -> (GenesisWaiter, WaitAction) {
    let seen = w.gate.highest_seen;
    if w.done {
        (w, WaitAction::Fail(WaitError::ProtocolViolation(seen)))
    } else {
        match e {
            HostEvent::ChannelClosed =>
                (GenesisWaiter { done: true, ..w }, WaitAction::Fail(WaitError::HostDisconnected(seen))),
            HostEvent::Committed(tip) => match w.pending_ack {
                Some(_) => (GenesisWaiter { done: true, ..w }, WaitAction::Fail(WaitError::ProtocolViolation(seen))),
                None => {
                    let synced = w.gate.is_synced() || tip >= w.gate.anchor_height;
                    let g = GenesisSyncGate {
                        highest_seen: raise_highest(w.gate.highest_seen, tip),
                        state: if synced { crate::gate::SyncState::Synced } else { crate::gate::SyncState::WaitingForGenesis },
                        ..w.gate
                    };
                    (GenesisWaiter { gate: g, pending_ack: Some(tip), ..w }, WaitAction::Acknowledge(tip))
                },
            },
            HostEvent::NoCommittedChain => match w.pending_ack {
                Some(_) => (GenesisWaiter { done: true, ..w }, WaitAction::Fail(WaitError::ProtocolViolation(seen))),
                None => (w, WaitAction::RequestNext),
            },
            HostEvent::AckSent => match w.pending_ack {
                Some(tip) => if w.gate.is_synced() && !w.announced {
                    (GenesisWaiter { pending_ack: None, announced: true, ..w }, WaitAction::Synced(tip))
                } else {
                    (GenesisWaiter { pending_ack: None, ..w }, WaitAction::RequestNext)
                },
                None => (GenesisWaiter { done: true, ..w }, WaitAction::Fail(WaitError::ProtocolViolation(seen))),
            },
            HostEvent::AckRejected => match w.pending_ack {
                Some(tip) => (GenesisWaiter { done: true, ..w }, WaitAction::Fail(WaitError::AckFailed(tip))),
                None => (GenesisWaiter { done: true, ..w }, WaitAction::Fail(WaitError::ProtocolViolation(seen))),
            },
        }
    }
}

impl GenesisWaiter {
    /// A waiter for the anchor height `anchor_height`; its first action is to
    /// request a notification.
    pub fn new(anchor_height: u64) -> (r: GenesisWaiter)
        ensures
            r.gate.anchor_height == anchor_height,
            r.gate.highest_seen is None,
            !r.gate.is_synced(),
            r.pending_ack is None,
            !r.announced,
            !r.done,
    {
        GenesisWaiter { gate: GenesisSyncGate::new(anchor_height), pending_ack: None, announced: false, done: false }
    }

    /// Decides what follows the event `e`.
    ///
    /// A committed tip goes through the tracker and is acknowledged before
    /// anything else is asked of the host; the next notification is requested
    /// only once that acknowledgment is confirmed. After the acknowledgment of
    /// the first tip at or above the anchor height it reports `Synced`, once.
    /// It fails when the channel closes or an acknowledgment is refused.
    pub fn step(&mut self, e: HostEvent) -> (r: WaitAction)
        ensures
            (*final(self), r) == wait_step(*old(self), e),
    {
        let seen = self.gate.highest_seen;
        if self.done {
            return WaitAction::Fail(WaitError::ProtocolViolation(seen));
        }
        match e {
            HostEvent::ChannelClosed => {
                self.done = true;
                WaitAction::Fail(WaitError::HostDisconnected(seen))
            },
            HostEvent::Committed(tip) => match self.pending_ack {
                Some(_) => {
                    self.done = true;
                    WaitAction::Fail(WaitError::ProtocolViolation(seen))
                },
                None => {
                    self.gate.process(tip);
                    self.pending_ack = Some(tip);
                    WaitAction::Acknowledge(tip)
                },
            },
            HostEvent::NoCommittedChain => match self.pending_ack {
                Some(_) => {
                    self.done = true;
                    WaitAction::Fail(WaitError::ProtocolViolation(seen))
                },
                None => WaitAction::RequestNext,
            },
            HostEvent::AckSent => match self.pending_ack {
                Some(tip) => {
                    self.pending_ack = None;
                    if self.gate.synced() && !self.announced {
                        self.announced = true;
                        WaitAction::Synced(tip)
                    } else {
                        WaitAction::RequestNext
                    }
                },
                None => {
                    self.done = true;
                    WaitAction::Fail(WaitError::ProtocolViolation(seen))
                },
            },
            HostEvent::AckRejected => {
                let r = match self.pending_ack {
                    Some(tip) => WaitAction::Fail(WaitError::AckFailed(tip)),
                    None => WaitAction::Fail(WaitError::ProtocolViolation(seen)),
                };
                self.done = true;
                r
            },
        }
    }
}

/// The state of a waiter that started as `w` after the first `n` events of `events`.
pub open spec fn wait_state_after(w: GenesisWaiter, events: Seq<HostEvent>, n: nat) -> GenesisWaiter
    decreases n,
{
    if n == 0 {
        w
    } else {
        wait_step(wait_state_after(w, events, (n - 1) as nat), events[n - 1]).0
    }
}

/// The action that a waiter started as `w` takes on the event `events[i]`.
pub open spec fn wait_action_at(w: GenesisWaiter, events: Seq<HostEvent>, i: int) -> WaitAction {
    wait_step(wait_state_after(w, events, i as nat), events[i]).1
}

/// Whether some event at an index in `lo < m <= hi` is a confirmed acknowledgment.
pub open spec fn ack_confirmed_between(events: Seq<HostEvent>, lo: int, hi: int) -> bool {
    exists|m: int| lo < m <= hi && events[m] == HostEvent::AckSent
}

proof fn lemma_pending_until_confirmed(w: GenesisWaiter, events: Seq<HostEvent>, i: int, k: int)
    requires
        0 <= i < k <= events.len(),
        wait_action_at(w, events, i) is Acknowledge,
        !ack_confirmed_between(events, i, k - 1),
    ensures
        wait_state_after(w, events, k as nat).pending_ack is Some
            || wait_state_after(w, events, k as nat).done,
    decreases k - i,
{
    if k > i + 1 {
        lemma_pending_until_confirmed(w, events, i, k - 1);
        assert(events[k - 1] != HostEvent::AckSent);
    }
}

/// In every run of a waiter, the next notification is never requested while a
/// committed tip waits for its acknowledgment: between an `Acknowledge` action
/// and any later `RequestNext` the host has confirmed an acknowledgment.
pub proof fn lemma_ack_before_next_request(w: GenesisWaiter, events: Seq<HostEvent>, i: int, k: int)
    requires
        0 <= i < k < events.len(),
        wait_action_at(w, events, i) is Acknowledge,
        wait_action_at(w, events, k) is RequestNext,
    ensures
        ack_confirmed_between(events, i, k),
{
    if !ack_confirmed_between(events, i, k) {
        assert(!ack_confirmed_between(events, i, k - 1));
        lemma_pending_until_confirmed(w, events, i, k);
        assert(events[k] != HostEvent::AckSent);
    }
}

/// Every accepted committed tip is acknowledged at its own height at once.
pub proof fn lemma_committed_tip_acknowledged(w: GenesisWaiter, tip: u64)
    requires
        !w.done,
        w.pending_ack is None,
    ensures
        wait_step(w, HostEvent::Committed(tip)).1 == WaitAction::Acknowledge(tip),
        wait_step(w, HostEvent::Committed(tip)).0.pending_ack == Some(tip),
        wait_step(w, HostEvent::Committed(tip)).0.gate.is_synced()
            == (w.gate.is_synced() || tip >= w.gate.anchor_height),
{
}

proof fn lemma_announced_stays(w: GenesisWaiter, events: Seq<HostEvent>, i: nat, k: nat)
    requires
        i <= k <= events.len(),
        wait_state_after(w, events, i).announced,
    ensures
        wait_state_after(w, events, k).announced,
    decreases k - i,
{
    if k > i {
        lemma_announced_stays(w, events, i, (k - 1) as nat);
    }
}

/// In every run of a waiter, `Synced` is reported at most once: a second
/// genesis transition never follows the first.
pub proof fn lemma_synced_reported_once(w: GenesisWaiter, events: Seq<HostEvent>, i: int, k: int)
    requires
        0 <= i < events.len(),
        0 <= k < events.len(),
        wait_action_at(w, events, i) is Synced,
        wait_action_at(w, events, k) is Synced,
    ensures
        i == k,
{
    if i < k {
        lemma_announced_stays(w, events, (i + 1) as nat, k as nat);
    } else if k < i {
        lemma_announced_stays(w, events, (k + 1) as nat, i as nat);
    }
}

/// The events of a run in which every committed tip of `tips` is delivered in
/// order and each acknowledgment is confirmed before the next notification.
pub open spec fn acked_events(tips: Seq<u64>) -> Seq<HostEvent> {
    Seq::new(2 * tips.len(), |i: int| if i % 2 == 0 { HostEvent::Committed(tips[i / 2]) } else { HostEvent::AckSent })
}

/// Whether `w` is a fresh waiter for the anchor height `anchor`.
pub open spec fn fresh_waiter(w: GenesisWaiter, anchor: u64) -> bool {
    &&& w.gate.anchor_height == anchor
    &&& !w.gate.is_synced()
    &&& w.pending_ack is None
    &&& !w.announced
    &&& !w.done
}

proof fn lemma_acked_prefix(w: GenesisWaiter, anchor: u64, tips: Seq<u64>, j: nat)
    requires
        fresh_waiter(w, anchor),
        j <= tips.len(),
    ensures
        !wait_state_after(w, acked_events(tips), 2 * j).done,
        wait_state_after(w, acked_events(tips), 2 * j).pending_ack is None,
        wait_state_after(w, acked_events(tips), 2 * j).gate.anchor_height == anchor,
        wait_state_after(w, acked_events(tips), 2 * j).gate.is_synced() == reaches(anchor, tips.subrange(0, j as int)),
        wait_state_after(w, acked_events(tips), 2 * j).announced == reaches(anchor, tips.subrange(0, j as int)),
    decreases j,
{
    let ev = acked_events(tips);
    if j > 0 {
        let p = (j - 1) as nat;
        lemma_acked_prefix(w, anchor, tips, p);
        assert((2 * p) % 2 == 0 && (2 * p) / 2 == p) by (nonlinear_arith);
        assert((2 * p + 1) % 2 == 1) by (nonlinear_arith);
        assert(ev[2 * p as int] == HostEvent::Committed(tips[p as int]));
        assert(ev[2 * p as int + 1] == HostEvent::AckSent);
        assert(2 * j == 2 * p + 2);
        let s0 = wait_state_after(w, ev, 2 * p);
        let s1 = wait_state_after(w, ev, 2 * p + 1);
        assert(s1 == wait_step(s0, ev[2 * p as int]).0);
        assert(wait_state_after(w, ev, 2 * p + 2) == wait_step(s1, ev[2 * p as int + 1]).0);
        let before = tips.subrange(0, p as int);
        let after = tips.subrange(0, j as int);
        assert(reaches(anchor, after) == (reaches(anchor, before) || tips[p as int] >= anchor)) by {
            if reaches(anchor, before) {
                let i = choose|i: int| 0 <= i < before.len() && before[i] >= anchor;
                assert(after[i] == before[i]);
            }
            if tips[p as int] >= anchor {
                assert(after[p as int] == tips[p as int]);
            }
            if reaches(anchor, after) && tips[p as int] < anchor {
                let i = choose|i: int| 0 <= i < after.len() && after[i] >= anchor;
                assert(before[i] == after[i]);
            }
        }
    }
}

/// When every committed tip is delivered in order and each acknowledgment is
/// confirmed, a fresh waiter acknowledges each tip at its own height, and
/// reports `Synced` after the acknowledgment of exactly the first tip at or
/// above the anchor height, whatever heights were skipped before it; after
/// every other acknowledgment it requests the next notification.
pub proof fn lemma_acked_run(w: GenesisWaiter, anchor: u64, tips: Seq<u64>, j: int)
    requires
        fresh_waiter(w, anchor),
        0 <= j < tips.len(),
    ensures
        wait_action_at(w, acked_events(tips), 2 * j) == WaitAction::Acknowledge(tips[j]),
        wait_action_at(w, acked_events(tips), 2 * j + 1) == (if first_reaching(anchor, tips, j) {
            WaitAction::Synced(tips[j])
        } else {
            WaitAction::RequestNext
        }),
{
    let ev = acked_events(tips);
    lemma_acked_prefix(w, anchor, tips, j as nat);
    assert((2 * j) % 2 == 0 && (2 * j) / 2 == j) by (nonlinear_arith) requires j >= 0;
    assert((2 * j + 1) % 2 == 1) by (nonlinear_arith) requires j >= 0;
    assert(ev[2 * j] == HostEvent::Committed(tips[j]));
    assert(ev[2 * j + 1] == HostEvent::AckSent);
    let before = tips.subrange(0, j);
    assert(reaches(anchor, before) == exists|i: int| 0 <= i < j && tips[i] >= anchor) by {
        if reaches(anchor, before) {
            let i = choose|i: int| 0 <= i < before.len() && before[i] >= anchor;
            assert(tips[i] == before[i]);
        }
        if exists|i: int| 0 <= i < j && tips[i] >= anchor {
            let i = choose|i: int| 0 <= i < j && tips[i] >= anchor;
            assert(before[i] == tips[i]);
        }
    }
}

} // verus!
