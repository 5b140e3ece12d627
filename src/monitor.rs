//! The decisions of a monitor session: when to run a cleanup cycle and
//! when to stop. The caller waits for events and performs the actions.
use vstd::prelude::*;

verus! {

/// Why a session ended.
#[derive(Clone, Copy, Debug, PartialEq, Eq, Structural)]
pub enum StopReason {
    Timeout,
    Cancelled,
}

/// Where a session stands.
#[derive(Clone, Copy, Debug, PartialEq, Eq, Structural)]
pub enum MonitorState {
    Idle,
    Running,
    Stopped(StopReason),
}

/// What the caller observed.
#[derive(Clone, Copy, Debug, PartialEq, Eq, Structural)]
pub enum MonitorEvent {
    /// The session begins.
    Start,
    /// The interval timer fired.
    Tick,
    /// The configured session length has passed.
    TimeoutElapsed,
    /// The operator asked to stop.
    CancelRequested,
}

/// What the caller must do next.
#[derive(Clone, Copy, Debug, PartialEq, Eq, Structural)]
pub enum MonitorAction {
    /// Run one cleanup cycle to completion, then wait for the next event.
    RunCycle,
    /// Wait for the next event.
    Wait,
    /// End the session.
    Stop,
}

/// The state after `event` in state `s`. A session runs once it starts,
/// and stops on cancellation, or on the timeout when one is configured;
/// a stopped session stays stopped.
pub open spec fn next_state(s: MonitorState, has_timeout: bool, event: MonitorEvent) -> MonitorState {
    match s {
        MonitorState::Idle => match event {
            MonitorEvent::Start => MonitorState::Running,
            _ => MonitorState::Idle,
        },
        MonitorState::Running => match event {
            MonitorEvent::CancelRequested => MonitorState::Stopped(StopReason::Cancelled),
            MonitorEvent::TimeoutElapsed => if has_timeout {
                MonitorState::Stopped(StopReason::Timeout)
            } else {
                MonitorState::Running
            },
            _ => MonitorState::Running,
        },
        MonitorState::Stopped(reason) => MonitorState::Stopped(reason),
    }
}

/// The action for `event` in state `s`: a cycle on entry to running and on
/// every tick while running, a stop once stopped, otherwise a wait.
pub open spec fn next_action(s: MonitorState, has_timeout: bool, event: MonitorEvent) -> MonitorAction {
    match (s, event) {
        (MonitorState::Idle, MonitorEvent::Start) => MonitorAction::RunCycle,
        (MonitorState::Running, MonitorEvent::Tick) => MonitorAction::RunCycle,
        _ => if next_state(s, has_timeout, event) is Stopped {
            MonitorAction::Stop
        } else {
            MonitorAction::Wait
        },
    }
}

/// The state after the events `events`, starting from `s`.
pub open spec fn state_after(s: MonitorState, has_timeout: bool, events: Seq<MonitorEvent>) -> MonitorState
    decreases events.len(),
{
    if events.len() == 0 {
        s
    } else {
        next_state(state_after(s, has_timeout, events.drop_last()), has_timeout, events.last())
    }
}

/// The number of cycles run over the events `events`, starting from `s`.
pub open spec fn cycles_after(s: MonitorState, has_timeout: bool, events: Seq<MonitorEvent>) -> nat
    decreases events.len(),
{
    if events.len() == 0 {
        0
    } else {
        let before = state_after(s, has_timeout, events.drop_last());
        cycles_after(s, has_timeout, events.drop_last()) + if next_action(
            before,
            has_timeout,
            events.last(),
        ) is RunCycle {
            1nat
        } else {
            0nat
        }
    }
}

/// Whatever the events, a session that has left the idle state has run at
/// least one cycle: a session cancelled at once has still cleaned once.
pub proof fn lemma_cycle_before_stop(has_timeout: bool, events: Seq<MonitorEvent>)
    ensures
        !(state_after(MonitorState::Idle, has_timeout, events) is Idle) ==> cycles_after(
            MonitorState::Idle,
            has_timeout,
            events,
        ) >= 1,
    decreases events.len(),
{
    if events.len() > 0 {
        lemma_cycle_before_stop(has_timeout, events.drop_last());
    }
}

/// A session that has stopped stays stopped, for the same reason, and runs
/// no more cycles.
pub proof fn lemma_stop_is_final(s: MonitorState, has_timeout: bool, events: Seq<MonitorEvent>)
    requires
        s is Stopped,
    ensures
        state_after(s, has_timeout, events) == s,
        cycles_after(s, has_timeout, events) == 0,
    decreases events.len(),
{
    if events.len() > 0 {
        lemma_stop_is_final(s, has_timeout, events.drop_last());
    }
}

/// A monitor session: its state, whether a timeout was configured, and the
/// cycles run so far.
pub struct Monitor {
    state: MonitorState,
    has_timeout: bool,
    cycles: u64,
}

impl Monitor {
    pub closed spec fn state_spec(&self) -> MonitorState {
        self.state
    }

    pub closed spec fn has_timeout_spec(&self) -> bool {
        self.has_timeout
    }

    pub closed spec fn cycles_spec(&self) -> nat {
        self.cycles as nat
    }

    /// An idle session; `has_timeout` says whether it has a bounded length.
    pub fn new(has_timeout: bool) -> (r: Self)
        ensures
            r.state_spec() == MonitorState::Idle,
            r.has_timeout_spec() == has_timeout,
            r.cycles_spec() == 0,
    {
        Monitor { state: MonitorState::Idle, has_timeout, cycles: 0 }
    }

    pub fn state(&self) -> (r: MonitorState)
        ensures
            r == self.state_spec(),
    {
        self.state
    }

    /// The cycles run so far (it stops counting at `u64::MAX`).
    pub fn cycles(&self) -> (r: u64)
        ensures
            r == self.cycles_spec(),
    {
        self.cycles
    }

    /// Takes in `event` and says what to do.
    pub fn handle(&mut self, event: MonitorEvent) -> (a: MonitorAction)
        ensures
            a == next_action(old(self).state_spec(), old(self).has_timeout_spec(), event),
            final(self).state_spec() == next_state(old(self).state_spec(), old(self).has_timeout_spec(), event),
            final(self).has_timeout_spec() == old(self).has_timeout_spec(),
            final(self).cycles_spec() == if a is RunCycle && old(self).cycles_spec() < u64::MAX {
                old(self).cycles_spec() + 1
            } else {
                old(self).cycles_spec()
            },
    {
        let (state, action) = match (self.state, event) {
            (MonitorState::Idle, MonitorEvent::Start) => (MonitorState::Running, MonitorAction::RunCycle),
            (MonitorState::Idle, _) => (MonitorState::Idle, MonitorAction::Wait),
            (MonitorState::Running, MonitorEvent::Tick) => (MonitorState::Running, MonitorAction::RunCycle),
            (MonitorState::Running, MonitorEvent::CancelRequested) => (
                MonitorState::Stopped(StopReason::Cancelled),
                MonitorAction::Stop,
            ),
            (MonitorState::Running, MonitorEvent::TimeoutElapsed) => if self.has_timeout {
                (MonitorState::Stopped(StopReason::Timeout), MonitorAction::Stop)
            } else {
                (MonitorState::Running, MonitorAction::Wait)
            },
            (MonitorState::Running, MonitorEvent::Start) => (MonitorState::Running, MonitorAction::Wait),
            (MonitorState::Stopped(reason), _) => (MonitorState::Stopped(reason), MonitorAction::Stop),
        };
        self.state = state;
        if action == MonitorAction::RunCycle && self.cycles < u64::MAX {
            self.cycles = self.cycles + 1;
        }
        action
    }
}

} // verus!
