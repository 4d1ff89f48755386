//! The life of a configuration handle.
//!
//! A handle is created, given its command line once, run once, and freed once. Running
//! blocks until the daemon is done; the handle may be freed before it runs or after the
//! run has returned, never while it runs. Nothing may be done with a freed handle, and the
//! daemon does not check that: whoever holds the handle has to. This module is that rule
//! as a state machine, so that a caller can ask before each call whether it is in order.

use vstd::prelude::*;

verus! {

/// Where a handle is in its life.
#[derive(Clone, Copy, Debug, PartialEq, Eq, Structural)]
pub enum HandleState {
    /// No handle has been created yet.
    Uninitialized,
    /// The handle exists; it has no command line.
    Created,
    /// The handle has its command line.
    Configured,
    /// The daemon runs on the handle; the call has not returned.
    Running,
    /// The run has returned.
    Terminated,
    /// The handle is gone.
    Freed,
}

/// What happens to a handle.
#[derive(Clone, Copy, Debug, PartialEq, Eq, Structural)]
pub enum HandleEvent {
    /// A handle was asked for; `allocated` is false where none came back.
    Create { allocated: bool },
    /// The command line is set.
    SetCommandLine,
    /// The daemon is started.
    Run,
    /// The daemon is done and the run returns.
    Return,
    /// The handle is freed.
    Free,
}

impl HandleState {
    /// The state after `event`, or nothing where `event` is not in order in this state.
    pub open spec fn next(self, event: HandleEvent) -> Option<HandleState> {
        match (self, event) {
            (HandleState::Uninitialized, HandleEvent::Create { allocated }) => Some(
                if allocated {
                    HandleState::Created
                } else {
                    HandleState::Uninitialized
                },
            ),
            (HandleState::Created, HandleEvent::SetCommandLine) => Some(HandleState::Configured),
            (HandleState::Configured, HandleEvent::Run) => Some(HandleState::Running),
            (HandleState::Running, HandleEvent::Return) => Some(HandleState::Terminated),
            (HandleState::Created, HandleEvent::Free) => Some(HandleState::Freed),
            (HandleState::Configured, HandleEvent::Free) => Some(HandleState::Freed),
            (HandleState::Terminated, HandleEvent::Free) => Some(HandleState::Freed),
            _ => None,
        }
    }

    /// How far the life has come.
    pub open spec fn rank(self) -> nat {
        match self {
            HandleState::Uninitialized => 0,
            HandleState::Created => 1,
            HandleState::Configured => 2,
            HandleState::Running => 3,
            HandleState::Terminated => 4,
            HandleState::Freed => 5,
        }
    }

    /// Whether there is a handle that still has to be freed.
    pub open spec fn holds_handle(self) -> bool {
        self != HandleState::Uninitialized && self != HandleState::Freed
    }

    /// The state after `event`, or `None` where `event` is not in order in this state.
    pub fn after(self, event: HandleEvent) -> (state: Option<HandleState>)
        ensures
            state == self.next(event),
    {
        match (self, event) {
            (HandleState::Uninitialized, HandleEvent::Create { allocated }) => {
                if allocated {
                    Some(HandleState::Created)
                } else {
                    Some(HandleState::Uninitialized)
                }
            },
            (HandleState::Created, HandleEvent::SetCommandLine) => Some(HandleState::Configured),
            (HandleState::Configured, HandleEvent::Run) => Some(HandleState::Running),
            (HandleState::Running, HandleEvent::Return) => Some(HandleState::Terminated),
            (HandleState::Created, HandleEvent::Free) => Some(HandleState::Freed),
            (HandleState::Configured, HandleEvent::Free) => Some(HandleState::Freed),
            (HandleState::Terminated, HandleEvent::Free) => Some(HandleState::Freed),
            _ => None,
        }
    }

    /// Whether `event` is in order in this state.
    pub fn permits(self, event: HandleEvent) -> (yes: bool)
        ensures
            yes == self.next(event) is Some,
    {
        self.after(event).is_some()
    }

    /// Whether there is a handle that still has to be freed.
    pub fn has_handle(self) -> (yes: bool)
        ensures
            yes == self.holds_handle(),
    {
        match self {
            HandleState::Uninitialized => false,
            HandleState::Freed => false,
            _ => true,
        }
    }
}

/// The state that `events`, taken in order from `start`, lead to, or nothing where one of
/// them is not in order when its turn comes.
pub open spec fn outcome(start: HandleState, events: Seq<HandleEvent>) -> Option<HandleState>
    decreases events.len(),
{
    if events.len() == 0 {
        Some(start)
    } else {
        match outcome(start, events.drop_last()) {
            Some(state) => state.next(events.last()),
            None => None,
        }
    }
}

/// The state that `events`, taken in order from `start`, lead to, or `None` where one of
/// them is not in order when its turn comes.
pub fn replay(start: HandleState, events: &Vec<HandleEvent>) -> (end: Option<HandleState>)
    ensures
        end == outcome(start, events@),
{
    let mut state = start;
    let mut i: usize = 0;
    while i < events.len()
        invariant
            i <= events.len(),
            outcome(start, events@.take(i as int)) == Some(state),
        decreases events.len() - i,
    {
        proof {
            assert(events@.take(i + 1).drop_last() == events@.take(i as int));
        }
        match state.after(events[i]) {
            Some(then) => {
                state = then;
            },
            None => {
                proof {
                    lemma_outcome_needs_prefix(start, events@, i + 1);
                }
                return None;
            },
        }
        i += 1;
    }
    proof {
        assert(events@.take(i as int) == events@);
    }
    Some(state)
}

/// Whether a status that the daemon returned, from setting the command line or from
/// running, reports success: zero does, every other value is a failure of the daemon's.
pub fn status_is_success(status: i32) -> (yes: bool)
    ensures
        yes == (status == 0),
{
    status == 0
}

/// Where a sequence of events is in order, so is each of its beginnings.
pub proof fn lemma_outcome_needs_prefix(start: HandleState, events: Seq<HandleEvent>, n: int)
    requires
        0 <= n <= events.len(),
        outcome(start, events.take(n)) is None,
    ensures
        outcome(start, events) is None,
    decreases events.len(),
{
    if n < events.len() {
        assert(events.drop_last().take(n) == events.take(n));
        lemma_outcome_needs_prefix(start, events.drop_last(), n);
    } else {
        assert(events.take(n) == events);
    }
}

/// A life only moves on: each event that is in order takes the handle to a later state,
/// but for the creation that gave no handle, which leaves everything as it was.
pub proof fn lemma_moves_on(state: HandleState, event: HandleEvent)
    requires
        state.next(event) is Some,
    ensures
        state.next(event)->0.rank() > state.rank() || (state == HandleState::Uninitialized
            && event == (HandleEvent::Create { allocated: false }) && state.next(event)
            == Some(state)),
{
}

/// Nothing is in order on a freed handle: not a second free, nor any other use.
pub proof fn lemma_freed_is_final(event: HandleEvent)
    ensures
        HandleState::Freed.next(event) is None,
{
}

/// A handle is never freed while the daemon runs on it.
pub proof fn lemma_no_free_while_running()
    ensures
        HandleState::Running.next(HandleEvent::Free) is None,
{
}

/// A free ends the life: where a sequence of events is in order, a free in it is its
/// last event. So no handle is freed twice, and none is used after it was freed.
pub proof fn lemma_free_is_last(start: HandleState, events: Seq<HandleEvent>, i: int)
    requires
        outcome(start, events) is Some,
        0 <= i < events.len(),
        events[i] == HandleEvent::Free,
    ensures
        i == events.len() - 1,
        outcome(start, events) == Some(HandleState::Freed),
    decreases events.len(),
{
    let before = events.drop_last();
    if i < events.len() - 1 {
        assert(before[i] == events[i]);
        lemma_free_is_last(start, before, i);
        assert(outcome(start, before) == Some(HandleState::Freed));
        lemma_freed_is_final(events.last());
    }
}

/// A handle that exists can always be freed in the end: from every state that holds one
/// there is a way to `Freed`, at once or, while the daemon runs, after its return.
pub proof fn lemma_can_be_freed(state: HandleState)
    requires
        state.holds_handle(),
    ensures
        state == HandleState::Running ==> outcome(
            state,
            seq![HandleEvent::Return, HandleEvent::Free],
        ) == Some(HandleState::Freed),
        state != HandleState::Running ==> outcome(state, seq![HandleEvent::Free]) == Some(
            HandleState::Freed,
        ),
{
    let one = seq![HandleEvent::Free];
    let two = seq![HandleEvent::Return, HandleEvent::Free];
    assert(one.drop_last() =~= Seq::<HandleEvent>::empty());
    assert(two.drop_last() =~= seq![HandleEvent::Return]);
    assert(two.drop_last().drop_last() =~= Seq::<HandleEvent>::empty());
    reveal_with_fuel(outcome, 3);
}

/// The daemon only ever runs on a handle that has its command line: where a sequence of
/// events from the very beginning is in order, a run in it directly follows the setting
/// of the command line.
pub proof fn lemma_run_follows_configuration(events: Seq<HandleEvent>, i: int)
    requires
        outcome(HandleState::Uninitialized, events) is Some,
        0 <= i < events.len(),
        events[i] == HandleEvent::Run,
    ensures
        i > 0,
        events[i - 1] == HandleEvent::SetCommandLine,
    decreases events.len(),
{
    let start = HandleState::Uninitialized;
    let before = events.drop_last();
    if i < events.len() - 1 {
        assert(before[i] == events[i]);
        lemma_run_follows_configuration(before, i);
        assert(before[i - 1] == events[i - 1]);
    } else {
        // The run is the last event, so the state before it is `Configured`, and only
        // the setting of the command line leads there.
        assert(outcome(start, before) == Some(HandleState::Configured));
        assert(before.len() > 0);
        assert(before.last() == events[i - 1]);
    }
}

} // verus!
