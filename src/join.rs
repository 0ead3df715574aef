//! Network bring-up: authenticate until the network accepts, then release
//! the routines that depend on it, exactly once.
use vstd::prelude::*;

verus! {

/// Bring-up progress.
#[derive(Clone, Copy, Debug, PartialEq, Eq, Structural)]
pub enum JoinState {
    /// The link is not up yet.
    LinkDown,
    /// Join attempts are being made.
    Joining,
    /// The network accepted; dependent routines have been released.
    Joined,
}

/// What the caller observed.
#[derive(Clone, Copy, Debug, PartialEq, Eq, Structural)]
pub enum JoinEvent {
    /// The link came up and join attempts may start.
    LinkUp,
    /// The last join attempt succeeded.
    AttemptSucceeded,
    /// The last join attempt failed with this status code.
    AttemptFailed { status: u32 },
}

/// What the caller must do next.
#[derive(Clone, Copy, Debug, PartialEq, Eq, Structural)]
pub enum JoinAction {
    /// Make one join attempt and report its outcome (failures are retried at
    /// once, with no back-off and no limit).
    Attempt,
    /// Start the time-sync and indicator routines.
    ReleaseRoutines,
    /// Nothing to do.
    Nothing,
}

/// One step of bring-up: the next state and the action for `e` in state `s`.
pub open spec fn join_next(s: JoinState, e: JoinEvent) -> (JoinState, JoinAction) {
    match (s, e) {
        (JoinState::LinkDown, JoinEvent::LinkUp) => (JoinState::Joining, JoinAction::Attempt),
        (JoinState::Joining, JoinEvent::AttemptFailed { .. }) => (
            JoinState::Joining,
            JoinAction::Attempt,
        ),
        (JoinState::Joining, JoinEvent::AttemptSucceeded) => (
            JoinState::Joined,
            JoinAction::ReleaseRoutines,
        ),
        _ => (s, JoinAction::Nothing),
    }
}

/// The state reached from `s` after the events `ev`, in order.
pub open spec fn join_run(s: JoinState, ev: Seq<JoinEvent>) -> JoinState
    decreases ev.len(),
{
    if ev.len() == 0 {
        s
    } else {
        join_run(join_next(s, ev[0]).0, ev.drop_first())
    }
}

/// How many times `a` is asked for from `s` over the events `ev`.
pub open spec fn action_count(s: JoinState, ev: Seq<JoinEvent>, a: JoinAction) -> nat
    decreases ev.len(),
{
    if ev.len() == 0 {
        0
    } else {
        let (t, b) = join_next(s, ev[0]);
        (if b == a { 1nat } else { 0nat }) + action_count(t, ev.drop_first(), a)
    }
}

/// Failed attempts with the given status codes, in order.
pub open spec fn failures(statuses: Seq<u32>) -> Seq<JoinEvent> {
    Seq::new(statuses.len(), |i: int| JoinEvent::AttemptFailed { status: statuses[i] })
}

/// The bring-up sequence.
pub struct NetworkJoin {
    pub state: JoinState,
}

impl NetworkJoin {
    /// Bring-up before the link is up.
    pub fn new() -> (r: NetworkJoin)
        ensures
            r.state == JoinState::LinkDown,
    {
        NetworkJoin { state: JoinState::LinkDown }
    }

    /// Takes what the caller observed and returns the next action.
    pub fn handle(&mut self, event: JoinEvent) -> (r: JoinAction)
        ensures
            (final(self).state, r) == join_next(old(self).state, event),
    {
        match (self.state, event) {
            (JoinState::LinkDown, JoinEvent::LinkUp) => {
                self.state = JoinState::Joining;
                JoinAction::Attempt
            },
            (JoinState::Joining, JoinEvent::AttemptFailed { .. }) => JoinAction::Attempt,
            (JoinState::Joining, JoinEvent::AttemptSucceeded) => {
                self.state = JoinState::Joined;
                JoinAction::ReleaseRoutines
            },
            _ => JoinAction::Nothing,
        }
    }

    /// Whether dependent routines may run.
    pub fn is_joined(&self) -> (r: bool)
        ensures
            r == (self.state == JoinState::Joined),
    {
        match self.state {
            JoinState::Joined => true,
            _ => false,
        }
    }
}

/// Running `a` then `b` is running `b` from where `a` left off, and the
/// actions asked for add up.
pub proof fn lemma_join_run_concat(s: JoinState, a: Seq<JoinEvent>, b: Seq<JoinEvent>, x: JoinAction)
    ensures
        join_run(s, a + b) == join_run(join_run(s, a), b),
        action_count(s, a + b, x) == action_count(s, a, x) + action_count(join_run(s, a), b, x),
    decreases a.len(),
{
    if a.len() == 0 {
        assert(a + b =~= b);
    } else {
        assert((a + b).drop_first() =~= a.drop_first() + b);
        assert((a + b)[0] == a[0]);
        lemma_join_run_concat(join_next(s, a[0]).0, a.drop_first(), b, x);
    }
}

/// Once joined, no event makes bring-up attempt or release again.
pub proof fn lemma_joined_is_final(ev: Seq<JoinEvent>)
    ensures
        join_run(JoinState::Joined, ev) == JoinState::Joined,
        action_count(JoinState::Joined, ev, JoinAction::Attempt) == 0,
        action_count(JoinState::Joined, ev, JoinAction::ReleaseRoutines) == 0,
    decreases ev.len(),
{
    if ev.len() > 0 {
        lemma_joined_is_final(ev.drop_first());
    }
}

/// While joining, each failure asks for one more attempt and nothing else.
pub proof fn lemma_failures_retry(statuses: Seq<u32>)
    ensures
        join_run(JoinState::Joining, failures(statuses)) == JoinState::Joining,
        action_count(JoinState::Joining, failures(statuses), JoinAction::Attempt)
            == statuses.len(),
        action_count(JoinState::Joining, failures(statuses), JoinAction::ReleaseRoutines) == 0,
    decreases statuses.len(),
{
    if statuses.len() > 0 {
        assert(failures(statuses).drop_first() =~= failures(statuses.drop_first()));
        lemma_failures_retry(statuses.drop_first());
    }
}

/// After the link comes up, N failed attempts followed by one success make
/// exactly N + 1 attempts and release the dependent routines exactly once;
/// whatever is observed afterwards, bring-up stays joined and never attempts
/// or releases again.
pub proof fn lemma_join_retry_bound(statuses: Seq<u32>, later: Seq<JoinEvent>)
    ensures
        ({
            let ev = seq![JoinEvent::LinkUp] + failures(statuses) + seq![
                JoinEvent::AttemptSucceeded,
            ] + later;
            &&& action_count(JoinState::LinkDown, ev, JoinAction::Attempt) == statuses.len() + 1
            &&& action_count(JoinState::LinkDown, ev, JoinAction::ReleaseRoutines) == 1
            &&& join_run(JoinState::LinkDown, ev) == JoinState::Joined
        }),
{
    let up = seq![JoinEvent::LinkUp];
    let fs = failures(statuses);
    let ok = seq![JoinEvent::AttemptSucceeded];
    assert(up.drop_first() =~= Seq::<JoinEvent>::empty());
    assert(ok.drop_first() =~= Seq::<JoinEvent>::empty());
    assert(join_run(JoinState::Joining, up.drop_first()) == JoinState::Joining);
    assert(join_run(JoinState::LinkDown, up) == JoinState::Joining);
    assert(action_count(JoinState::Joining, up.drop_first(), JoinAction::Attempt) == 0);
    assert(action_count(JoinState::LinkDown, up, JoinAction::Attempt) == 1);
    assert(action_count(JoinState::Joining, up.drop_first(), JoinAction::ReleaseRoutines) == 0);
    assert(action_count(JoinState::LinkDown, up, JoinAction::ReleaseRoutines) == 0);
    assert(join_run(JoinState::Joined, ok.drop_first()) == JoinState::Joined);
    assert(join_run(JoinState::Joining, ok) == JoinState::Joined);
    assert(action_count(JoinState::Joined, ok.drop_first(), JoinAction::Attempt) == 0);
    assert(action_count(JoinState::Joining, ok, JoinAction::Attempt) == 0);
    assert(action_count(JoinState::Joined, ok.drop_first(), JoinAction::ReleaseRoutines) == 0);
    assert(action_count(JoinState::Joining, ok, JoinAction::ReleaseRoutines) == 1);
    lemma_failures_retry(statuses);
    lemma_joined_is_final(later);
    lemma_join_run_concat(JoinState::LinkDown, up, fs, JoinAction::Attempt);
    lemma_join_run_concat(JoinState::LinkDown, up, fs, JoinAction::ReleaseRoutines);
    lemma_join_run_concat(JoinState::LinkDown, up + fs, ok, JoinAction::Attempt);
    lemma_join_run_concat(JoinState::LinkDown, up + fs, ok, JoinAction::ReleaseRoutines);
    lemma_join_run_concat(JoinState::LinkDown, up + fs + ok, later, JoinAction::Attempt);
    lemma_join_run_concat(JoinState::LinkDown, up + fs + ok, later, JoinAction::ReleaseRoutines);
}

} // verus!
