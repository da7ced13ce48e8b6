//! The polling loop's decisions. The loop probes, sends the sample, then
//! waits up to one interval for a stop signal: a stop ends it, anything else
//! (the wait timing out, or the signal's sender gone) starts the next cycle.
//! The waiting itself belongs to whoever runs the loop.
use vstd::prelude::*;

verus! {

/// The loop's state: polling until a stop signal arrives, then stopped for
/// good.
#[derive(Clone, Copy, Debug, PartialEq, Eq, Structural)]
pub enum PollState {
    Polling,
    Stopped,
}

/// How a wait for the stop signal ended.
#[derive(Clone, Copy, Debug, PartialEq, Eq, Structural)]
pub enum WaitOutcome {
    /// The interval passed with no signal: time for the next probe.
    TimedOut,
    /// The stop signal arrived.
    StopSignal,
    /// The stop channel has no sender any more.
    Disconnected,
}

/// What the loop does next.
#[derive(Clone, Copy, Debug, PartialEq, Eq, Structural)]
pub enum PollAction {
    /// Probe the process and send the sample, then wait again.
    Probe,
    /// Leave the loop; no further sample is sent.
    Exit,
}

/// The state after a wait: only the stop signal stops the loop, and a
/// stopped loop stays stopped.
pub open spec fn state_after(s: PollState, o: WaitOutcome) -> PollState {
    if s == PollState::Stopped || o == WaitOutcome::StopSignal {
        PollState::Stopped
    } else {
        PollState::Polling
    }
}

/// The number of probes a loop makes when its waits end as `outcomes`: one
/// before the first wait and one after each wait that precedes the first
/// stop signal.
pub open spec fn probes_for(outcomes: Seq<WaitOutcome>) -> nat
    decreases outcomes.len(),
{
    if outcomes.len() == 0 || outcomes[0] == WaitOutcome::StopSignal {
        1
    } else {
        1 + probes_for(outcomes.drop_first())
    }
}

/// The polling loop's state machine.
pub struct Poller {
    state: PollState,
}

impl Poller {
    /// The loop's state.
    pub closed spec fn state_spec(&self) -> PollState {
        self.state
    }

    /// A loop about to make its first probe.
    pub fn new() -> (r: Poller)
        ensures
            r.state_spec() == PollState::Polling,
    {
        Poller { state: PollState::Polling }
    }

    /// The loop's state.
    pub fn state(&self) -> (r: PollState)
        ensures
            r == self.state_spec(),
    {
        self.state
    }

    /// Whether the loop has stopped.
    pub fn is_stopped(&self) -> (r: bool)
        ensures
            r == (self.state_spec() == PollState::Stopped),
    {
        match self.state {
            PollState::Stopped => true,
            PollState::Polling => false,
        }
    }

    /// Takes the end of one wait and says what to do next: probe again
    /// while polling, exit once the stop signal has come.
    pub fn after_wait(&mut self, outcome: WaitOutcome) -> (r: PollAction)
        ensures
            final(self).state_spec() == state_after(old(self).state_spec(), outcome),
            r == (if final(self).state_spec() == PollState::Stopped {
                PollAction::Exit
            } else {
                PollAction::Probe
            }),
    {
        match (self.state, outcome) {
            (PollState::Stopped, _) | (_, WaitOutcome::StopSignal) => {
                self.state = PollState::Stopped;
                PollAction::Exit
            },
            _ => PollAction::Probe,
        }
    }
}

/// Runs the loop's decisions over the given wait outcomes and counts the
/// probes made; outcomes after the stop signal are never reached.
pub fn count_probes(outcomes: &Vec<WaitOutcome>) -> (r: usize)
    requires
        outcomes@.len() < usize::MAX,
    ensures
        r == probes_for(outcomes@),
{
    let mut p = Poller::new();
    let mut n: usize = 1;
    let mut i: usize = 0;
    assert(outcomes@.subrange(0, outcomes@.len() as int) =~= outcomes@);
    while i < outcomes.len()
        invariant
            i <= outcomes@.len() < usize::MAX,
            p.state_spec() == PollState::Polling,
            n == i + 1,
            n + probes_for(outcomes@.subrange(i as int, outcomes@.len() as int)) == probes_for(
                outcomes@,
            ) + 1,
        decreases outcomes@.len() - i,
    {
        let rest = Ghost(outcomes@.subrange(i as int, outcomes@.len() as int));
        assert(rest@.drop_first() =~= outcomes@.subrange(i + 1, outcomes@.len() as int));
        match p.after_wait(outcomes[i]) {
            PollAction::Exit => {
                return n;
            },
            PollAction::Probe => {
                n = n + 1;
            },
        }
        i = i + 1;
    }
    assert(outcomes@.subrange(i as int, outcomes@.len() as int).len() == 0);
    n
}

} // verus!
