//! The supervisor: what to do with what the adapters hand in. It forwards
//! envelopes until the first adapter ends, and ends everything then.

use vstd::prelude::*;

verus! {

/// The adapters that run side by side.
#[derive(Debug, Clone, Copy, PartialEq, Eq, Structural)]
pub enum Adapter {
    Metrics,
    WindowManager,
    Media,
    Audio,
}

/// What an adapter hands to the supervisor.
#[derive(Debug, Clone, PartialEq, Eq)]
pub enum Signal {
    /// A finished line for the output stream.
    Envelope(Adapter, String),
    /// The adapter has ended, for whatever reason.
    Finished(Adapter),
}

/// What the supervisor has done about a signal.
#[derive(Debug, Clone, PartialEq, Eq)]
pub enum Action {
    /// Write the line to the output stream, whole.
    Write(String),
    /// End the process and drop the adapters that still run.
    Exit,
    /// Nothing: the process is already ending.
    Ignore,
}

/// The state of the supervisor: running, or stopped by the adapter that
/// ended first.
#[derive(Debug, Clone, Copy, PartialEq, Eq, Structural)]
pub enum Supervisor {
    Running,
    Stopped(Adapter),
}

impl Supervisor {
    /// What is done about `signal` in this state.
    pub open spec fn react(self, signal: Signal) -> Action {
        match self {
            Supervisor::Running => match signal {
                Signal::Envelope(_, line) => Action::Write(line),
                Signal::Finished(_) => Action::Exit,
            },
            Supervisor::Stopped(_) => Action::Ignore,
        }
    }

    /// The state after `signal`.
    pub open spec fn after(self, signal: Signal) -> Supervisor {
        match self {
            Supervisor::Running => match signal {
                Signal::Envelope(_, _) => Supervisor::Running,
                Signal::Finished(adapter) => Supervisor::Stopped(adapter),
            },
            Supervisor::Stopped(adapter) => Supervisor::Stopped(adapter),
        }
    }

    /// The state after all of `signals`, one after the other.
    pub open spec fn after_all(self, signals: Seq<Signal>) -> Supervisor
        decreases signals.len(),
    {
        if signals.len() == 0 {
            self
        } else {
            self.after_all(signals.drop_last()).after(signals.last())
        }
    }

    /// What is done about each of `signals`, one after the other.
    pub open spec fn actions(self, signals: Seq<Signal>) -> Seq<Action>
        decreases signals.len(),
    {
        if signals.len() == 0 {
            Seq::empty()
        } else {
            self.actions(signals.drop_last()).push(
                self.after_all(signals.drop_last()).react(signals.last()),
            )
        }
    }

    /// A supervisor whose adapters all run.
    pub fn new() -> (supervisor: Supervisor)
        ensures
            supervisor == Supervisor::Running,
    {
        Supervisor::Running
    }

    /// Whether no adapter has ended yet.
    pub fn is_running(&self) -> (running: bool)
        ensures
            running == (*self == Supervisor::Running),
    {
        match self {
            Supervisor::Running => true,
            Supervisor::Stopped(_) => false,
        }
    }

    /// Takes one signal and says what to do about it.
    pub fn step(&mut self, signal: Signal) -> (action: Action)
        ensures
            action == old(self).react(signal),
            *final(self) == old(self).after(signal),
    {
        match *self {
            Supervisor::Running => match signal {
                Signal::Envelope(_, line) => Action::Write(line),
                Signal::Finished(adapter) => {
                    *self = Supervisor::Stopped(adapter);
                    Action::Exit
                },
            },
            Supervisor::Stopped(_) => Action::Ignore,
        }
    }
}

/// Whether an adapter has ended among the first `upto` of `signals`.
pub open spec fn ended_before(signals: Seq<Signal>, upto: int) -> bool {
    exists|i: int| 0 <= i < upto && i < signals.len() && #[trigger] signals[i] is Finished
}

/// What has ended before a signal does not depend on the signals after it.
proof fn lemma_ended_before_front(signals: Seq<Signal>, upto: int)
    requires
        0 < signals.len(),
        upto < signals.len(),
    ensures
        ended_before(signals.drop_last(), upto) == ended_before(signals, upto),
{
    let front = signals.drop_last();
    if ended_before(front, upto) {
        let i = choose|i: int| 0 <= i < upto && i < front.len() && #[trigger] front[i] is Finished;
        assert(signals[i] is Finished);
    }
    if ended_before(signals, upto) {
        let i = choose|i: int|
            0 <= i < upto && i < signals.len() && #[trigger] signals[i] is Finished;
        assert(front[i] is Finished);
    }
}

/// The supervisor is running for as long as no adapter has ended.
pub proof fn lemma_running_until_end(signals: Seq<Signal>)
    ensures
        Supervisor::Running.after_all(signals) == Supervisor::Running <==> !ended_before(
            signals,
            signals.len() as int,
        ),
    decreases signals.len(),
{
    if signals.len() > 0 {
        let last = signals.len() - 1;
        lemma_running_until_end(signals.drop_last());
        lemma_ended_before_front(signals, last);
        if signals[last] is Finished {
            assert(ended_before(signals, signals.len() as int));
        } else if ended_before(signals, signals.len() as int) {
            assert(ended_before(signals, last));
        }
    }
}

/// The adapter that ends first is the one that stops the supervisor, and it
/// stays stopped by that adapter whatever comes later.
pub proof fn lemma_stopped_by_first(signals: Seq<Signal>, first: int)
    requires
        0 <= first < signals.len(),
        signals[first] is Finished,
        !ended_before(signals, first),
    ensures
        Supervisor::Running.after_all(signals) == Supervisor::Stopped(signals[first]->Finished_0),
    decreases signals.len(),
{
    let front = signals.drop_last();
    lemma_ended_before_front(signals, first);
    if first == signals.len() - 1 {
        lemma_running_until_end(front);
    } else {
        assert(front[first] == signals[first]);
        lemma_stopped_by_first(front, first);
    }
}

/// What is done about a signal that comes after `before`: nothing once an
/// adapter has ended, else the line is written or the process ends.
pub open spec fn action_after(before: Seq<Signal>, signal: Signal) -> Action {
    if ended_before(before, before.len() as int) {
        Action::Ignore
    } else {
        match signal {
            Signal::Envelope(_, line) => Action::Write(line),
            Signal::Finished(_) => Action::Exit,
        }
    }
}

/// The termination policy. Started with all adapters running and fed any
/// sequence of signals, the supervisor writes every line that arrives before
/// the first adapter ends, in the order of arrival; it exits at the signal
/// of the adapter that ends first; and it does nothing about any later
/// signal. So it exits at most once, and writes nothing after that.
pub proof fn lemma_first_exit_ends_all(signals: Seq<Signal>)
    ensures
        Supervisor::Running.actions(signals).len() == signals.len(),
        forall|j: int|
            0 <= j < signals.len() ==> #[trigger] Supervisor::Running.actions(signals)[j]
                == action_after(signals.take(j), signals[j]),
        forall|i: int, j: int|
            0 <= i < j < signals.len() && #[trigger] Supervisor::Running.actions(signals)[i] is Exit
                ==> #[trigger] Supervisor::Running.actions(signals)[j] is Ignore,
    decreases signals.len(),
{
    let all = Supervisor::Running.actions(signals);
    if signals.len() > 0 {
        let front = signals.drop_last();
        let last = signals.len() - 1;
        lemma_first_exit_ends_all(front);
        lemma_running_until_end(front);
        assert(signals.take(last) =~= front);
        assert forall|j: int| 0 <= j < signals.len() implies #[trigger] all[j] == action_after(
            signals.take(j),
            signals[j],
        ) by {
            if j < last {
                assert(front.take(j) =~= signals.take(j));
            }
        }
        assert forall|i: int, j: int|
            0 <= i < j < signals.len() && #[trigger] all[i] is Exit implies #[trigger] all[j]
                is Ignore by {
            assert(signals[i] is Finished);
            assert(signals.take(j)[i] is Finished);
        }
    }
}

} // verus!
