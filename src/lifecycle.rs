//! The worker's decisions, as a state machine from phase and event to next
//! phase and action. Whoever owns the connection performs the action and
//! reports what happened as the next event.

use vstd::prelude::*;

verus! {

/// Where the worker stands in its life.
#[derive(PartialEq, Eq, Structural, Clone, Copy, Debug)]
pub enum Phase {
    /// About to open the one transaction.
    Starting,
    /// Idle, waiting for the next request.
    Running,
    /// A request has been taken and is being worked and answered.
    Serving,
    /// The request channel is closed and drained; the transaction is committed.
    Committing,
    /// The connection is being closed.
    Closing,
    /// Nothing is left to do; the thread may end.
    Finished,
}

/// What happened when the worker performed its last action.
#[derive(PartialEq, Eq, Structural, Clone, Copy, Debug)]
pub enum Event {
    /// The transaction is open.
    Opened,
    OpenFailed,
    /// A request was taken off the request channel.
    Received,
    /// The request's result reached its caller.
    Delivered,
    /// The request's caller was gone when its result was sent.
    Abandoned,
    /// The request channel has no senders left and is empty.
    Disconnected,
    Committed,
    CommitFailed,
    /// The connection is closed.
    Closed,
    CloseFailed,
}

/// What the worker is to do next.
#[derive(PartialEq, Eq, Structural, Clone, Copy, Debug)]
pub enum Action {
    OpenTransaction,
    /// Block on the request channel for the next request.
    Receive,
    /// Run the request taken and send its result back to its caller.
    RunWork,
    Commit,
    CloseConnection,
    Exit,
}

/// A failure that concerns no single caller and is only reported.
#[derive(PartialEq, Eq, Structural, Clone, Copy, Debug)]
pub enum Failure {
    /// The transaction could not be opened.
    Open,
    /// The caller of a request was gone when its result was sent back.
    Delivery,
    Commit,
    Close,
}

/// The events that a worker in phase `p` can observe.
pub open spec fn accepts(p: Phase, e: Event) -> bool {
    match p {
        Phase::Starting => e == Event::Opened || e == Event::OpenFailed,
        Phase::Running => e == Event::Received || e == Event::Disconnected,
        Phase::Serving => e == Event::Delivered || e == Event::Abandoned,
        Phase::Committing => e == Event::Committed || e == Event::CommitFailed,
        Phase::Closing => e == Event::Closed || e == Event::CloseFailed,
        Phase::Finished => false,
    }
}

/// The phase after event `e` in phase `p` (for an accepted event).
pub open spec fn next(p: Phase, e: Event) -> Phase {
    match p {
        Phase::Starting => if e == Event::Opened {
            Phase::Running
        } else {
            Phase::Closing
        },
        Phase::Running => if e == Event::Received {
            Phase::Serving
        } else {
            Phase::Committing
        },
        Phase::Serving => Phase::Running,
        Phase::Committing => Phase::Closing,
        Phase::Closing => Phase::Finished,
        Phase::Finished => Phase::Finished,
    }
}

/// The action that phase `p` asks for.
pub open spec fn action_of(p: Phase) -> Action {
    match p {
        Phase::Starting => Action::OpenTransaction,
        Phase::Running => Action::Receive,
        Phase::Serving => Action::RunWork,
        Phase::Committing => Action::Commit,
        Phase::Closing => Action::CloseConnection,
        Phase::Finished => Action::Exit,
    }
}

/// The failure that event `e` reports, if any.
pub open spec fn failure_of(e: Event) -> Option<Failure> {
    match e {
        Event::OpenFailed => Some(Failure::Open),
        Event::Abandoned => Some(Failure::Delivery),
        Event::CommitFailed => Some(Failure::Commit),
        Event::CloseFailed => Some(Failure::Close),
        _ => None,
    }
}

/// The phase reached from `p` after the events `evs`, in order.
pub open spec fn run(p: Phase, evs: Seq<Event>) -> Phase
    decreases evs.len(),
{
    if evs.len() == 0 {
        p
    } else {
        next(run(p, evs.drop_last()), evs.last())
    }
}

/// Whether each event of `evs` is one that the worker, starting in `p`,
/// accepts where it comes.
pub open spec fn valid_trace(p: Phase, evs: Seq<Event>) -> bool
    decreases evs.len(),
{
    if evs.len() == 0 {
        true
    } else {
        valid_trace(p, evs.drop_last()) && accepts(run(p, evs.drop_last()), evs.last())
    }
}

/// How many times `e` occurs in `evs`.
pub open spec fn occurrences(evs: Seq<Event>, e: Event) -> nat
    decreases evs.len(),
{
    if evs.len() == 0 {
        0
    } else {
        occurrences(evs.drop_last(), e) + if evs.last() == e {
            1nat
        } else {
            0nat
        }
    }
}

/// Requests taken and not yet answered.
pub open spec fn in_flight(evs: Seq<Event>) -> int {
    occurrences(evs, Event::Received) - occurrences(evs, Event::Delivered) - occurrences(
        evs,
        Event::Abandoned,
    )
}

/// Commit attempts.
pub open spec fn commits(evs: Seq<Event>) -> nat {
    occurrences(evs, Event::Committed) + occurrences(evs, Event::CommitFailed)
}

/// Attempts to close the connection.
pub open spec fn closes(evs: Seq<Event>) -> nat {
    occurrences(evs, Event::Closed) + occurrences(evs, Event::CloseFailed)
}

/// What each phase says of the events that led to it from `Starting`.
pub open spec fn trace_matches(p: Phase, evs: Seq<Event>) -> bool {
    let opened = occurrences(evs, Event::Opened);
    let failed = occurrences(evs, Event::OpenFailed);
    let drained = occurrences(evs, Event::Disconnected);
    let served = occurrences(evs, Event::Received);
    &&& in_flight(evs) == if p == Phase::Serving { 1int } else { 0int }
    &&& match p {
        Phase::Starting => opened == 0 && failed == 0 && served == 0 && drained == 0
            && commits(evs) == 0 && closes(evs) == 0,
        Phase::Running | Phase::Serving => opened == 1 && failed == 0 && drained == 0
            && commits(evs) == 0 && closes(evs) == 0,
        Phase::Committing => opened == 1 && failed == 0 && drained == 1 && commits(evs) == 0
            && closes(evs) == 0,
        Phase::Closing | Phase::Finished => {
            &&& closes(evs) == if p == Phase::Finished { 1nat } else { 0nat }
            &&& (opened == 1 && failed == 0 && drained == 1 && commits(evs) == 1) || (opened == 0
                && failed == 1 && served == 0 && drained == 0 && commits(evs) == 0)
        },
    }
}

proof fn lemma_trace_matches(evs: Seq<Event>)
    requires
        valid_trace(Phase::Starting, evs),
    ensures
        trace_matches(run(Phase::Starting, evs), evs),
    decreases evs.len(),
{
    if evs.len() > 0 {
        lemma_trace_matches(evs.drop_last());
    }
}

/// Work is served one item at a time: along any run of the worker, at most
/// one request has been taken and not yet answered, and exactly one while
/// it is serving.
pub proof fn lemma_one_request_at_a_time(evs: Seq<Event>)
    requires
        valid_trace(Phase::Starting, evs),
    ensures
        0 <= in_flight(evs) <= 1,
        in_flight(evs) == 1 <==> run(Phase::Starting, evs) == Phase::Serving,
{
    lemma_trace_matches(evs);
}

/// The transaction is committed at most once, and only after it was opened
/// and the request channel was found closed and drained; every request
/// taken before has been answered by then.
pub proof fn lemma_commit_after_drain(evs: Seq<Event>)
    requires
        valid_trace(Phase::Starting, evs),
    ensures
        commits(evs) <= 1,
        commits(evs) == 1 ==> occurrences(evs, Event::Opened) == 1 && occurrences(
            evs,
            Event::Disconnected,
        ) == 1 && in_flight(evs) == 0,
{
    lemma_trace_matches(evs);
}

/// A worker whose transaction could not be opened serves no request and
/// commits nothing.
pub proof fn lemma_open_failure_serves_nothing(evs: Seq<Event>)
    requires
        valid_trace(Phase::Starting, evs),
        occurrences(evs, Event::OpenFailed) > 0,
    ensures
        occurrences(evs, Event::Received) == 0,
        commits(evs) == 0,
{
    lemma_trace_matches(evs);
}

/// A worker that has finished closed its connection exactly once, and, where
/// its transaction was opened, attempted to commit it first.
pub proof fn lemma_finish_commits_then_closes(evs: Seq<Event>)
    requires
        valid_trace(Phase::Starting, evs),
        run(Phase::Starting, evs) == Phase::Finished,
    ensures
        closes(evs) == 1,
        occurrences(evs, Event::Opened) == 1 ==> commits(evs) == 1,
{
    lemma_trace_matches(evs);
}

/// The worker's state machine.
pub struct Worker {
    phase: Phase,
}

impl Worker {
    pub closed spec fn view(&self) -> Phase {
        self.phase
    }

    /// A worker that has not yet opened its transaction.
    pub fn new() -> (w: Worker)
        ensures
            w@ == Phase::Starting,
    {
        Worker { phase: Phase::Starting }
    }

    pub fn phase(&self) -> (p: Phase)
        ensures
            p == self@,
    {
        self.phase
    }

    /// What the worker is to do next.
    pub fn action(&self) -> (a: Action)
        ensures
            a == action_of(self@),
    {
        match self.phase {
            Phase::Starting => Action::OpenTransaction,
            Phase::Running => Action::Receive,
            Phase::Serving => Action::RunWork,
            Phase::Committing => Action::Commit,
            Phase::Closing => Action::CloseConnection,
            Phase::Finished => Action::Exit,
        }
    }

    /// Whether `e` can follow the action now asked for.
    pub fn accepts(&self, e: Event) -> (r: bool)
        ensures
            r == accepts(self@, e),
    {
        match self.phase {
            Phase::Starting => e == Event::Opened || e == Event::OpenFailed,
            Phase::Running => e == Event::Received || e == Event::Disconnected,
            Phase::Serving => e == Event::Delivered || e == Event::Abandoned,
            Phase::Committing => e == Event::Committed || e == Event::CommitFailed,
            Phase::Closing => e == Event::Closed || e == Event::CloseFailed,
            Phase::Finished => false,
        }
    }

    /// Takes in what the last action led to; returns the failure to report,
    /// if it was one.
    pub fn step(&mut self, e: Event) -> (f: Option<Failure>)
        requires
            accepts(old(self)@, e),
        ensures
            final(self)@ == next(old(self)@, e),
            f == failure_of(e),
    {
        self.phase = match self.phase {
            Phase::Starting => if e == Event::Opened {
                Phase::Running
            } else {
                Phase::Closing
            },
            Phase::Running => if e == Event::Received {
                Phase::Serving
            } else {
                Phase::Committing
            },
            Phase::Serving => Phase::Running,
            Phase::Committing => Phase::Closing,
            Phase::Closing => Phase::Finished,
            Phase::Finished => Phase::Finished,
        };
        match e {
            Event::OpenFailed => Some(Failure::Open),
            Event::Abandoned => Some(Failure::Delivery),
            Event::CommitFailed => Some(Failure::Commit),
            Event::CloseFailed => Some(Failure::Close),
            _ => None,
        }
    }
}

} // verus!
