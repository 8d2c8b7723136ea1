//! How a submitted operation is driven to its end.
//!
//! The target gives no signal when it has run an operation: the host has to
//! ask. The decisions of that exchange are made here, as a state machine; the
//! caller does what a [`Command`] says and reports what came of it as an
//! [`Event`].

use vstd::prelude::*;

verus! {

/// The pause before every poll but the first, in milliseconds.
pub const POLL_INTERVAL_MS: u64 = 100;

/// What can go wrong between the host and the target.
#[derive(Clone, Copy, Debug, PartialEq, Eq, Structural)]
pub enum Fault {
    /// The connection to the target failed.
    Transport,
    /// The target did not finish within the time it was given.
    Timeout,
}

/// Where the execution of one operation stands.
#[derive(Clone, Copy, Debug, PartialEq, Eq, Structural)]
pub enum Phase {
    /// Nothing has been sent.
    Idle,
    /// The target has accepted the operation and has not been polled yet.
    /// With the first poll, whatever its answer, this passes into `Polling`.
    Submitted,
    /// The target has been polled and was still running.
    Polling,
    /// The target has run the operation; its results can be fetched.
    Done,
    /// The execution has failed.
    Failed(Fault),
}

/// What the caller reports back.
#[derive(Clone, Copy, Debug, PartialEq, Eq, Structural)]
pub enum Event {
    /// The target accepted the operation.
    Accepted,
    /// A poll found the target still running.
    Pending,
    /// A poll found that the target has finished.
    Complete,
    /// The submission or a poll failed.
    Failed(Fault),
}

/// What the caller is to do next.
#[derive(Clone, Copy, Debug, PartialEq, Eq, Structural)]
pub enum Command {
    /// Submit the operation.
    Submit,
    /// Wait for `delay_ms` milliseconds, then ask the target whether it has
    /// finished.
    Poll { delay_ms: u64 },
    /// Fetch the results.
    Fetch,
    /// Give up and report the fault.
    Fail(Fault),
}

impl Phase {
    /// Nothing follows this phase.
    pub open spec fn terminal(self) -> bool {
        self is Done || self is Failed
    }

    /// What there is to do in this phase.
    pub open spec fn commanded(self) -> Command {
        match self {
            Phase::Idle => Command::Submit,
            Phase::Submitted => Command::Poll { delay_ms: 0 },
            Phase::Polling => Command::Poll { delay_ms: POLL_INTERVAL_MS },
            Phase::Done => Command::Fetch,
            Phase::Failed(fault) => Command::Fail(fault),
        }
    }

    /// The phase that follows this one on `event`; `None` where the event is
    /// no answer to what the phase has the caller do.
    pub open spec fn next(self, event: Event) -> Option<Phase> {
        match self {
            Phase::Idle => match event {
                Event::Accepted => Some(Phase::Submitted),
                Event::Failed(fault) => Some(Phase::Failed(fault)),
                _ => None,
            },
            // The first poll is under way as soon as the operation has been
            // accepted, so `Submitted` takes an answer as `Polling` does.
            Phase::Submitted | Phase::Polling => match event {
                Event::Pending => Some(Phase::Polling),
                Event::Complete => Some(Phase::Done),
                Event::Failed(fault) => Some(Phase::Failed(fault)),
                Event::Accepted => None,
            },
            Phase::Done | Phase::Failed(_) => None,
        }
    }

    /// Whether nothing follows this phase.
    pub fn is_terminal(self) -> (terminal: bool)
        ensures
            terminal == self.terminal(),
    {
        match self {
            Phase::Done => true,
            Phase::Failed(_) => true,
            _ => false,
        }
    }

    /// What there is to do in this phase.
    pub fn command(self) -> (command: Command)
        ensures
            command == self.commanded(),
    {
        match self {
            Phase::Idle => Command::Submit,
            Phase::Submitted => Command::Poll { delay_ms: 0 },
            Phase::Polling => Command::Poll { delay_ms: POLL_INTERVAL_MS },
            Phase::Done => Command::Fetch,
            Phase::Failed(fault) => Command::Fail(fault),
        }
    }
}

/// The beginning of every execution: nothing sent, the operation to submit.
pub fn start() -> (first: (Phase, Command))
    ensures
        first == (Phase::Idle, Command::Submit),
{
    (Phase::Idle, Command::Submit)
}

/// Takes the execution one step further: from the phase it is in and what the
/// caller reports to the phase that follows and what to do in it. `None`
/// where the report is no answer to what the phase had the caller do; the
/// terminal phases take no report at all.
pub fn step(phase: Phase, event: Event) -> (result: Option<(Phase, Command)>)
    ensures
        result == match phase.next(event) {
            Some(next) => Some((next, next.commanded())),
            None => None,
        },
{
    let next = match phase {
        Phase::Idle => match event {
            Event::Accepted => Phase::Submitted,
            Event::Failed(fault) => Phase::Failed(fault),
            _ => {
                return None;
            },
        },
        Phase::Submitted | Phase::Polling => match event {
            Event::Pending => Phase::Polling,
            Event::Complete => Phase::Done,
            Event::Failed(fault) => Phase::Failed(fault),
            Event::Accepted => {
                return None;
            },
        },
        Phase::Done | Phase::Failed(_) => {
            return None;
        },
    };
    Some((next, next.command()))
}

/// The phase reached from `phase` when the events are reported in order;
/// `None` where one of them is no answer to the phase it meets.
pub open spec fn run(phase: Phase, events: Seq<Event>) -> Option<Phase>
    decreases events.len(),
{
    if events.len() == 0 {
        Some(phase)
    } else {
        match run(phase, events.drop_last()) {
            Some(reached) => reached.next(events.last()),
            None => None,
        }
    }
}

/// The answer to a poll is one of these.
pub open spec fn poll_answer(event: Event) -> bool {
    event !is Accepted
}

/// The polling loop ends with the first answer that is not `Pending`, and not
/// before: while the target is still running the execution stays open, an
/// answer `Complete` ends it in `Done`, and a fault ends it in `Failed` with
/// that fault. This holds for any run of answers, however long the target
/// takes, from the first poll on.
pub proof fn lemma_polling_ends_with_first_answer(answers: Seq<Event>, last: int)
    requires
        0 <= last < answers.len(),
        forall|i: int| 0 <= i < last ==> answers[i] == Event::Pending,
        poll_answer(answers[last]),
        answers[last] != Event::Pending,
    ensures
        forall|n: int|
            1 <= n <= last ==> run(Phase::Submitted, answers.take(n)) == Some(Phase::Polling),
        answers[last] == Event::Complete ==> run(Phase::Submitted, answers.take(last + 1)) == Some(
            Phase::Done,
        ),
        answers[last] matches Event::Failed(fault) ==> run(
            Phase::Submitted,
            answers.take(last + 1),
        ) == Some(Phase::Failed(fault)),
        run(Phase::Submitted, answers.take(last + 1)) matches Some(end) && end.terminal(),
{
    assert forall|n: int| 1 <= n <= last implies run(Phase::Submitted, answers.take(n)) == Some(
        Phase::Polling,
    ) by {
        lemma_pending_keeps_polling(answers, n);
    }
    assert(answers.take(last + 1).drop_last() =~= answers.take(last));
    if last > 0 {
        lemma_pending_keeps_polling(answers, last);
    }
}

proof fn lemma_pending_keeps_polling(answers: Seq<Event>, n: int)
    requires
        1 <= n <= answers.len(),
        forall|i: int| 0 <= i < n ==> answers[i] == Event::Pending,
    ensures
        run(Phase::Submitted, answers.take(n)) == Some(Phase::Polling),
    decreases n,
{
    assert(answers.take(n).drop_last() =~= answers.take(n - 1));
    if n > 1 {
        lemma_pending_keeps_polling(answers, n - 1);
    }
}

/// The host never polls in a tight loop: a poll that follows a poll comes
/// after the pause. Only the first poll, right after the submission, comes
/// at once.
pub proof fn lemma_polls_are_spaced(phase: Phase, event: Event)
    requires
        phase.next(event) is Some,
        phase.commanded() is Poll,
    ensures
        phase.next(event)->0.commanded() is Poll ==> phase.next(event)->0.commanded() == (Command::Poll {
            delay_ms: POLL_INTERVAL_MS,
        }),
{
}

/// An operation is submitted once: no report leads back to the phase in
/// which the caller is told to submit.
pub proof fn lemma_submits_once(phase: Phase, event: Event)
    requires
        phase.next(event) is Some,
    ensures
        phase.next(event)->0.commanded() != Command::Submit,
        phase.next(event)->0 != Phase::Idle,
{
}

} // verus!
