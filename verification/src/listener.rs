//! The accept loop, as a state machine without I/O.
//!
//! A server binds its address once and then accepts connections for as long as
//! the process lives. That the address cannot be bound is fatal and ends the
//! loop before it began. That one connection cannot be accepted is passed
//! over: it is reported, and the loop goes on with the next.
//!
//! Every accepted connection is handed off to a task of its own, and the loop
//! accepts the next one at once. Nothing bounds the number of connections.

use vstd::prelude::*;

verus! {

/// Where the accept loop stands.
#[derive(Clone, Copy, Debug, PartialEq, Eq, Structural)]
pub enum Phase {
    /// The address is being bound.
    Binding,
    /// The address is bound and a connection is waited for.
    Accepting,
    /// The loop has ended.
    Stopped,
}

/// What the caller reports to the loop.
#[derive(Clone, Copy, Debug, PartialEq, Eq, Structural)]
pub enum Outcome {
    /// The address was bound.
    Bound,
    /// The address could not be bound.
    BindFailed,
    /// A connection was accepted.
    Accepted,
    /// Accepting a connection failed.
    AcceptFailed,
}

/// What the loop asks its caller to do next.
#[derive(Clone, Copy, Debug, PartialEq, Eq, Structural)]
pub enum Task {
    /// Bind the address.
    Bind,
    /// Wait for a connection.
    Accept,
    /// Hand the accepted connection to a task of its own, then wait for the
    /// next connection.
    Serve,
    /// Report the failure, then wait for the next connection.
    Report,
    /// Give up and hand the failure to whoever started the server.
    GiveUp,
}

/// How the loop starts: the address is to be bound.
pub open spec fn starting() -> (Phase, Task) {
    (Phase::Binding, Task::Bind)
}

/// The step of the loop in `phase` on `outcome`. What a phase does not wait
/// for ends the loop.
pub open spec fn turn(phase: Phase, outcome: Outcome) -> (Phase, Task) {
    match (phase, outcome) {
        (Phase::Binding, Outcome::Bound) => (Phase::Accepting, Task::Accept),
        (Phase::Accepting, Outcome::Accepted) => (Phase::Accepting, Task::Serve),
        (Phase::Accepting, Outcome::AcceptFailed) => (Phase::Accepting, Task::Report),
        _ => (Phase::Stopped, Task::GiveUp),
    }
}

/// The phase that the loop is in after the given outcomes, starting from
/// `phase`.
pub open spec fn phase_after(phase: Phase, outcomes: Seq<Outcome>) -> Phase
    decreases outcomes.len(),
{
    if outcomes.len() == 0 {
        phase
    } else {
        turn(phase_after(phase, outcomes.drop_last()), outcomes.last()).0
    }
}

/// Whether an outcome is one of accepting: a connection, or a failure to
/// accept one.
pub open spec fn of_accepting(outcome: Outcome) -> bool {
    outcome == Outcome::Accepted || outcome == Outcome::AcceptFailed
}

/// Once bound, the loop never ends by itself: however many connections are
/// accepted, and however many fail to be, it goes on accepting. Every accepted
/// connection is served, and every failure is reported and passed over.
pub proof fn accepting_goes_on(outcomes: Seq<Outcome>)
    requires
        forall|i: int| 0 <= i < outcomes.len() ==> of_accepting(#[trigger] outcomes[i]),
    ensures
        phase_after(Phase::Accepting, outcomes) == Phase::Accepting,
        turn(Phase::Accepting, Outcome::Accepted) == (Phase::Accepting, Task::Serve),
        turn(Phase::Accepting, Outcome::AcceptFailed) == (Phase::Accepting, Task::Report),
    decreases outcomes.len(),
{
    if outcomes.len() > 0 {
        let earlier = outcomes.drop_last();
        assert forall|i: int| 0 <= i < earlier.len() implies of_accepting(#[trigger] earlier[i]) by {
            assert(earlier[i] == outcomes[i]);
        }
        accepting_goes_on(earlier);
        assert(of_accepting(outcomes[outcomes.len() - 1]));
    }
}

/// A failure to bind is fatal: the loop stops without ever accepting, and
/// stays stopped.
pub proof fn bind_failure_is_final(outcomes: Seq<Outcome>)
    ensures
        turn(starting().0, Outcome::BindFailed) == (Phase::Stopped, Task::GiveUp),
        phase_after(Phase::Stopped, outcomes) == Phase::Stopped,
    decreases outcomes.len(),
{
    if outcomes.len() > 0 {
        bind_failure_is_final(outcomes.drop_last());
    }
}

/// Starts the loop.
pub fn start() -> (first: (Phase, Task))
    ensures
        first == starting(),
{
    (Phase::Binding, Task::Bind)
}

/// The step of the loop in `phase` on `outcome`: the next phase and what to
/// do.
pub fn next(phase: Phase, outcome: Outcome) -> (step: (Phase, Task))
    ensures
        step == turn(phase, outcome),
{
    match (phase, outcome) {
        (Phase::Binding, Outcome::Bound) => (Phase::Accepting, Task::Accept),
        (Phase::Accepting, Outcome::Accepted) => (Phase::Accepting, Task::Serve),
        (Phase::Accepting, Outcome::AcceptFailed) => (Phase::Accepting, Task::Report),
        _ => (Phase::Stopped, Task::GiveUp),
    }
}

} // verus!
