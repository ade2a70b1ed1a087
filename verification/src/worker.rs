//! The worker that looks after the members of a voice server while the
//! server runs: what it does with each look at its channel.

use crate::time::Span;
use vstd::prelude::*;

verus! {

/// The seconds between two rounds of the worker's work.
pub const TS_WORKER_INTERVAL_SECS: u64 = 300;

/// What is said to the worker.
#[derive(Debug, Clone, Copy, PartialEq, Eq, Structural)]
pub enum TsMessage {
    /// The server stops: end the work.
    Stop,
}

/// What a look at the worker's channel finds.
#[derive(Debug, Clone, Copy, PartialEq, Eq, Structural)]
pub enum Received {
    /// A message.
    Message(TsMessage),
    /// Nothing yet.
    Empty,
    /// Nothing, and nobody is left who could send.
    Disconnected,
}

/// What the worker does after a look at its channel.
#[derive(Debug, Clone, Copy, PartialEq, Eq, Structural)]
pub enum WorkerStep {
    /// Look again.
    Wait,
    /// Do a round of work, then start a new round of waiting.
    Apply,
    /// End the work.
    Stop,
}

/// The step that follows a look at the channel that found `received`, when
/// `elapsed` has passed since the round of waiting began: the worker ends
/// when it is told to or when nobody could tell it any more; else it does
/// its work once more than the interval has passed, and looks again until
/// then.
pub open spec fn spec_worker_step(received: Received, elapsed: Span) -> WorkerStep {
    match received {
        Received::Message(TsMessage::Stop) => WorkerStep::Stop,
        Received::Disconnected => WorkerStep::Stop,
        Received::Empty => if elapsed@ > TS_WORKER_INTERVAL_SECS * 1_000_000_000 {
            WorkerStep::Apply
        } else {
            WorkerStep::Wait
        },
    }
}

/// Decides what the worker does after a look at its channel.
pub fn worker_step(received: Received, elapsed: &Span) -> (next: WorkerStep)
    ensures
        next == spec_worker_step(received, *elapsed),
{
    match received {
        Received::Message(TsMessage::Stop) => WorkerStep::Stop,
        Received::Disconnected => WorkerStep::Stop,
        Received::Empty => {
            let interval = Span::from_secs(TS_WORKER_INTERVAL_SECS);
            if elapsed.is_longer_than(&interval) {
                WorkerStep::Apply
            } else {
                WorkerStep::Wait
            }
        },
    }
}

} // verus!
