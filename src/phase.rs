use vstd::prelude::*;

use crate::executor::CopyResponseErr;

verus! {

/// What a caller can observe of the slot.
pub enum Phase {
    /// No task exists; the slot is free.
    Idle,
    /// A task exists and has not produced its output yet.
    Running,
    /// A task finished; its output waits to be collected.
    ResultReady(Seq<u8>),
}

/// The phase after one step of a task that reported `poll`: `Some(out)` when it
/// finished with `out`, `None` when it has not finished. Only a running slot moves.
pub open spec fn spin_phase(p: Phase, poll: Option<Seq<u8>>) -> Phase {
    match (p, poll) {
        (Phase::Running, Some(out)) => Phase::ResultReady(out),
        _ => p,
    }
}

/// The phase after one `spin` for each of `polls`, in order.
pub open spec fn spin_all(p: Phase, polls: Seq<Option<Seq<u8>>>) -> Phase
    decreases polls.len(),
{
    if polls.len() == 0 {
        p
    } else {
        spin_all(spin_phase(p, polls[0]), polls.drop_first())
    }
}

/// The phase after `copy_response`, and what it hands out: the stored output
/// when there is one, else the reason why not.
pub open spec fn copy_outcome(p: Phase) -> (Phase, Result<Seq<u8>, CopyResponseErr>) {
    match p {
        Phase::Idle => (Phase::Idle, Err(CopyResponseErr::NotRunning)),
        Phase::Running => (Phase::Running, Err(CopyResponseErr::NotReady)),
        Phase::ResultReady(out) => (Phase::Idle, Ok(out)),
    }
}

/// The phase after `cancel`, and whether a task was discarded.
pub open spec fn cancel_outcome(p: Phase) -> (Phase, bool) {
    match p {
        Phase::Running => (Phase::Idle, true),
        _ => (p, false),
    }
}

} // verus!
