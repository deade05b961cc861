use vstd::prelude::*;

use crate::executor::CopyResponseErr;
use crate::phase::{cancel_outcome, copy_outcome, spin_all, spin_phase, Phase};

verus! {

/// Steps that report "not finished", `n` of them.
pub open spec fn pending_steps(n: nat) -> Seq<Option<Seq<u8>>> {
    Seq::new(n, |i: int| None)
}

/// Spinning an idle slot, or one whose result waits, changes nothing, however
/// often it is done and whatever a step would report.
pub proof fn lemma_spin_no_op(p: Phase, polls: Seq<Option<Seq<u8>>>)
    requires
        p is Idle || p is ResultReady,
    ensures
        spin_all(p, polls) == p,
    decreases polls.len(),
{
    if polls.len() > 0 {
        lemma_spin_no_op(spin_phase(p, polls[0]), polls.drop_first());
    }
}

/// A running task stays running for as long as its steps report "not finished".
pub proof fn lemma_pending_keeps_running(n: nat)
    ensures
        spin_all(Phase::Running, pending_steps(n)) == Phase::Running,
    decreases n,
{
    if n > 0 {
        assert(pending_steps(n).drop_first() =~= pending_steps((n - 1) as nat));
        lemma_pending_keeps_running((n - 1) as nat);
    }
}

/// A task that has not finished after any number of steps is not ready to be
/// collected, and asking for its output leaves it running.
pub proof fn lemma_unfinished_not_ready(n: nat)
    ensures
        copy_outcome(spin_all(Phase::Running, pending_steps(n))) == (
        Phase::Running,
        Err::<Seq<u8>, CopyResponseErr>(CopyResponseErr::NotReady),
        ),
{
    lemma_pending_keeps_running(n);
}

/// Spinning through a sequence of steps and then through another is spinning
/// through both in order.
pub proof fn lemma_spin_all_append(p: Phase, a: Seq<Option<Seq<u8>>>, b: Seq<Option<Seq<u8>>>)
    ensures
        spin_all(p, a + b) == spin_all(spin_all(p, a), b),
    decreases a.len(),
{
    if a.len() > 0 {
        assert((a + b).drop_first() =~= a.drop_first() + b);
        lemma_spin_all_append(spin_phase(p, a[0]), a.drop_first(), b);
    }
}

/// A task that runs for any number of unfinished steps and then finishes with
/// `out` hands out exactly `out` when collected, and the slot is free again.
pub proof fn lemma_round_trip(n: nat, out: Seq<u8>)
    ensures
        copy_outcome(spin_all(Phase::Running, pending_steps(n).push(Some(out)))) == (
        Phase::Idle,
        Ok::<Seq<u8>, CopyResponseErr>(out),
        ),
{
    let last = seq![Some(out)];
    assert(pending_steps(n).push(Some(out)) =~= pending_steps(n) + last);
    lemma_spin_all_append(Phase::Running, pending_steps(n), last);
    lemma_pending_keeps_running(n);
    assert(last.drop_first() =~= Seq::<Option<Seq<u8>>>::empty());
    assert(spin_all(Phase::ResultReady(out), last.drop_first()) == Phase::ResultReady(out));
    assert(spin_all(Phase::Running, last) == Phase::ResultReady(out));
}

/// Right after a collection succeeds, a second one finds no task.
pub proof fn lemma_collect_resets(p: Phase)
    requires
        copy_outcome(p).1 is Ok,
    ensures
        copy_outcome(p).0 == Phase::Idle,
        copy_outcome(copy_outcome(p).0).1 == Err::<Seq<u8>, CopyResponseErr>(
            CopyResponseErr::NotRunning,
        ),
{
}

/// A cancellation that discards a task frees the slot, and no spinning after it
/// brings anything to collect.
pub proof fn lemma_cancel_clears(p: Phase, polls: Seq<Option<Seq<u8>>>)
    requires
        cancel_outcome(p).1,
    ensures
        cancel_outcome(p).0 == Phase::Idle,
        copy_outcome(spin_all(cancel_outcome(p).0, polls)).1 == Err::<Seq<u8>, CopyResponseErr>(
            CopyResponseErr::NotRunning,
        ),
{
    lemma_spin_no_op(Phase::Idle, polls);
}

} // verus!
