use vstd::prelude::*;

use crate::phase::{cancel_outcome, copy_outcome, spin_phase, Phase};

verus! {

/// The outcome of driving a task by one step.
pub enum Poll {
    /// The task finished with these output bytes.
    Ready(Vec<u8>),
    /// The task has not finished; it keeps its state until the next step.
    Pending,
}

impl Poll {
    /// The output of a finished step, `None` for an unfinished one.
    pub open spec fn output(self) -> Option<Seq<u8>> {
        match self {
            Poll::Ready(out) => Some(out@),
            Poll::Pending => None,
        }
    }
}

/// A suspendable computation that eventually turns its input bytes into output bytes.
pub trait Task: Sized {
    /// How one step may leave the computation: from `before` to `after`, finished
    /// with `out` when it is `Some`. Each kind of task may say this of itself; one
    /// that does not allows any step.
    open spec fn step(before: Self, after: Self, out: Option<Seq<u8>>) -> bool {
        true
    }

    /// Drives the computation forward by one unit of progress.
    fn poll(&mut self) -> (r: Poll)
        ensures
            Self::step(*old(self), *final(self), r.output()),
    ;
}

/// Why `copy_response` had nothing to hand out.
#[derive(PartialEq, Eq, Debug, Structural)]
pub enum CopyResponseErr {
    /// No task exists.
    NotRunning,
    /// A task exists but has not finished.
    NotReady,
}

enum UsbTaskState<T> {
    Nothing,
    /// The task is `None` only while it is being polled, inside `spin`.
    Running(Option<T>),
    ResultAvailable(Vec<u8>),
}

/// The slot that holds at most one task and its lifecycle phase.
pub struct Executor<T> {
    state: UsbTaskState<T>,
}

impl<T> Executor<T> {
    /// The task is absent from a running slot only in the middle of a step.
    pub closed spec fn wf(&self) -> bool {
        !(self.state matches UsbTaskState::Running(None))
    }

    pub closed spec fn phase(&self) -> Phase {
        match self.state {
            UsbTaskState::Nothing => Phase::Idle,
            UsbTaskState::Running(_) => Phase::Running,
            UsbTaskState::ResultAvailable(out) => Phase::ResultReady(out@),
        }
    }

    /// The task held by a running slot.
    pub closed spec fn task(&self) -> T
        recommends
            self.phase() == Phase::Running,
    {
        match self.state {
            UsbTaskState::Running(Some(t)) => t,
            _ => arbitrary(),
        }
    }

    /// An empty slot.
    pub fn new() -> (r: Self)
        ensures
            r.wf(),
            r.phase() == Phase::Idle,
    {
        Executor { state: UsbTaskState::Nothing }
    }
}

/// Starts a task made by `workflow` from a copy of `usb_in`. The slot must be idle:
/// a task that is still running or whose result was not collected may not be replaced.
pub fn spawn<T: Task, W: Fn(Vec<u8>) -> T>(executor: &mut Executor<T>, workflow: W, usb_in: &[u8])
    requires
        old(executor).wf(),
        old(executor).phase() == Phase::Idle,
        forall|v: Vec<u8>| v@ == usb_in@ ==> #[trigger] workflow.requires((v,)),
    ensures
        final(executor).wf(),
        final(executor).phase() == Phase::Running,
        exists|v: Vec<u8>| v@ == usb_in@ && #[trigger] workflow.ensures((v,), final(executor).task()),
{
    match executor.state {
        UsbTaskState::Nothing => {
            let input = vstd::slice::slice_to_vec(usb_in);
            let ghost arg = input;
            let task = workflow(input);
            executor.state = UsbTaskState::Running(Some(task));
            assert(workflow.ensures((arg,), executor.task()));
        },
        _ => unreached(),
    }
}

/// Puts the outcome of a step into a slot whose task was taken out for it: the
/// output when the task finished, the task itself when it did not.
fn settle<T: Task>(executor: &mut Executor<T>, task: T, outcome: Poll)
    requires
        old(executor).state matches UsbTaskState::Running(None),
    ensures
        final(executor).wf(),
        final(executor).phase() == spin_phase(Phase::Running, outcome.output()),
        outcome is Pending ==> final(executor).task() == task,
{
    match outcome {
        Poll::Ready(out) => {
            executor.state = UsbTaskState::ResultAvailable(out);
        },
        Poll::Pending => {
            // The slot cannot have changed during the step: nothing else held it.
            match executor.state {
                UsbTaskState::Running(ref mut slot) => {
                    *slot = Some(task);
                },
                _ => unreached(),
            }
        },
    }
}

/// Drives the running task, if there is one, by exactly one step, without holding
/// it in the slot while it runs. A task that finishes leaves its output in the
/// slot; one that does not goes back into the slot as the step left it. In any
/// other phase nothing changes.
pub fn spin<T: Task>(executor: &mut Executor<T>)
    requires
        old(executor).wf(),
    ensures
        final(executor).wf(),
        old(executor).phase() != Phase::Running ==> *final(executor) == *old(executor),
        old(executor).phase() == Phase::Running ==> exists|t: T, poll: Option<Seq<u8>>|
            #[trigger] T::step(old(executor).task(), t, poll)
                && final(executor).phase() == spin_phase(Phase::Running, poll)
                && (poll is None ==> final(executor).task() == t),
{
    let popped = match executor.state {
        UsbTaskState::Running(ref mut task) => task.take(),
        _ => None,
    };
    assert(old(executor).phase() == Phase::Running ==> popped == Some(old(executor).task()));
    if let Some(mut task) = popped {
        let ghost before = task;
        let outcome = task.poll();
        let ghost after = task;
        let ghost poll = outcome.output();
        settle(executor, task, outcome);
        assert(T::step(before, after, poll));
        assert(executor.phase() == spin_phase(Phase::Running, poll));
    }
}

/// Hands out the finished task's output: copies it to the front of `dst`, frees
/// the slot and returns the number of bytes written. Fails with `NotRunning` when
/// no task exists and with `NotReady` when the task has not finished; `dst` is
/// then untouched. `dst` must be able to take the whole output.
pub fn copy_response<T>(executor: &mut Executor<T>, dst: &mut [u8]) -> (r: Result<usize, CopyResponseErr>)
    requires
        old(executor).wf(),
        old(executor).phase() matches Phase::ResultReady(out) ==> out.len() <= old(dst)@.len(),
    ensures
        final(executor).wf(),
        final(executor).phase() == copy_outcome(old(executor).phase()).0,
        match copy_outcome(old(executor).phase()).1 {
            Ok(out) => r == Ok::<usize, CopyResponseErr>(out.len() as usize)
                && final(dst)@ == out + old(dst)@.skip(out.len() as int),
            Err(e) => r == Err::<usize, CopyResponseErr>(e) && final(dst)@ == old(dst)@
                && *final(executor) == *old(executor),
        },
{
    let len: usize;
    match executor.state {
        UsbTaskState::Nothing => {
            return Err(CopyResponseErr::NotRunning);
        },
        UsbTaskState::Running(_) => {
            return Err(CopyResponseErr::NotReady);
        },
        UsbTaskState::ResultAvailable(ref response) => {
            len = response.len();
            if dst.len() < len {
                // A buffer too short for the output is the caller's fault: abort before
                // writing anything rather than truncate.
                unreached::<()>();
            }
            let mut i: usize = 0;
            while i < len
                invariant
                    len == response@.len(),
                    len <= dst@.len(),
                    i <= len,
                    dst@.len() == old(dst)@.len(),
                    forall|k: int| 0 <= k < i ==> dst@[k] == response@[k],
                    forall|k: int| len <= k < dst@.len() ==> dst@[k] == old(dst)@[k],
                decreases len - i,
            {
                dst[i] = response[i];
                i = i + 1;
            }
            assert(dst@ =~= response@ + old(dst)@.skip(len as int));
        },
    }
    executor.state = UsbTaskState::Nothing;
    Ok(len)
}

/// Discards the running task, if there is one, and frees the slot. Returns whether
/// a task was discarded; an idle slot or a waiting result is left as it is.
pub fn cancel<T>(executor: &mut Executor<T>) -> (r: bool)
    requires
        old(executor).wf(),
    ensures
        final(executor).wf(),
        (final(executor).phase(), r) == cancel_outcome(old(executor).phase()),
        !r ==> *final(executor) == *old(executor),
{
    if let UsbTaskState::Running(_) = executor.state {
        executor.state = UsbTaskState::Nothing;
        return true;
    }
    false
}

} // verus!
