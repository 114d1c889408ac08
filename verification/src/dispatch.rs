//! The nesting-level dispatcher.
//!
//! Once per enclave entry the trampoline hands control to the dispatcher
//! with the host-supplied shared-block address and the current nesting
//! level (the CSSA index).  The dispatcher validates the block's placement,
//! then routes by level: level 0 is thread bring-up, level 1 is the normal
//! syscall trap, and level 2 or above resumes a syscall whose completion
//! needed a further host round-trip.
//!
//! The outside work a route calls for — entering the workload, loading a
//! register snapshot, the syscall handler's `handle` and `finish` — cannot
//! run under a verifier, so the dispatcher returns it as an [`Action`] for
//! the surrounding runtime to perform.  [`dispatch_enter`] decides the
//! action and updates the slot; [`dispatch_leave`] takes the action's
//! result code, completes the bookkeeping and hands the code back to the
//! trampoline unchanged.  Around the pair, the entry's exceptions-enabled
//! flag is set and cleared again, bracketing the window during which a
//! nested exception may be delivered.

use vstd::prelude::*;
use crate::addr::{block_overlaps_shim, shared_block_overlaps};
use crate::layout::{BLOCK_SIZE, ENCL_SIZE};
use crate::thread::{NewThread, ShimState, Slot, StateArea, Registers, Tcb};
use crate::Fault;

verus! {

/// The outside work one dispatch decides on; performed by the surrounding
/// runtime after [`dispatch_enter`] returns.
#[derive(Clone, Copy, PartialEq, Eq, Debug)]
pub enum Action {
    /// Invoke the workload's entry point at the image's designated start
    /// address, on behalf of the primary thread.
    EnterMain {
        /// The address of the workload's first instruction.
        start: usize,
    },
    /// Resume a newly created worker thread from the host-supplied
    /// register snapshot.
    LoadRegisters {
        /// The snapshot to load, exactly as dequeued.
        regs: Registers,
    },
    /// Let the syscall handler marshal the trapped request out of the
    /// named state save area into the shared block.
    Handle {
        /// Index of the state save area holding the trapped register
        /// state; always 0, the base level that took the trap.
        ssa_index: usize,
    },
    /// Let the syscall handler decode the host's response from the shared
    /// block back into the named state save area.
    Finish {
        /// Index of the state save area to decode into; always the level
        /// directly below the current entry.
        ssa_index: usize,
    },
}

/// The control block recorded for one dequeued request: identifier 0 for
/// the primary thread; for a worker, the announced identifier and, when
/// the notification address is not 0, the exit-notify target.
pub open spec fn tcb_for(t: NewThread) -> Tcb {
    match t {
        NewThread::Main => Tcb { tid: 0, clear_on_exit: None },
        NewThread::Thread { tid, clear_on_exit, .. } => Tcb {
            tid,
            clear_on_exit: if clear_on_exit != 0 {
                Some(clear_on_exit)
            } else {
                None
            },
        },
    }
}

/// What one dispatch returns, as a function of the pending queue, the
/// nesting level and the host-supplied block placement: the fault that
/// halts the thread, or the action the runtime must perform.
pub open spec fn dispatch_decision(
    queue: Seq<NewThread>,
    cssa: usize,
    block_start: usize,
    shim_start: usize,
    exec_start: usize,
) -> Result<Action, Fault> {
    if block_overlaps_shim(block_start as int, shim_start as int) {
        Err(Fault::BlockOverlap)
    } else if cssa == 0 {
        if queue.len() == 0 {
            Err(Fault::EmptyQueue)
        } else {
            match queue[0] {
                NewThread::Main => Ok(Action::EnterMain { start: exec_start }),
                NewThread::Thread { regs, .. } => Ok(Action::LoadRegisters { regs }),
            }
        }
    } else if cssa == 1 {
        Ok(Action::Handle { ssa_index: 0 })
    } else {
        Ok(Action::Finish { ssa_index: (cssa - 1) as usize })
    }
}

/// Validates the entry and decides its action.
///
/// Sets the entry's exceptions-enabled flag, refuses a shared block that
/// overlaps the enclave, and routes by nesting level.  At level 0 it
/// initializes the slot's control block and consumes exactly one pending
/// request; an empty queue is a host protocol violation and fatal, and
/// consumes nothing.  At higher levels the slot is left untouched.
pub fn dispatch_enter(
    st: &mut ShimState,
    slot: &mut Slot,
    cssa: usize,
    block_start: usize,
    shim_start: usize,
    exec_start: usize,
) -> (r: Result<Action, Fault>)
    requires
        cssa < old(slot).ssas@.len(),
        cssa >= 1 ==> old(slot).tcb is Some,
        block_start + BLOCK_SIZE <= usize::MAX,
        shim_start + ENCL_SIZE <= usize::MAX,
    ensures
        r == dispatch_decision(old(st).queue@, cssa, block_start, shim_start, exec_start),
        final(slot).ssas@ == old(slot).ssas@.update(
            cssa as int,
            StateArea { exceptions_enabled: true, rsp: old(slot).ssas@[cssa as int].rsp },
        ),
        final(st).threads_free == old(st).threads_free,
        final(st).relocated == old(st).relocated,
        r is Ok && cssa == 0 ==> final(st).queue@ == old(st).queue@.drop_first()
            && final(slot).tcb == Some(tcb_for(old(st).queue@[0])),
        r is Err && cssa == 0 && !block_overlaps_shim(
            block_start as int,
            shim_start as int,
        ) ==> final(st).queue@ == old(st).queue@
            && final(slot).tcb == Some(Tcb { tid: 0, clear_on_exit: None }),
        cssa >= 1 || block_overlaps_shim(block_start as int, shim_start as int)
            ==> final(st).queue@ == old(st).queue@ && final(slot).tcb == old(slot).tcb,
{
    let mut area = slot.ssas[cssa];
    area.exceptions_enabled = true;
    slot.ssas.set(cssa, area);

    if shared_block_overlaps(block_start, shim_start) {
        return Err(Fault::BlockOverlap);
    }

    if cssa == 0 {
        slot.tcb = Some(Tcb { tid: 0, clear_on_exit: None });
        match st.queue.dequeue() {
            None => Err(Fault::EmptyQueue),
            Some(NewThread::Main) => Ok(Action::EnterMain { start: exec_start }),
            Some(NewThread::Thread { tid, clear_on_exit, regs }) => {
                slot.tcb = Some(
                    Tcb {
                        tid,
                        clear_on_exit: if clear_on_exit != 0 {
                            Some(clear_on_exit)
                        } else {
                            None
                        },
                    },
                );
                Ok(Action::LoadRegisters { regs })
            },
        }
    } else if cssa == 1 {
        Ok(Action::Handle { ssa_index: 0 })
    } else {
        Ok(Action::Finish { ssa_index: cssa - 1 })
    }
}

/// Completes a dispatch after the runtime performed the action.
///
/// A base-level entry has just finished a thread's bring-up/exit segment,
/// so the free-thread counter is incremented — after the control block was
/// recorded, never before.  The entry's exceptions-enabled flag is cleared
/// again, and the action's result code passes through untouched: syscall
/// level failures are the workload's to interpret, not the shim's.
pub fn dispatch_leave(st: &mut ShimState, slot: &mut Slot, cssa: usize, result: i32) -> (r: i32)
    requires
        cssa < old(slot).ssas@.len(),
        cssa == 0 ==> old(st).threads_free < u64::MAX,
    ensures
        r == result,
        final(slot).ssas@ == old(slot).ssas@.update(
            cssa as int,
            StateArea { exceptions_enabled: false, rsp: old(slot).ssas@[cssa as int].rsp },
        ),
        final(slot).tcb == old(slot).tcb,
        final(st).queue@ == old(st).queue@,
        final(st).relocated == old(st).relocated,
        cssa == 0 ==> final(st).threads_free == old(st).threads_free + 1,
        cssa != 0 ==> final(st).threads_free == old(st).threads_free,
{
    if cssa == 0 {
        st.threads_free = st.threads_free + 1;
    }
    let mut area = slot.ssas[cssa];
    area.exceptions_enabled = false;
    slot.ssas.set(cssa, area);
    result
}

/// An empty new-thread queue observed at a base-level dispatch is fatal:
/// the decision is a fault, never an action, and where the block placement
/// was valid the fault names the empty queue itself.
pub proof fn lemma_empty_queue_is_fatal(
    queue: Seq<NewThread>,
    block_start: usize,
    shim_start: usize,
    exec_start: usize,
)
    requires
        queue.len() == 0,
    ensures
        dispatch_decision(queue, 0, block_start, shim_start, exec_start) is Err,
        !block_overlaps_shim(block_start as int, shim_start as int)
            ==> dispatch_decision(queue, 0, block_start, shim_start, exec_start)
            == Err::<Action, Fault>(Fault::EmptyQueue),
{
}

/// A shared block that overlaps the enclave's range at either boundary, or
/// lies fully inside it, is refused at every nesting level: the decision is
/// the fatal placement fault, whatever the queue holds.
pub proof fn lemma_overlapping_block_is_fatal(
    queue: Seq<NewThread>,
    cssa: usize,
    block_start: usize,
    shim_start: usize,
    exec_start: usize,
)
    requires
        block_overlaps_shim(block_start as int, shim_start as int) || (
        shim_start <= block_start && block_start + BLOCK_SIZE <= shim_start + ENCL_SIZE),
    ensures
        dispatch_decision(queue, cssa, block_start, shim_start, exec_start) == Err::<
            Action,
            Fault,
        >(Fault::BlockOverlap),
{
    if !block_overlaps_shim(block_start as int, shim_start as int) {
        crate::addr::lemma_contained_block_overlaps(block_start as int, shim_start as int);
    }
}

} // verus!
