//! The entry trampoline's decisions.
//!
//! Hardware enters the enclave with three raw inputs: the current nesting
//! level (the CSSA index), the address of the slot's thread-control
//! structure, and the host's resume state.  Before any trusted logic can
//! run, the trampoline must choose a stack, decide whether the one-time
//! relocation is still owed, and — for a nested entry — make sure the
//! interrupted level had already enabled exception delivery.  On the way
//! out it scrubs the CPU and executes the hardware exit instruction.
//!
//! The raw register moves themselves are a handful of machine instructions
//! outside this crate; everything they need to know is computed here, over
//! plain values, with the hardware exit state pinned down by
//! [`crate::cpu::exit_state`].

use vstd::prelude::*;
use crate::cpu::{clearp, clearx, exit_state, CpuState};
use crate::layout::{CSSA_0_STACK_SIZE, EEXIT, PAGE_SIZE, RED_ZONE_SIZE};
use crate::stack::{stack_pointer, stack_pointer_spec};
use crate::thread::{ShimState, Slot};

verus! {

/// Everything the raw entry sequence needs before it can call into the
/// dispatcher.
#[derive(Clone, Copy, PartialEq, Eq, Debug)]
pub struct EntryPlan {
    /// The stack pointer for the call into trusted logic: the level's
    /// aligned stack top, less the slot that keeps the saved host stack
    /// pointer and the word that re-aligns the call frame.
    pub sp: usize,
    /// The host's resume stack pointer, pushed so the exit path can
    /// restore it.
    pub saved_rsp: usize,
    /// Whether the one-time image relocation must run before anything
    /// else; true exactly at the first base-level entry of the enclave's
    /// lifetime.
    pub relocate_now: bool,
}

/// One attempt to enter: either the entry may proceed with a plan, or it
/// raced the interrupted level's initialization and must poll again.
#[derive(Clone, Copy, PartialEq, Eq, Debug)]
pub enum EntryStep {
    /// The entry may proceed.
    Proceed(EntryPlan),
    /// The previous level has not enabled exception delivery yet.  This is
    /// a hardware/software race, not an error: the racing entry finishes
    /// its initialization in bounded time, so the trampoline polls until
    /// the flag appears.
    Retry,
}

/// The stack pointer the trampoline derives for an entry, reading the
/// previous level's saved stack pointer only for levels at or above 2.
pub open spec fn entry_stack_top(slot: Slot, cssa: usize, tcs: usize) -> int {
    stack_pointer_spec(
        cssa as int,
        tcs as int,
        if cssa >= 2 {
            slot.ssas@[cssa - 1].rsp as int
        } else {
            0
        },
    )
}

/// Decides one entry attempt at the hardware boundary.
///
/// A nested entry whose previous level has not yet enabled exceptions is
/// told to retry.  Otherwise the plan fixes the stack for the level, keeps
/// the host's resume stack pointer for the exit path, and orders the
/// one-time relocation exactly at the first base-level entry.
pub fn trampoline_enter(
    st: &ShimState,
    slot: &Slot,
    cssa: usize,
    tcs: usize,
    host_rsp: usize,
) -> (r: EntryStep)
    requires
        cssa < slot.ssas@.len(),
        cssa == 0 ==> tcs >= PAGE_SIZE + 32,
        cssa == 1 ==> tcs >= PAGE_SIZE + CSSA_0_STACK_SIZE + 32,
        cssa >= 2 ==> slot.ssas@[cssa - 1].rsp >= RED_ZONE_SIZE + 32,
    ensures
        r is Retry <==> (cssa >= 1 && !slot.ssas@[cssa - 1].exceptions_enabled),
        r matches EntryStep::Proceed(p) ==> p.sp as int == entry_stack_top(*slot, cssa, tcs) - 16
            && p.sp % 16 == 0 && p.saved_rsp == host_rsp && p.relocate_now == (cssa == 0
            && !st.relocated),
{
    if cssa >= 1 && !slot.ssas[cssa - 1].exceptions_enabled {
        return EntryStep::Retry;
    }
    let prev_rsp: usize = if cssa >= 2 {
        slot.ssas[cssa - 1].rsp
    } else {
        0
    };
    let top = stack_pointer(cssa, tcs, prev_rsp);
    proof {
        crate::stack::lemma_align16(
            if cssa == 0 {
                tcs - PAGE_SIZE
            } else if cssa == 1 {
                tcs - PAGE_SIZE - CSSA_0_STACK_SIZE
            } else {
                prev_rsp - RED_ZONE_SIZE
            },
        );
        assert((top - 16) % 16 == 0) by (nonlinear_arith)
            requires
                top % 16 == 0,
                top >= 16,
        ;
    }
    EntryStep::Proceed(
        EntryPlan { sp: top - 16, saved_rsp: host_rsp, relocate_now: cssa == 0 && !st.relocated },
    )
}

/// Performs the exit-side scrub: clears temporaries, flags and extended
/// state, then the parameter registers, and leaves exactly the result code
/// in `r8`, the exit leaf in `rax`, and the host's resume stack pointer in
/// `rsp`.  No other value survives the boundary.
pub fn trampoline_exit(cpu: &mut CpuState, ret: i32, host_rsp: u64)
    ensures
        final(cpu)@ == exit_state(old(cpu)@, ret, host_rsp),
{
    clearx(cpu);
    clearp(cpu);
    cpu.r8 = ret as u64;
    cpu.rax = EEXIT;
    cpu.rsp = host_rsp;
    proof {
        assert(cpu@ =~= exit_state(old(cpu)@, ret, host_rsp));
    }
}

} // verus!
