//! Stack selection for the entry trampoline.
//!
//! On every enclave entry the hardware supplies the current nesting level
//! (the CSSA index) and the address of the thread-control structure (TCS).
//! The trampoline must pick a stack for the trusted logic before a single
//! Rust frame can exist:
//!
//! * level 0 — normal execution: the stack top sits directly below the
//!   slot's control-block page, which itself sits below the TCS;
//! * level 1 — first exception: a dedicated stack below the base level's
//!   region, at a fixed offset from the TCS;
//! * level ≥ 2 — nested exception: the interrupted frame's own saved stack
//!   pointer, minus the architectural red zone it may still be using.
//!
//! In every case the chosen address is aligned down to a 16-byte boundary.

use vstd::prelude::*;
use vstd::arithmetic::div_mod::{lemma_fundamental_div_mod, lemma_mod_multiples_basic};
use crate::layout::{CSSA_0_STACK_SIZE, PAGE_SIZE, RED_ZONE_SIZE};

verus! {

/// `x` rounded down to the nearest multiple of 16.
pub open spec fn align16(x: int) -> int {
    x - x % 16
}

/// Rounding down to 16 lands on a multiple of 16 and loses fewer than 16
/// bytes.
pub proof fn lemma_align16(x: int)
    requires
        x >= 0,
    ensures
        align16(x) % 16 == 0,
        x - 16 < align16(x) <= x,
{
    lemma_fundamental_div_mod(x, 16);
    lemma_mod_multiples_basic(x / 16, 16);
}

/// The stack top the trampoline derives for nesting level `cssa` of a slot
/// whose TCS page starts at `tcs`; `prev_rsp` is the stack pointer saved in
/// the previous level's state save area and is consulted only for levels
/// at or above 2.
pub open spec fn stack_pointer_spec(cssa: int, tcs: int, prev_rsp: int) -> int {
    if cssa == 0 {
        align16(tcs - PAGE_SIZE)
    } else if cssa == 1 {
        align16(tcs - PAGE_SIZE - CSSA_0_STACK_SIZE)
    } else {
        align16(prev_rsp - RED_ZONE_SIZE)
    }
}

/// Computes the stack top for one nesting level of a thread slot.
pub fn stack_pointer(cssa: usize, tcs: usize, prev_rsp: usize) -> (sp: usize)
    requires
        cssa == 0 ==> tcs >= PAGE_SIZE,
        cssa == 1 ==> tcs >= PAGE_SIZE + CSSA_0_STACK_SIZE,
        cssa >= 2 ==> prev_rsp >= RED_ZONE_SIZE,
    ensures
        sp as int == stack_pointer_spec(cssa as int, tcs as int, prev_rsp as int),
        sp % 16 == 0,
{
    let raw: usize = if cssa == 0 {
        tcs - PAGE_SIZE
    } else if cssa == 1 {
        tcs - PAGE_SIZE - CSSA_0_STACK_SIZE
    } else {
        prev_rsp - RED_ZONE_SIZE
    };
    proof {
        lemma_align16(raw as int);
    }
    raw - raw % 16
}

/// Every nesting level at or above 1 receives a stack pointer that is
/// 16-byte aligned and falls strictly within the owning thread's private
/// stack region `(stack_bottom, tcs - PAGE_SIZE)`.
pub proof fn lemma_stack_pointer_in_region(cssa: int, tcs: int, prev_rsp: int, stack_bottom: int)
    requires
        cssa >= 1,
        stack_bottom >= 0,
        cssa == 1 ==> stack_bottom + 16 <= tcs - PAGE_SIZE - CSSA_0_STACK_SIZE,
        cssa >= 2 ==> stack_bottom + RED_ZONE_SIZE + 16 <= prev_rsp <= tcs - PAGE_SIZE,
    ensures
        stack_pointer_spec(cssa, tcs, prev_rsp) % 16 == 0,
        stack_bottom < stack_pointer_spec(cssa, tcs, prev_rsp) < tcs - PAGE_SIZE,
{
    if cssa == 1 {
        lemma_align16(tcs - PAGE_SIZE - CSSA_0_STACK_SIZE);
    } else {
        lemma_align16(prev_rsp - RED_ZONE_SIZE);
    }
}

} // verus!
