//! Boundary validation of host-supplied addresses.
//!
//! The host chooses the address of the shared communication block at every
//! entry.  A block that overlaps the enclave's own address range would let
//! the host read or rewrite enclave state through the syscall channel, so
//! the dispatcher refuses such a block before any use.  The refusal is
//! fatal: a host that violates the placement rule is not negotiating in
//! good faith.

use vstd::prelude::*;
use crate::layout::{BLOCK_SIZE, ENCL_SIZE};

verus! {

/// Whether the half-open range `[a_start, a_end)` touches the half-open
/// range `[b_start, b_end)` at either boundary: its start lies inside, or
/// its end reaches inside.  A range that lies fully inside satisfies both
/// disjuncts at once.
pub open spec fn overlaps_boundary(a_start: int, a_end: int, b_start: int, b_end: int) -> bool {
    (a_start >= b_start && a_start < b_end) || (a_end > b_start && a_end <= b_end)
}

/// Whether a shared block starting at `block_start` overlaps an enclave
/// image loaded at `shim_start`; both sizes are build-time constants.
pub open spec fn block_overlaps_shim(block_start: int, shim_start: int) -> bool {
    overlaps_boundary(
        block_start,
        block_start + BLOCK_SIZE,
        shim_start,
        shim_start + ENCL_SIZE,
    )
}

/// Tests two address ranges, given as start and length, for overlap at
/// either boundary.
pub fn range_overlaps(a_start: usize, a_len: usize, b_start: usize, b_len: usize) -> (r: bool)
    requires
        a_start + a_len <= usize::MAX,
        b_start + b_len <= usize::MAX,
    ensures
        r == overlaps_boundary(
            a_start as int,
            a_start + a_len,
            b_start as int,
            b_start + b_len,
        ),
{
    let a_end = a_start + a_len;
    let b_end = b_start + b_len;
    (a_start >= b_start && a_start < b_end) || (a_end > b_start && a_end <= b_end)
}

/// Tests the host-supplied shared block against the enclave's own range.
pub fn shared_block_overlaps(block_start: usize, shim_start: usize) -> (r: bool)
    requires
        block_start + BLOCK_SIZE <= usize::MAX,
        shim_start + ENCL_SIZE <= usize::MAX,
    ensures
        r == block_overlaps_shim(block_start as int, shim_start as int),
{
    range_overlaps(block_start, BLOCK_SIZE, shim_start, ENCL_SIZE)
}

/// A shared block that lies fully inside the enclave's range is caught by
/// the boundary test: containment implies both boundary conditions.
pub proof fn lemma_contained_block_overlaps(block_start: int, shim_start: int)
    requires
        shim_start <= block_start,
        block_start + BLOCK_SIZE <= shim_start + ENCL_SIZE,
    ensures
        block_overlaps_shim(block_start, shim_start),
{
}

} // verus!
