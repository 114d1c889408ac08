//! One-time self-relocation of the enclave image.
//!
//! The image is linked position-independent and carries a table of fixups:
//! words that must hold an absolute address and therefore cannot be filled
//! in before the load base is known.  On the very first entry of the
//! enclave's lifetime — and never again — each table entry is rewritten to
//! the load base plus the entry's addend.  The trampoline's
//! level-and-first-activation check is the only guard against a second
//! invocation, which is why [`relocate`] insists on the unset flag.

use vstd::prelude::*;
use vstd::pervasive::VecAdditionalExecFns;
use crate::thread::ShimState;

verus! {

/// One fixup: the image word at index `offset` must become the load base
/// plus `addend`.
#[derive(Clone, Copy, PartialEq, Eq, Debug)]
pub struct RelocEntry {
    /// Word index of the reference to rewrite.
    pub offset: usize,
    /// Distance of the referenced location from the image's start.
    pub addend: u64,
}

/// A relocation table is well-formed for an image of `len` words when every
/// target lies inside the image and no two entries rewrite the same word.
pub open spec fn wf_table(table: Seq<RelocEntry>, len: nat) -> bool {
    (forall|i: int| 0 <= i < table.len() ==> (#[trigger] table[i].offset) < len) && (forall|
        i: int,
        j: int,
    |
        0 <= i < j < table.len() ==> (#[trigger] table[i].offset) != (#[trigger] table[j].offset))
}

/// Whether some entry among the first `k` of the table rewrites word `w`.
pub open spec fn rewritten_within(table: Seq<RelocEntry>, k: int, w: int) -> bool {
    exists|i: int| 0 <= i < k && (#[trigger] table[i].offset) == w
}

/// Whether any entry of the table rewrites word `w`.
pub open spec fn rewritten(table: Seq<RelocEntry>, w: int) -> bool {
    rewritten_within(table, table.len() as int, w)
}

/// Applies every fixup of the table to the image, using the actual load
/// base: each listed word becomes `base + addend`, and no other word
/// changes.
pub fn apply_relocations(image: &mut Vec<u64>, table: &Vec<RelocEntry>, base: u64)
    requires
        wf_table(table@, old(image)@.len()),
        forall|i: int| 0 <= i < table@.len() ==> base + (#[trigger] table@[i].addend)
            <= u64::MAX,
    ensures
        final(image)@.len() == old(image)@.len(),
        forall|i: int| 0 <= i < table@.len() ==> final(image)@[#[trigger] table@[i].offset as int]
            == base + table@[i].addend,
        forall|w: int| 0 <= w < old(image)@.len() && !rewritten(table@, w)
            ==> final(image)@[w] == old(image)@[w],
{
    let mut k: usize = 0;
    while k < table.len()
        invariant
            k <= table@.len(),
            image@.len() == old(image)@.len(),
            wf_table(table@, image@.len()),
            forall|i: int| 0 <= i < table@.len() ==> base + (#[trigger] table@[i].addend)
                <= u64::MAX,
            forall|i: int| 0 <= i < k ==> image@[#[trigger] table@[i].offset as int]
                == base + table@[i].addend,
            forall|w: int| 0 <= w < image@.len() && !rewritten_within(table@, k as int, w)
                ==> image@[w] == old(image)@[w],
        decreases table@.len() - k,
    {
        let e = table[k];
        image.set(e.offset, base + e.addend);
        k += 1;
    }
}

/// Runs the one-time relocation.  The flag in the shared state records that
/// it has happened; a second invocation is undefined by design, so the
/// unset flag is a precondition, not a runtime test.  The fixups are pure
/// stores into the image: the caller's register state is left untouched.
pub fn relocate(st: &mut ShimState, image: &mut Vec<u64>, table: &Vec<RelocEntry>, base: u64)
    requires
        !old(st).relocated,
        wf_table(table@, old(image)@.len()),
        forall|i: int| 0 <= i < table@.len() ==> base + (#[trigger] table@[i].addend)
            <= u64::MAX,
    ensures
        final(st).relocated,
        final(st).queue@ == old(st).queue@,
        final(st).threads_free == old(st).threads_free,
        final(image)@.len() == old(image)@.len(),
        forall|i: int| 0 <= i < table@.len() ==> final(image)@[#[trigger] table@[i].offset as int]
            == base + table@[i].addend,
        forall|w: int| 0 <= w < old(image)@.len() && !rewritten(table@, w)
            ==> final(image)@[w] == old(image)@[w],
{
    apply_relocations(image, table, base);
    st.relocated = true;
}

} // verus!
