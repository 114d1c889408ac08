//! Build-time layout parameters of the enclave image.
//!
//! These constants are baked into the image's descriptor metadata so the
//! external loader can configure the hardware; inside the enclave they fix
//! the per-thread memory layout that the trampoline's stack arithmetic and
//! the dispatcher's boundary validation rely on.

use vstd::prelude::*;

verus! {

/// Bytes in one page, the granularity of the slot layout.
pub const PAGE_SIZE: usize = 4096;

/// Bytes of private stack reserved for the base nesting level (CSSA 0) of a
/// thread slot.  Stacks for higher nesting levels sit directly below it.
pub const CSSA_0_STACK_SIZE: usize = 0x20000;

/// Bytes that an interrupted frame may still be using below its saved stack
/// pointer (the architectural red zone); nested entries must not touch them.
pub const RED_ZONE_SIZE: usize = 128;

/// Size in bytes of the host-shared communication block.  The host supplies
/// the block's address at every entry; its size is fixed at build time.
pub const BLOCK_SIZE: usize = 69632;

/// The enclave's address-space size as a power-of-two exponent, as recorded
/// in the descriptor metadata.
pub const ENCL_SIZE_BITS: u32 = 31;

/// Total size in bytes of the enclave's address range (`1 << ENCL_SIZE_BITS`).
pub const ENCL_SIZE: usize = 0x80000000;

/// The `ENCLU` instruction leaf that exits the enclave.
pub const EEXIT: u64 = 4;

} // verus!
