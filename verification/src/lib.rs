//! Verified core of an SGX enclave shim.
//!
//! The shim is the code that stands between an untrusted host and a trusted
//! workload running inside a hardware-isolated enclave.  Everything the host
//! hands to the enclave — the shared communication block, the contents of the
//! new-thread queue, the timing of entries — is adversarial input and is
//! validated before use.
//!
//! This crate holds the shim's decision logic over plain values: the entry
//! trampoline's stack discipline, the state sanitizer, the one-time image
//! relocator, the nesting-level dispatcher, and the thread-lifecycle
//! bookkeeping.  The few machine-level fragments that no verifier can see
//! (the naked hardware entry point, the `xrstor`/`enclu` instruction
//! sequences) live outside this crate and drive these functions.

use vstd::prelude::*;

pub mod addr;
pub mod cpu;
pub mod dispatch;
pub mod layout;
pub mod reloc;
pub mod stack;
pub mod thread;
pub mod trampoline;

verus! {

/// A protocol violation detected at the trust boundary.
///
/// Every variant is fatal by design: the only safe response is to halt the
/// enclave thread without returning control to the host, since reporting the
/// violation could itself leak exploitable state.
#[derive(Clone, Copy, PartialEq, Eq, Debug)]
pub enum Fault {
    /// The host-supplied shared communication block overlaps the enclave's
    /// own address range.
    BlockOverlap,
    /// The new-thread request queue was empty at a base-level activation,
    /// although the host protocol requires one pending request per
    /// activation.
    EmptyQueue,
}

/// The terminal state of an enclave thread that detected a [`Fault`].
///
/// A halted thread never executes the hardware exit instruction again, so a
/// fault is observable to the host only as an enclave that stops responding.
#[derive(Clone, Copy, PartialEq, Eq, Debug)]
pub struct Halted {
    /// The violation that stopped the thread.
    pub cause: Fault,
}

/// The shim's panic path: a detected protocol violation halts the enclave
/// thread.  Nothing is translated into a host-visible error value; the
/// resulting [`Halted`] state is final.
pub fn panic(cause: Fault) -> (h: Halted)
    ensures
        h == (Halted { cause }),
{
    Halted { cause }
}

} // verus!
