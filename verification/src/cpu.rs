//! The state sanitizer.
//!
//! At every transition between host and enclave the trampoline scrubs the
//! CPU state that is not covered by the calling convention: temporary
//! registers, the writable flag bits, and the whole extended (vector/FPU)
//! register file.  Without the scrub the host could read workload secrets
//! out of residual vector state after an exit, and a later thread could
//! observe stale extended state from an earlier, unrelated invocation.
//! After the trusted logic returns, the parameter registers are cleared as
//! well, so that only the designated result register crosses the boundary.

use vstd::prelude::*;
use crate::layout::EEXIT;

verus! {

/// The observable register state the sanitizer acts on: the caller-owned
/// general-purpose registers, the writable flag bits, and the extended
/// (vector/FPU) register file as a sequence of words.
#[derive(Clone, PartialEq, Eq, Debug)]
pub struct CpuState {
    /// Result register; also selects the `ENCLU` leaf at exit.
    pub rax: u64,
    /// Fourth argument register.
    pub rcx: u64,
    /// Third argument register.
    pub rdx: u64,
    /// Second argument register.
    pub rsi: u64,
    /// First argument register.
    pub rdi: u64,
    /// Fifth argument register.
    pub r8: u64,
    /// Sixth argument register.
    pub r9: u64,
    /// Temporary register.
    pub r10: u64,
    /// Temporary register.
    pub r11: u64,
    /// Stack pointer.
    pub rsp: u64,
    /// The flag bits that user code can write (direction, arithmetic).
    pub flags: u64,
    /// The extended register file, word by word.
    pub xstate: Vec<u64>,
}

/// The mathematical view of a [`CpuState`].
#[verifier::ext_equal]
pub struct CpuModel {
    /// Result register.
    pub rax: u64,
    /// Fourth argument register.
    pub rcx: u64,
    /// Third argument register.
    pub rdx: u64,
    /// Second argument register.
    pub rsi: u64,
    /// First argument register.
    pub rdi: u64,
    /// Fifth argument register.
    pub r8: u64,
    /// Sixth argument register.
    pub r9: u64,
    /// Temporary register.
    pub r10: u64,
    /// Temporary register.
    pub r11: u64,
    /// Stack pointer.
    pub rsp: u64,
    /// Writable flag bits.
    pub flags: u64,
    /// Extended register file.
    pub xstate: Seq<u64>,
}

impl View for CpuState {
    type V = CpuModel;

    open spec fn view(&self) -> CpuModel {
        CpuModel {
            rax: self.rax,
            rcx: self.rcx,
            rdx: self.rdx,
            rsi: self.rsi,
            rdi: self.rdi,
            r8: self.r8,
            r9: self.r9,
            r10: self.r10,
            r11: self.r11,
            rsp: self.rsp,
            flags: self.flags,
            xstate: self.xstate@,
        }
    }
}

/// The state left behind by [`clearx`]: temporaries, flags and the whole
/// extended register file at the all-zero synthetic baseline; everything
/// else untouched.
pub open spec fn scrub_extended(c: CpuModel) -> CpuModel {
    CpuModel {
        r10: 0,
        r11: 0,
        flags: 0,
        xstate: Seq::new(c.xstate.len(), |i: int| 0u64),
        ..c
    }
}

/// The state left behind by [`clearp`]: all parameter registers zero,
/// everything else untouched.
pub open spec fn scrub_params(c: CpuModel) -> CpuModel {
    CpuModel { rax: 0, rcx: 0, rdx: 0, rsi: 0, rdi: 0, r8: 0, r9: 0, ..c }
}

/// The register state with which the trampoline executes the hardware exit
/// instruction: a full scrub, the result in `r8`, the exit leaf in `rax`,
/// and the host's resume stack pointer restored.
pub open spec fn exit_state(c: CpuModel, ret: i32, host_rsp: u64) -> CpuModel {
    CpuModel {
        r8: ret as u64,
        rax: EEXIT,
        rsp: host_rsp,
        ..scrub_params(scrub_extended(c))
    }
}

/// Clears the temporary registers, the writable flag bits and the extended
/// register file.  Invoked on the way into trusted logic and again on the
/// way out.
pub fn clearx(cpu: &mut CpuState)
    ensures
        final(cpu)@ == scrub_extended(old(cpu)@),
{
    let n = cpu.xstate.len();
    let mut zeros: Vec<u64> = Vec::with_capacity(n);
    let mut i: usize = 0;
    while i < n
        invariant
            i <= n,
            zeros@.len() == i,
            forall|j: int| 0 <= j < i ==> zeros@[j] == 0u64,
        decreases n - i,
    {
        zeros.push(0);
        i += 1;
    }
    cpu.r10 = 0;
    cpu.r11 = 0;
    cpu.flags = 0;
    cpu.xstate = zeros;
    proof {
        assert(cpu@.xstate =~= scrub_extended(old(cpu)@).xstate);
        assert(cpu@ =~= scrub_extended(old(cpu)@));
    }
}

/// Clears the parameter registers after the trusted logic has returned, so
/// that no argument value leaks through the exit.
pub fn clearp(cpu: &mut CpuState)
    ensures
        final(cpu)@ == scrub_params(old(cpu)@),
{
    cpu.rax = 0;
    cpu.rcx = 0;
    cpu.rdx = 0;
    cpu.rsi = 0;
    cpu.rdi = 0;
    cpu.r8 = 0;
    cpu.r9 = 0;
    proof {
        assert(cpu@ =~= scrub_params(old(cpu)@));
    }
}

/// The sanitizer is idempotent: scrubbing a state that has already been
/// scrubbed changes nothing, so applying it twice in sequence leaves the
/// same observable register and flag state as applying it once.
pub proof fn lemma_sanitizer_idempotent(c: CpuModel)
    ensures
        scrub_extended(scrub_extended(c)) == scrub_extended(c),
        scrub_params(scrub_params(c)) == scrub_params(c),
{
    assert(scrub_extended(scrub_extended(c)).xstate =~= scrub_extended(c).xstate);
    assert(scrub_extended(scrub_extended(c)) =~= scrub_extended(c));
    assert(scrub_params(scrub_params(c)) =~= scrub_params(c));
}

} // verus!
