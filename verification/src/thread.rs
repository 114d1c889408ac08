//! Thread-lifecycle bookkeeping.
//!
//! The host announces each thread it wants brought up by enqueuing a
//! new-thread request before it (re)activates a slot.  The dispatcher
//! drains the queue exactly once per base-level activation, in enqueue
//! order, records the thread's identity in the slot's control block, and
//! afterwards bumps the free-thread counter so the host can tell when a
//! slot may be reused.  Queue and counter are the only state shared across
//! slots; every other value here is owned by exactly one slot.

use vstd::prelude::*;

verus! {

/// A register snapshot supplied by the host for a newly created worker
/// thread; it is loaded verbatim into the resuming thread's context.
#[derive(Clone, Copy, PartialEq, Eq, Debug)]
pub struct Registers {
    /// Result register.
    pub rax: u64,
    /// Callee-saved register.
    pub rbx: u64,
    /// Fourth argument register.
    pub rcx: u64,
    /// Third argument register.
    pub rdx: u64,
    /// Second argument register.
    pub rsi: u64,
    /// First argument register.
    pub rdi: u64,
    /// Frame base register.
    pub rbp: u64,
    /// Stack pointer.
    pub rsp: u64,
    /// Fifth argument register.
    pub r8: u64,
    /// Sixth argument register.
    pub r9: u64,
    /// Temporary register.
    pub r10: u64,
    /// Temporary register.
    pub r11: u64,
    /// Callee-saved register.
    pub r12: u64,
    /// Callee-saved register.
    pub r13: u64,
    /// Callee-saved register.
    pub r14: u64,
    /// Callee-saved register.
    pub r15: u64,
    /// Instruction pointer.
    pub rip: u64,
    /// Flag register.
    pub rflags: u64,
}

/// One pending bring-up request, enqueued by the host before a slot's
/// activation.
#[derive(Clone, Copy, PartialEq, Eq, Debug)]
pub enum NewThread {
    /// Bring up the primary thread: identifier 0, control enters the
    /// workload at the image's designated start address.
    Main,
    /// Bring up a worker thread from a host-supplied snapshot.
    Thread {
        /// The thread identifier to record; unique for the enclave's
        /// lifetime and never 0, which is reserved for the primary thread.
        tid: u64,
        /// Address of a host-visible flag to clear when the thread exits,
        /// or 0 when the host wants no exit notification.
        clear_on_exit: usize,
        /// The register state with which the thread starts running.
        regs: Registers,
    },
}

/// The per-thread control block, living in a fixed slot next to the
/// thread's private stack.  Written only by the thread that owns the slot.
#[derive(Clone, Copy, PartialEq, Eq, Debug)]
pub struct Tcb {
    /// The thread identifier; 0 is the primary thread.
    pub tid: u64,
    /// The host-visible location to clear on exit, when one was requested.
    pub clear_on_exit: Option<usize>,
}

/// The slice of one state save area that the shim itself reads and writes:
/// the repurposed scratch word that gates exception delivery, and the
/// interrupted frame's stack pointer.
#[derive(Clone, Copy, PartialEq, Eq, Debug)]
pub struct StateArea {
    /// Set while trusted logic runs at this level, so that a nested entry
    /// may treat itself as an enabled exception.  An entry that observes
    /// the previous level's flag still clear has raced the initialization
    /// and retries; it never fails.
    pub exceptions_enabled: bool,
    /// The stack pointer saved when an exception interrupted this level.
    pub rsp: usize,
}

/// One thread slot: its control block, created at the slot's first
/// base-level activation, and its per-level state save areas.
pub struct Slot {
    /// The control block; `None` until the slot's first base-level
    /// activation initializes it.
    pub tcb: Option<Tcb>,
    /// One state save area per supported nesting level.
    pub ssas: Vec<StateArea>,
}

/// The queue of pending new-thread requests, drained first-in-first-out.
pub struct ThreadQueue {
    items: Vec<NewThread>,
}

impl View for ThreadQueue {
    type V = Seq<NewThread>;

    /// The pending requests, next to be dequeued first.
    closed spec fn view(&self) -> Seq<NewThread> {
        self.items@
    }
}

impl ThreadQueue {
    /// An empty queue.
    pub fn new() -> (q: ThreadQueue)
        ensures
            q@ == Seq::<NewThread>::empty(),
    {
        ThreadQueue { items: Vec::new() }
    }

    /// Appends a request behind all pending ones.
    pub fn enqueue(&mut self, t: NewThread)
        ensures
            final(self)@ == old(self)@.push(t),
    {
        self.items.push(t);
    }

    /// Removes and returns the oldest pending request; `None` on an empty
    /// queue.  Requests leave the queue in exactly the order [`Self::enqueue`]
    /// added them.
    pub fn dequeue(&mut self) -> (r: Option<NewThread>)
        ensures
            old(self)@.len() == 0 ==> r is None && final(self)@ == old(self)@,
            old(self)@.len() > 0 ==> r == Some(old(self)@[0])
                && final(self)@ == old(self)@.drop_first(),
    {
        if self.items.len() == 0 {
            None
        } else {
            let t = self.items.remove(0);
            proof {
                assert(self@ =~= old(self)@.drop_first());
            }
            Some(t)
        }
    }

    /// The number of pending requests.
    pub fn len(&self) -> (n: usize)
        ensures
            n == self@.len(),
    {
        self.items.len()
    }
}

/// The state shared by all thread slots of the enclave, initialized once at
/// image activation and never torn down.
pub struct ShimState {
    /// Pending bring-up requests.
    pub queue: ThreadQueue,
    /// Monotonically non-decreasing count of completed base-level
    /// bring-up/exit segments; the host polls it to learn when a slot may
    /// be reused.
    pub threads_free: u64,
    /// Whether the one-time image relocation has run.
    pub relocated: bool,
}

impl ShimState {
    /// The state at the very first entry of the enclave's lifetime.
    pub fn new() -> (st: ShimState)
        ensures
            st.queue@ == Seq::<NewThread>::empty(),
            st.threads_free == 0,
            !st.relocated,
    {
        ShimState { queue: ThreadQueue::new(), threads_free: 0, relocated: false }
    }
}

} // verus!
