use sgx_shim::addr::range_overlaps;
use sgx_shim::cpu::{clearp, clearx, CpuState};
use sgx_shim::dispatch::{dispatch_enter, dispatch_leave, Action};
use sgx_shim::layout::{BLOCK_SIZE, CSSA_0_STACK_SIZE, EEXIT, ENCL_SIZE, PAGE_SIZE};
use sgx_shim::reloc::{apply_relocations, relocate, RelocEntry};
use sgx_shim::stack::stack_pointer;
use sgx_shim::thread::{NewThread, Registers, ShimState, Slot, StateArea, Tcb};
use sgx_shim::trampoline::{trampoline_enter, trampoline_exit, EntryStep};
use sgx_shim::Fault;

const SHIM_START: usize = 0x1_0000_0000;
const EXEC_START: usize = 0x1_0040_0000;
const FAR_BLOCK: usize = 0x10000;

fn fresh_slot(levels: usize) -> Slot {
    let mut ssas = Vec::new();
    for _ in 0..levels {
        ssas.push(StateArea { exceptions_enabled: false, rsp: 0 });
    }
    Slot { tcb: None, ssas }
}

fn sample_regs(seed: u64) -> Registers {
    Registers {
        rax: seed,
        rbx: seed + 1,
        rcx: seed + 2,
        rdx: seed + 3,
        rsi: seed + 4,
        rdi: seed + 5,
        rbp: seed + 6,
        rsp: seed + 7,
        r8: seed + 8,
        r9: seed + 9,
        r10: seed + 10,
        r11: seed + 11,
        r12: seed + 12,
        r13: seed + 13,
        r14: seed + 14,
        r15: seed + 15,
        rip: seed + 16,
        rflags: seed + 17,
    }
}

fn sample_cpu() -> CpuState {
    CpuState {
        rax: 11,
        rcx: 22,
        rdx: 33,
        rsi: 44,
        rdi: 55,
        r8: 66,
        r9: 77,
        r10: 88,
        r11: 99,
        rsp: 0x7000,
        flags: 0x401,
        xstate: vec![1, 2, 3, 4, 5],
    }
}

#[test]
fn main_thread_bring_up() {
    let mut st = ShimState::new();
    st.queue.enqueue(NewThread::Main);
    let mut slot = fresh_slot(3);
    let r = dispatch_enter(&mut st, &mut slot, 0, FAR_BLOCK, SHIM_START, EXEC_START);
    assert_eq!(r, Ok(Action::EnterMain { start: EXEC_START }));
    assert_eq!(slot.tcb, Some(Tcb { tid: 0, clear_on_exit: None }));
    assert_eq!(st.threads_free, 0);
    let code = dispatch_leave(&mut st, &mut slot, 0, 0);
    assert_eq!(code, 0);
    assert_eq!(st.threads_free, 1);
    assert_eq!(st.queue.len(), 0);
}

#[test]
fn worker_thread_bring_up() {
    let regs = sample_regs(1000);
    let mut st = ShimState::new();
    st.queue.enqueue(NewThread::Thread { tid: 5, clear_on_exit: 0x5000, regs });
    let mut slot = fresh_slot(3);
    let r = dispatch_enter(&mut st, &mut slot, 0, FAR_BLOCK, SHIM_START, EXEC_START);
    assert_eq!(r, Ok(Action::LoadRegisters { regs }));
    assert_eq!(slot.tcb, Some(Tcb { tid: 5, clear_on_exit: Some(0x5000) }));
    let code = dispatch_leave(&mut st, &mut slot, 0, 0);
    assert_eq!(code, 0);
    assert_eq!(st.threads_free, 1);
}

#[test]
fn worker_thread_without_exit_notify() {
    let regs = sample_regs(2000);
    let mut st = ShimState::new();
    st.queue.enqueue(NewThread::Thread { tid: 9, clear_on_exit: 0, regs });
    let mut slot = fresh_slot(3);
    let r = dispatch_enter(&mut st, &mut slot, 0, FAR_BLOCK, SHIM_START, EXEC_START);
    assert_eq!(r, Ok(Action::LoadRegisters { regs }));
    assert_eq!(slot.tcb, Some(Tcb { tid: 9, clear_on_exit: None }));
}

#[test]
fn first_exception_routes_to_handle() {
    let mut st = ShimState::new();
    st.queue.enqueue(NewThread::Main);
    let mut slot = fresh_slot(3);
    let r = dispatch_enter(&mut st, &mut slot, 0, FAR_BLOCK, SHIM_START, EXEC_START);
    assert!(matches!(r, Ok(Action::EnterMain { .. })));
    assert!(slot.ssas[0].exceptions_enabled);
    dispatch_leave(&mut st, &mut slot, 0, 0);
    assert!(!slot.ssas[0].exceptions_enabled);
    // The slot's control block survives the bring-up; a level-1 entry is
    // routed to the handler's `handle` path with the level-0 save area.
    let r1 = dispatch_enter(&mut st, &mut slot, 1, FAR_BLOCK, SHIM_START, EXEC_START);
    assert_eq!(r1, Ok(Action::Handle { ssa_index: 0 }));
    assert_eq!(slot.tcb, Some(Tcb { tid: 0, clear_on_exit: None }));
    let code = dispatch_leave(&mut st, &mut slot, 1, -38);
    assert_eq!(code, -38);
    assert_eq!(st.threads_free, 1); // only the base level increments it
}

#[test]
fn nested_exception_routes_to_finish() {
    let mut st = ShimState::new();
    st.queue.enqueue(NewThread::Main);
    let mut slot = fresh_slot(3);
    dispatch_enter(&mut st, &mut slot, 0, FAR_BLOCK, SHIM_START, EXEC_START).unwrap();
    dispatch_leave(&mut st, &mut slot, 0, 0);
    let r = dispatch_enter(&mut st, &mut slot, 2, FAR_BLOCK, SHIM_START, EXEC_START);
    assert_eq!(r, Ok(Action::Finish { ssa_index: 1 }));
}

#[test]
fn empty_queue_is_fatal() {
    let mut st = ShimState::new();
    let mut slot = fresh_slot(3);
    let r = dispatch_enter(&mut st, &mut slot, 0, FAR_BLOCK, SHIM_START, EXEC_START);
    assert_eq!(r, Err(Fault::EmptyQueue));
    assert_eq!(st.threads_free, 0);
}

#[test]
fn queue_drains_in_enqueue_order() {
    let regs_a = sample_regs(100);
    let regs_b = sample_regs(200);
    let mut st = ShimState::new();
    st.queue.enqueue(NewThread::Main);
    st.queue.enqueue(NewThread::Thread { tid: 2, clear_on_exit: 0x9000, regs: regs_a });
    st.queue.enqueue(NewThread::Thread { tid: 3, clear_on_exit: 0, regs: regs_b });
    assert_eq!(st.queue.len(), 3);
    assert_eq!(st.queue.dequeue(), Some(NewThread::Main));
    assert_eq!(
        st.queue.dequeue(),
        Some(NewThread::Thread { tid: 2, clear_on_exit: 0x9000, regs: regs_a })
    );
    assert_eq!(
        st.queue.dequeue(),
        Some(NewThread::Thread { tid: 3, clear_on_exit: 0, regs: regs_b })
    );
    assert_eq!(st.queue.dequeue(), None);
}

#[test]
fn each_activation_consumes_one_request() {
    let regs = sample_regs(300);
    let mut st = ShimState::new();
    st.queue.enqueue(NewThread::Main);
    st.queue.enqueue(NewThread::Thread { tid: 4, clear_on_exit: 0, regs });
    let mut slot_a = fresh_slot(3);
    let mut slot_b = fresh_slot(3);
    let ra = dispatch_enter(&mut st, &mut slot_a, 0, FAR_BLOCK, SHIM_START, EXEC_START);
    assert_eq!(ra, Ok(Action::EnterMain { start: EXEC_START }));
    assert_eq!(st.queue.len(), 1);
    let rb = dispatch_enter(&mut st, &mut slot_b, 0, FAR_BLOCK, SHIM_START, EXEC_START);
    assert_eq!(rb, Ok(Action::LoadRegisters { regs }));
    assert_eq!(st.queue.len(), 0);
}

#[test]
fn block_overlap_start_inside_is_fatal() {
    let mut st = ShimState::new();
    st.queue.enqueue(NewThread::Main);
    let mut slot = fresh_slot(3);
    let r = dispatch_enter(&mut st, &mut slot, 0, SHIM_START + PAGE_SIZE, SHIM_START, EXEC_START);
    assert_eq!(r, Err(Fault::BlockOverlap));
    // fatal: nothing was consumed, no other path ran
    assert_eq!(st.queue.len(), 1);
    assert_eq!(st.threads_free, 0);
}

#[test]
fn block_overlap_end_inside_is_fatal() {
    let mut st = ShimState::new();
    st.queue.enqueue(NewThread::Main);
    let mut slot = fresh_slot(3);
    let r = dispatch_enter(&mut st, &mut slot, 0, SHIM_START - PAGE_SIZE, SHIM_START, EXEC_START);
    assert_eq!(r, Err(Fault::BlockOverlap));
}

#[test]
fn block_contained_is_fatal() {
    let mut st = ShimState::new();
    st.queue.enqueue(NewThread::Main);
    let mut slot = fresh_slot(3);
    let r = dispatch_enter(&mut st, &mut slot, 0, SHIM_START + 0x2000_0000, SHIM_START, EXEC_START);
    assert_eq!(r, Err(Fault::BlockOverlap));
}

#[test]
fn block_overlap_fatal_at_every_level() {
    let mut st = ShimState::new();
    st.queue.enqueue(NewThread::Main);
    let mut slot = fresh_slot(3);
    dispatch_enter(&mut st, &mut slot, 0, FAR_BLOCK, SHIM_START, EXEC_START).unwrap();
    dispatch_leave(&mut st, &mut slot, 0, 0);
    let r = dispatch_enter(&mut st, &mut slot, 1, SHIM_START, SHIM_START, EXEC_START);
    assert_eq!(r, Err(Fault::BlockOverlap));
    let r2 = dispatch_enter(&mut st, &mut slot, 2, SHIM_START, SHIM_START, EXEC_START);
    assert_eq!(r2, Err(Fault::BlockOverlap));
}

#[test]
fn adjacent_blocks_are_accepted() {
    // Touching the enclave's boundary from outside is not an overlap.
    assert!(!range_overlaps(SHIM_START - BLOCK_SIZE, BLOCK_SIZE, SHIM_START, ENCL_SIZE));
    assert!(!range_overlaps(SHIM_START + ENCL_SIZE, BLOCK_SIZE, SHIM_START, ENCL_SIZE));
    assert!(range_overlaps(SHIM_START - BLOCK_SIZE + 1, BLOCK_SIZE, SHIM_START, ENCL_SIZE));
    assert!(range_overlaps(SHIM_START + ENCL_SIZE - 1, BLOCK_SIZE, SHIM_START, ENCL_SIZE));
}

#[test]
fn sanitizer_is_idempotent() {
    let mut once = sample_cpu();
    clearx(&mut once);
    let mut twice = once.clone();
    clearx(&mut twice);
    assert_eq!(twice, once);
    clearp(&mut once);
    let mut twice_p = once.clone();
    clearp(&mut twice_p);
    assert_eq!(twice_p, once);
}

#[test]
fn sanitizer_zeroes_scratch_and_extended_state() {
    let mut cpu = sample_cpu();
    clearx(&mut cpu);
    assert_eq!(cpu.r10, 0);
    assert_eq!(cpu.r11, 0);
    assert_eq!(cpu.flags, 0);
    assert_eq!(cpu.xstate, vec![0, 0, 0, 0, 0]);
    // non-scratch registers survive clearx
    assert_eq!(cpu.rax, 11);
    assert_eq!(cpu.rdi, 55);
    clearp(&mut cpu);
    assert_eq!(cpu.rax, 0);
    assert_eq!(cpu.rcx, 0);
    assert_eq!(cpu.rdx, 0);
    assert_eq!(cpu.rsi, 0);
    assert_eq!(cpu.rdi, 0);
    assert_eq!(cpu.r8, 0);
    assert_eq!(cpu.r9, 0);
}

#[test]
fn exit_path_leaks_only_the_result() {
    let mut cpu = sample_cpu();
    trampoline_exit(&mut cpu, -2, 0xBEE0);
    assert_eq!(cpu.r8, (-2i32) as u64);
    assert_eq!(cpu.rax, EEXIT);
    assert_eq!(cpu.rsp, 0xBEE0);
    assert_eq!(cpu.rcx, 0);
    assert_eq!(cpu.rdx, 0);
    assert_eq!(cpu.rsi, 0);
    assert_eq!(cpu.rdi, 0);
    assert_eq!(cpu.r9, 0);
    assert_eq!(cpu.r10, 0);
    assert_eq!(cpu.r11, 0);
    assert_eq!(cpu.flags, 0);
    assert_eq!(cpu.xstate, vec![0, 0, 0, 0, 0]);
}

#[test]
fn stack_pointers_per_level() {
    let tcs: usize = 0x200000;
    assert_eq!(stack_pointer(0, tcs, 0), tcs - PAGE_SIZE);
    assert_eq!(stack_pointer(1, tcs, 0), tcs - PAGE_SIZE - CSSA_0_STACK_SIZE);
    // a misaligned interrupted stack pointer: red zone skipped, then aligned
    assert_eq!(stack_pointer(2, tcs, 0x1F0037), (0x1F0037 - 128) & !0xF);
    assert_eq!(stack_pointer(2, tcs, 0x1F0037) % 16, 0);
    assert_eq!(stack_pointer(3, tcs, 0x1EFFB0), 0x1EFFB0 - 128);
}

#[test]
fn relocation_rewrites_exactly_the_table() {
    let mut image: Vec<u64> = vec![10, 20, 30, 40];
    let table = vec![
        RelocEntry { offset: 1, addend: 5 },
        RelocEntry { offset: 3, addend: 7 },
    ];
    apply_relocations(&mut image, &table, 100);
    assert_eq!(image, vec![10, 105, 30, 107]);
}

#[test]
fn relocation_runs_once_and_is_recorded() {
    let mut st = ShimState::new();
    assert!(!st.relocated);
    let mut image: Vec<u64> = vec![0, 1, 2];
    let table = vec![RelocEntry { offset: 0, addend: 8 }];
    relocate(&mut st, &mut image, &table, 0x4000);
    assert!(st.relocated);
    assert_eq!(image, vec![0x4008, 1, 2]);
}

#[test]
fn trampoline_plans_first_entry() {
    let st = ShimState::new();
    let slot = fresh_slot(3);
    let tcs: usize = 0x200000;
    let step = trampoline_enter(&st, &slot, 0, tcs, 0x7FFF_1234);
    match step {
        EntryStep::Proceed(plan) => {
            assert_eq!(plan.sp, tcs - PAGE_SIZE - 16);
            assert_eq!(plan.saved_rsp, 0x7FFF_1234);
            assert!(plan.relocate_now);
        }
        EntryStep::Retry => panic!("fresh base-level entry must proceed"),
    }
}

#[test]
fn trampoline_relocates_only_once() {
    let mut st = ShimState::new();
    let slot = fresh_slot(3);
    let tcs: usize = 0x200000;
    let mut image: Vec<u64> = vec![0];
    relocate(&mut st, &mut image, &vec![], 0x4000);
    let step = trampoline_enter(&st, &slot, 0, tcs, 0);
    match step {
        EntryStep::Proceed(plan) => assert!(!plan.relocate_now),
        EntryStep::Retry => panic!("base-level entry must proceed"),
    }
}

#[test]
fn trampoline_waits_for_exception_enable() {
    let st = ShimState::new();
    let mut slot = fresh_slot(3);
    let tcs: usize = 0x200000;
    let step = trampoline_enter(&st, &slot, 1, tcs, 0);
    assert_eq!(step, EntryStep::Retry);
    // once the racing base-level entry has set the flag, the entry proceeds
    slot.ssas[0].exceptions_enabled = true;
    let step2 = trampoline_enter(&st, &slot, 1, tcs, 0x1111);
    match step2 {
        EntryStep::Proceed(plan) => {
            assert_eq!(plan.sp, tcs - PAGE_SIZE - CSSA_0_STACK_SIZE - 16);
            assert_eq!(plan.saved_rsp, 0x1111);
            assert!(!plan.relocate_now);
        }
        EntryStep::Retry => panic!("enabled exception must proceed"),
    }
}

#[test]
fn trampoline_nested_entry_uses_saved_stack() {
    let st = ShimState::new();
    let mut slot = fresh_slot(3);
    slot.ssas[1].exceptions_enabled = true;
    slot.ssas[1].rsp = 0x1F0037;
    let step = trampoline_enter(&st, &slot, 2, 0x200000, 0);
    match step {
        EntryStep::Proceed(plan) => {
            assert_eq!(plan.sp, ((0x1F0037 - 128) & !0xF) - 16);
            assert_eq!(plan.sp % 16, 0);
        }
        EntryStep::Retry => panic!("enabled exception must proceed"),
    }
}

#[test]
fn fault_halts_with_its_cause() {
    let halted = sgx_shim::panic(Fault::EmptyQueue);
    assert_eq!(halted.cause, Fault::EmptyQueue);
    let halted2 = sgx_shim::panic(Fault::BlockOverlap);
    assert_eq!(halted2.cause, Fault::BlockOverlap);
}
