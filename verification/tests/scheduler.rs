use kernel::allocator::BumpAllocator;
use kernel::executor::{Executor, Task, TaskId};
use kernel::harness::QemuExitCode;
use kernel::interrupts::{ChainedPics, InterruptIndex, PortWrite, CMD_END_OF_INTERRUPT, CMD_INIT, MODE_8086};

#[test]
fn completed_task_polled_exactly_once() {
    let mut e = Executor::new();
    let t = e.spawn();
    assert_eq!(e.live_count(), 1);
    assert_eq!(e.ready_count(), 1);
    // the one poll
    assert_eq!(e.next_ready(), Some(t.id));
    e.finish_poll(t.id, true);
    // gone from the live set, never handed out again
    assert!(!e.is_live(t.id));
    assert_eq!(e.live_count(), 0);
    assert_eq!(e.next_ready(), None);
    // even a stray wake cannot revive it
    assert!(!e.wake_task(t.id));
    assert_eq!(e.next_ready(), None);
}

#[test]
fn pending_task_waits_for_wake() {
    let mut e = Executor::new();
    let t = e.spawn();
    assert_eq!(e.next_ready(), Some(t.id));
    e.finish_poll(t.id, false);
    // still live, but not ready: it is not re-polled on its own
    assert!(e.is_live(t.id));
    assert_eq!(e.next_ready(), None);
    assert_eq!(e.next_ready(), None);
    // its wake source fires: now it is handed out once more
    assert!(e.wake_task(t.id));
    assert_eq!(e.next_ready(), Some(t.id));
    assert_eq!(e.next_ready(), None);
}

#[test]
fn task_ids_increase_and_are_not_reused() {
    let mut e = Executor::new();
    let t0 = e.spawn();
    let t1 = e.spawn();
    assert_eq!(t0.id, TaskId(0));
    assert_eq!(t1.id, TaskId(1));
    assert_eq!(e.next_ready(), Some(t0.id));
    e.finish_poll(t0.id, true);
    // a later spawn does not reuse the completed task's id
    let t2 = e.spawn();
    assert_eq!(t2.id, TaskId(2));
}

#[test]
fn ready_queue_is_fifo() {
    let mut e = Executor::new();
    let a = e.spawn();
    let b = e.spawn();
    let c = e.spawn();
    assert_eq!(e.next_ready(), Some(a.id));
    e.finish_poll(a.id, false);
    assert_eq!(e.next_ready(), Some(b.id));
    e.finish_poll(b.id, false);
    // waking re-enqueues at the back
    assert!(e.wake_task(a.id));
    assert_eq!(e.next_ready(), Some(c.id));
    e.finish_poll(c.id, false);
    assert_eq!(e.next_ready(), Some(a.id));
}

#[test]
fn duplicate_wake_queues_once() {
    let mut e = Executor::new();
    let t = e.spawn();
    assert_eq!(e.next_ready(), Some(t.id));
    e.finish_poll(t.id, false);
    assert!(e.wake_task(t.id));
    assert!(!e.wake_task(t.id));
    assert_eq!(e.ready_count(), 1);
}

#[test]
fn idle_when_nothing_ready() {
    let mut e = Executor::new();
    assert!(e.is_idle());
    let t = e.spawn();
    assert!(!e.is_idle());
    assert_eq!(e.next_ready(), Some(t.id));
    // the task is being polled: were it to stay pending, the run loop may
    // halt until an interrupt wakes something
    assert!(e.is_idle());
    let _ = Task::new(t.id);
}

#[test]
fn arena_exactly_filled_then_reused() {
    let mut al = BumpAllocator::new();
    al.init(0x1000, 24);
    // two blocks that exactly fill the arena
    assert_eq!(al.allocate(16, 8), Some(0x1000));
    assert_eq!(al.allocate(8, 1), Some(0x1010));
    // full: nothing more fits
    assert_eq!(al.allocate(1, 1), None);
    // freeing one of two reclaims nothing
    al.deallocate();
    assert_eq!(al.allocate(8, 1), None);
    // freeing the last rewinds the whole arena
    al.deallocate();
    assert_eq!(al.allocate(8, 1), Some(0x1000));
    assert_eq!(al.allocate(16, 1), Some(0x1008));
}

#[test]
fn allocation_respects_alignment() {
    let mut al = BumpAllocator::new();
    al.init(0x1001, 0x100);
    // 0x1001 rounded up to 16-alignment
    assert_eq!(al.allocate(4, 16), Some(0x1010));
    // next block starts right after, aligned to 1
    assert_eq!(al.allocate(2, 1), Some(0x1014));
    // 8-aligned start skips the padding
    assert_eq!(al.allocate(8, 8), Some(0x1018));
}

#[test]
fn allocation_failure_changes_nothing() {
    let mut al = BumpAllocator::new();
    al.init(0x2000, 8);
    assert_eq!(al.allocate(16, 1), None);
    // the failed attempt left the arena intact
    assert_eq!(al.allocate(8, 1), Some(0x2000));
    assert_eq!(al.allocate(1, 1), None);
}

#[test]
fn eoi_order_secondary_before_primary() {
    let cp = ChainedPics::new(32, 40);
    // vector 44 is line 12: owned by the secondary controller
    let writes = cp.notify_end_of_interrupt(44);
    assert_eq!(
        writes,
        vec![
            PortWrite { port: 0xa0, value: CMD_END_OF_INTERRUPT },
            PortWrite { port: 0x20, value: CMD_END_OF_INTERRUPT },
        ]
    );
    // vector 33: the primary controller alone
    let writes = cp.notify_end_of_interrupt(33);
    assert_eq!(writes, vec![PortWrite { port: 0x20, value: CMD_END_OF_INTERRUPT }]);
    // a vector neither owns is not acknowledged
    assert_eq!(cp.notify_end_of_interrupt(10), vec![]);
    assert_eq!(cp.notify_end_of_interrupt(48), vec![]);
}

#[test]
fn init_sequence_restores_masks_last() {
    let cp = ChainedPics::new(32, 40);
    let writes = cp.initialize(0xfd, 0xef);
    assert_eq!(writes.len(), 18);
    assert_eq!(writes[0], PortWrite { port: 0x20, value: CMD_INIT });
    assert_eq!(writes[2], PortWrite { port: 0xa0, value: CMD_INIT });
    // vector bases
    assert_eq!(writes[4], PortWrite { port: 0x21, value: 32 });
    assert_eq!(writes[6], PortWrite { port: 0xa1, value: 40 });
    // chaining and mode
    assert_eq!(writes[8], PortWrite { port: 0x21, value: 4 });
    assert_eq!(writes[10], PortWrite { port: 0xa1, value: 2 });
    assert_eq!(writes[12], PortWrite { port: 0x21, value: MODE_8086 });
    assert_eq!(writes[14], PortWrite { port: 0xa1, value: MODE_8086 });
    // the saved masks come back, not all-enabled
    assert_eq!(writes[16], PortWrite { port: 0x21, value: 0xfd });
    assert_eq!(writes[17], PortWrite { port: 0xa1, value: 0xef });
}

#[test]
fn interrupt_vectors() {
    assert_eq!(InterruptIndex::Timer.as_u8(), 32);
    assert_eq!(InterruptIndex::Keyboard.as_u8(), 33);
    assert_eq!(InterruptIndex::Mouse.as_u8(), 44);
    assert_eq!(InterruptIndex::Mouse.as_usize(), 44);
    let cp = ChainedPics::new(32, 40);
    assert!(cp.handles_interrupt(InterruptIndex::Mouse.as_u8()));
}

#[test]
fn qemu_exit_codes() {
    assert_eq!(QemuExitCode::Success.as_u32(), 0x10);
    assert_eq!(QemuExitCode::Failed.as_u32(), 0x11);
}
