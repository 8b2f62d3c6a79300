use futures_util::task::noop_waker;
use kernel::queue::{add_scancode, get_all_scancodes, get_scancode, ScancodeQueue, ScancodeStream, SCANCODE_QUEUE_CAPACITY};
use kernel::timer::{tick, Sleep, TickCount, TickStream};

#[test]
fn fifo_order_preserved() {
    let mut q = ScancodeQueue::new();
    for b in 0..100u8 {
        assert!(add_scancode(&mut q, b));
    }
    for b in 0..100u8 {
        assert_eq!(get_scancode(&mut q), Some(b));
    }
    assert_eq!(get_scancode(&mut q), None);
}

#[test]
fn drop_on_full_keeps_contents() {
    assert_eq!(SCANCODE_QUEUE_CAPACITY, 100);
    let mut q = ScancodeQueue::new();
    for b in 0..100u8 {
        assert!(add_scancode(&mut q, b));
    }
    // the queue is at capacity: the byte is dropped and the caller told
    assert!(!add_scancode(&mut q, 0xff));
    for b in 0..100u8 {
        assert_eq!(get_scancode(&mut q), Some(b));
    }
    assert_eq!(get_scancode(&mut q), None);
}

#[test]
fn pop_on_empty_reports_nothing() {
    let mut q = ScancodeQueue::new();
    assert_eq!(get_scancode(&mut q), None);
    assert!(add_scancode(&mut q, 42));
    assert_eq!(get_scancode(&mut q), Some(42));
    assert_eq!(get_scancode(&mut q), None);
}

#[test]
fn small_queue_overflow() {
    let mut q = ScancodeQueue::with_capacity(2);
    assert!(add_scancode(&mut q, 1));
    assert!(add_scancode(&mut q, 2));
    assert!(!add_scancode(&mut q, 3));
    assert_eq!(get_scancode(&mut q), Some(1));
    // room again after a pop
    assert!(add_scancode(&mut q, 4));
    assert_eq!(get_scancode(&mut q), Some(2));
    assert_eq!(get_scancode(&mut q), Some(4));
}

#[test]
fn drain_returns_all_in_order() {
    let mut q = ScancodeQueue::new();
    assert_eq!(get_all_scancodes(&mut q), None);
    for b in [9u8, 8, 7] {
        assert!(add_scancode(&mut q, b));
    }
    assert_eq!(get_all_scancodes(&mut q), Some(vec![9, 8, 7]));
    assert_eq!(get_all_scancodes(&mut q), None);
}

#[test]
fn stream_poll_returns_queued_byte() {
    let waker = noop_waker();
    let mut s = ScancodeStream::new();
    assert_eq!(s.poll_next(&waker), None);
    assert!(add_scancode(s.queue_mut(), 0x1e));
    assert!(add_scancode(s.queue_mut(), 0x9e));
    assert_eq!(s.poll_next(&waker), Some(0x1e));
    assert_eq!(s.poll_next(&waker), Some(0x9e));
    assert_eq!(s.poll_next(&waker), None);
}

#[test]
fn tick_count_consumed_once() {
    let mut t = TickCount::new();
    assert_eq!(t.handle(), None);
    t.increment();
    t.increment();
    assert_eq!(t.handle(), Some(2));
    // no tick arrived since: nothing to consume
    assert_eq!(t.handle(), None);
}

#[test]
fn tick_stream_poll_consumes_tick() {
    let waker = noop_waker();
    let mut s = TickStream::new();
    assert_eq!(s.poll_next(&waker), None);
    tick(&mut s);
    assert_eq!(s.poll_next(&waker), Some(1));
    assert_eq!(s.poll_next(&waker), None);
    tick(&mut s);
    tick(&mut s);
    assert_eq!(s.poll_next(&waker), Some(3));
}

#[test]
fn sleep_counts_down_ticks() {
    let waker = noop_waker();
    let mut s = TickStream::new();
    let mut sl = Sleep::new(2);
    // no tick yet: still pending
    assert!(!sl.poll(&mut s, &waker));
    tick(&mut s);
    assert!(!sl.poll(&mut s, &waker));
    // a second poll without a new tick stays pending
    assert!(!sl.poll(&mut s, &waker));
    tick(&mut s);
    assert!(sl.poll(&mut s, &waker));
    // once done it stays done
    assert!(sl.poll(&mut s, &waker));
}

#[test]
fn sleep_zero_is_immediately_done() {
    let waker = noop_waker();
    let mut s = TickStream::new();
    let mut sl = Sleep::new(0);
    assert!(sl.poll(&mut s, &waker));
}
