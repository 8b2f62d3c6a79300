use vstd::prelude::*;
use core::task::Waker;
use crate::waker::WakerSlot;

verus! {

/// The global elapsed-tick count, incremented only by the timer interrupt,
/// with a flag for a tick not yet consumed by the stream.
pub struct TickCount {
    pub ticks: usize,
    pub new_tick: bool,
}

impl TickCount {
    pub fn new() -> (t: TickCount)
        ensures
            t.ticks == 0,
            !t.new_tick,
    {
        TickCount { ticks: 0, new_tick: false }
    }

    /// Counts one timer tick and marks it unconsumed.
    pub fn increment(&mut self)
        requires
            old(self).ticks < usize::MAX,
        ensures
            final(self).ticks == old(self).ticks + 1,
            final(self).new_tick,
    {
        self.ticks = self.ticks + 1;
        self.new_tick = true;
    }

    /// Consumes the pending tick: returns the current count exactly when a
    /// tick arrived since the last call, and clears the flag either way.
    pub fn handle(&mut self) -> (r: Option<usize>)
        ensures
            final(self).ticks == old(self).ticks,
            !final(self).new_tick,
            old(self).new_tick ==> r == Some(old(self).ticks),
            !old(self).new_tick ==> r is None,
    {
        if !self.new_tick {
            return None;
        }
        self.new_tick = false;
        Some(self.ticks)
    }
}

/// The timer half of the waker bridge: the tick counter paired with the
/// single-slot waker register, read by the asynchronous tick stream.
pub struct TickStream {
    counter: TickCount,
    waker: WakerSlot,
}

impl TickStream {
    /// The number of ticks counted so far.
    pub closed spec fn spec_ticks(self) -> usize {
        self.counter.ticks
    }

    /// Whether a tick has arrived that the stream has not yet consumed.
    pub closed spec fn spec_new_tick(self) -> bool {
        self.counter.new_tick
    }

    pub fn new() -> (s: TickStream)
        ensures
            s.spec_ticks() == 0,
            !s.spec_new_tick(),
    {
        TickStream { counter: TickCount::new(), waker: WakerSlot::new() }
    }

    /// One poll of the stream, following the check-register-check protocol:
    /// consume a pending tick if there is one; otherwise register the waker
    /// and check once more, since the timer interrupt may have fired between
    /// the two checks; only then report pending.
    pub fn poll_next(&mut self, waker: &Waker) -> (r: Option<usize>)
        ensures
            final(self).spec_ticks() == old(self).spec_ticks(),
            !final(self).spec_new_tick(),
            old(self).spec_new_tick() ==> r == Some(old(self).spec_ticks()),
            !old(self).spec_new_tick() ==> r is None,
    {
        match self.counter.handle() {
            Some(i) => Some(i),
            None => {
                self.waker.register(waker);
                match self.counter.handle() {
                    Some(i) => {
                        let _ = self.waker.take();
                        Some(i)
                    },
                    None => None,
                }
            },
        }
    }
}

/// Called by the timer interrupt handler: counts the tick, marks it
/// unconsumed, and wakes the registered waiter.
pub fn tick(stream: &mut TickStream)
    requires
        old(stream).spec_ticks() < usize::MAX,
    ensures
        final(stream).spec_ticks() == old(stream).spec_ticks() + 1,
        final(stream).spec_new_tick(),
{
    stream.counter.increment();
    stream.waker.wake();
}

/// The kernel's only timing primitive: an asynchronous wait that consumes the
/// tick stream a fixed number of times, suspending between ticks. The run
/// loop polls it until it reports done.
pub struct Sleep {
    pub remaining: usize,
}

impl Sleep {
    /// A sleep that completes after `ticks` further timer ticks.
    pub fn new(ticks: usize) -> (s: Sleep)
        ensures
            s.remaining == ticks,
    {
        Sleep { remaining: ticks }
    }

    /// One poll of the sleep: a pending tick brings it one step closer to
    /// completion; without one it stays where it is, with the waker left
    /// registered in the stream's slot.
    pub fn poll(&mut self, stream: &mut TickStream, waker: &Waker) -> (done: bool)
        ensures
            final(stream).spec_ticks() == old(stream).spec_ticks(),
            old(self).remaining == 0 ==> done && final(self).remaining == 0
                && *final(stream) == *old(stream),
            old(self).remaining > 0 ==> !final(stream).spec_new_tick(),
            old(self).remaining > 0 && old(stream).spec_new_tick() ==> (
                final(self).remaining == old(self).remaining - 1
                && (done <==> old(self).remaining == 1)),
            old(self).remaining > 0 && !old(stream).spec_new_tick() ==> (
                !done && final(self).remaining == old(self).remaining),
    {
        if self.remaining == 0 {
            return true;
        }
        match stream.poll_next(waker) {
            Some(_) => {
                self.remaining = self.remaining - 1;
                self.remaining == 0
            },
            None => false,
        }
    }
}

} // verus!
