use vstd::prelude::*;
use core::task::Waker;
use crossbeam_queue::ArrayQueue;
use crate::waker::WakerSlot;

verus! {

#[verifier::external_type_specification]
#[verifier::external_body]
#[verifier::reject_recursive_types(T)]
pub struct ExArrayQueue<T>(ArrayQueue<T>);

/// The bytes a queue holds, head first.
pub uninterp spec fn spec_queue_contents(q: ArrayQueue<u8>) -> Seq<u8>;

/// The bound the queue was created with.
pub uninterp spec fn spec_queue_capacity(q: ArrayQueue<u8>) -> nat;

/// Relies on crossbeam's ArrayQueue::new: an empty bounded queue with the
/// given capacity. It panics on capacity zero, so that input is excluded.
#[verifier::external_body]
fn queue_new(cap: usize) -> (q: ArrayQueue<u8>)
    requires
        cap > 0,
    ensures
        spec_queue_contents(q) == Seq::<u8>::empty(),
        spec_queue_capacity(q) == cap,
{
    ArrayQueue::new(cap)
}

/// Relies on crossbeam's ArrayQueue::push: appends the value at the tail, or,
/// when the queue is full, returns it back as an error and leaves the queue
/// unchanged.
#[verifier::external_body]
fn queue_push(q: &mut ArrayQueue<u8>, b: u8) -> (r: bool)
    ensures
        spec_queue_capacity(*final(q)) == spec_queue_capacity(*old(q)),
        spec_queue_contents(*old(q)).len() < spec_queue_capacity(*old(q)) ==> r
            && spec_queue_contents(*final(q)) == spec_queue_contents(*old(q)).push(b),
        spec_queue_contents(*old(q)).len() >= spec_queue_capacity(*old(q)) ==> !r
            && spec_queue_contents(*final(q)) == spec_queue_contents(*old(q)),
{
    match q.push(b) {
        Ok(()) => true,
        Err(_) => false,
    }
}

/// Relies on crossbeam's ArrayQueue::pop: removes and returns the value at
/// the head, or reports that the queue is empty.
#[verifier::external_body]
fn queue_pop(q: &mut ArrayQueue<u8>) -> (r: Option<u8>)
    ensures
        spec_queue_capacity(*final(q)) == spec_queue_capacity(*old(q)),
        spec_queue_contents(*old(q)).len() > 0 ==> r == Some(spec_queue_contents(*old(q)).first())
            && spec_queue_contents(*final(q)) == spec_queue_contents(*old(q)).drop_first(),
        spec_queue_contents(*old(q)).len() == 0 ==> r is None
            && spec_queue_contents(*final(q)) == spec_queue_contents(*old(q)),
{
    match q.pop() {
        Ok(v) => Some(v),
        Err(_) => None,
    }
}

/// The number of scancodes the event queue can hold before it drops input.
pub const SCANCODE_QUEUE_CAPACITY: usize = 100;

/// The bridge between the keyboard interrupt handler and the consumer task:
/// a bounded lock-free byte queue paired with the single-slot waker register.
/// The producer side never blocks and never allocates.
pub struct ScancodeQueue {
    queue: ArrayQueue<u8>,
    waker: WakerSlot,
}

impl ScancodeQueue {
    /// The occupancy invariant: the queue never holds more than its bound.
    pub open spec fn wf(self) -> bool {
        self.contents().len() <= self.capacity()
    }

    /// The bytes waiting in the queue, oldest first.
    pub closed spec fn contents(self) -> Seq<u8> {
        spec_queue_contents(self.queue)
    }

    /// The fixed bound of the queue.
    pub closed spec fn capacity(self) -> nat {
        spec_queue_capacity(self.queue)
    }

    pub fn with_capacity(cap: usize) -> (q: ScancodeQueue)
        requires
            cap > 0,
        ensures
            q.wf(),
            q.contents() == Seq::<u8>::empty(),
            q.capacity() == cap,
    {
        ScancodeQueue { queue: queue_new(cap), waker: WakerSlot::new() }
    }

    pub fn new() -> (q: ScancodeQueue)
        ensures
            q.wf(),
            q.contents() == Seq::<u8>::empty(),
            q.capacity() == SCANCODE_QUEUE_CAPACITY,
    {
        ScancodeQueue::with_capacity(SCANCODE_QUEUE_CAPACITY)
    }

    fn push(&mut self, b: u8) -> (r: bool)
        ensures
            final(self).capacity() == old(self).capacity(),
            old(self).contents().len() < old(self).capacity() ==> r
                && final(self).contents() == old(self).contents().push(b),
            old(self).contents().len() >= old(self).capacity() ==> !r
                && final(self).contents() == old(self).contents(),
    {
        queue_push(&mut self.queue, b)
    }

    fn pop(&mut self) -> (r: Option<u8>)
        ensures
            final(self).capacity() == old(self).capacity(),
            old(self).contents().len() > 0 ==> r == Some(old(self).contents().first())
                && final(self).contents() == old(self).contents().drop_first(),
            old(self).contents().len() == 0 ==> r is None
                && final(self).contents() == old(self).contents(),
    {
        queue_pop(&mut self.queue)
    }

    fn register_waker(&mut self, waker: &Waker)
        ensures
            final(self).contents() == old(self).contents(),
            final(self).capacity() == old(self).capacity(),
    {
        self.waker.register(waker);
    }

    fn wake(&mut self)
        ensures
            final(self).contents() == old(self).contents(),
            final(self).capacity() == old(self).capacity(),
    {
        self.waker.wake();
    }

    fn take_waker(&mut self) -> (w: Option<Waker>)
        ensures
            final(self).contents() == old(self).contents(),
            final(self).capacity() == old(self).capacity(),
    {
        self.waker.take()
    }
}

/// Called by the keyboard interrupt handler: queues one scancode without
/// blocking or allocating, and wakes the registered waiter on success. When
/// the queue is full the byte is dropped, the contents stay unchanged, and
/// the failure is reported to the caller, which may log it.
pub fn add_scancode(queue: &mut ScancodeQueue, scancode: u8) -> (r: bool)
    ensures
        old(queue).wf() ==> final(queue).wf(),
        final(queue).capacity() == old(queue).capacity(),
        old(queue).contents().len() < old(queue).capacity() ==> r
            && final(queue).contents() == old(queue).contents().push(scancode),
        old(queue).contents().len() >= old(queue).capacity() ==> !r
            && final(queue).contents() == old(queue).contents(),
{
    if queue.push(scancode) {
        queue.wake();
        true
    } else {
        false
    }
}

/// Takes the oldest queued scancode, if any; it never blocks.
pub fn get_scancode(queue: &mut ScancodeQueue) -> (r: Option<u8>)
    ensures
        old(queue).wf() ==> final(queue).wf(),
        final(queue).capacity() == old(queue).capacity(),
        old(queue).contents().len() > 0 ==> r == Some(old(queue).contents().first())
            && final(queue).contents() == old(queue).contents().drop_first(),
        old(queue).contents().len() == 0 ==> r is None
            && final(queue).contents() == old(queue).contents(),
{
    queue.pop()
}

/// Drains the queue: returns all waiting scancodes in arrival order, or
/// `None` when nothing is waiting.
pub fn get_all_scancodes(queue: &mut ScancodeQueue) -> (r: Option<Vec<u8>>)
    ensures
        final(queue).capacity() == old(queue).capacity(),
        final(queue).contents() == Seq::<u8>::empty(),
        old(queue).contents().len() == 0 ==> r is None,
        old(queue).contents().len() > 0 ==> (r matches Some(codes)
            && codes@ == old(queue).contents()),
{
    let mut codes: Vec<u8> = Vec::new();
    let mut more: bool = true;
    while more
        invariant
            old(queue).contents() == codes@ + queue.contents(),
            queue.capacity() == old(queue).capacity(),
            !more ==> queue.contents().len() == 0,
        decreases queue.contents().len() + (if more { 1int } else { 0int }),
    {
        match get_scancode(queue) {
            Some(code) => codes.push(code),
            None => more = false,
        }
    }
    assert(old(queue).contents() =~= codes@);
    if codes.len() == 0 {
        None
    } else {
        Some(codes)
    }
}

/// The consumer's asynchronous view of the scancode queue. Its poll follows
/// the check-register-check protocol of the bridge: poll the queue; if it is
/// empty, register the waker; poll again, since the interrupt handler may
/// have filled the queue between the two checks; only then report pending.
pub struct ScancodeStream {
    queue: ScancodeQueue,
}

impl ScancodeStream {
    /// The occupancy invariant of the underlying queue.
    pub open spec fn wf(self) -> bool {
        self.contents().len() <= self.capacity()
    }

    /// The bytes waiting for the consumer, oldest first.
    pub closed spec fn contents(self) -> Seq<u8> {
        self.queue.contents()
    }

    /// The fixed bound of the underlying queue.
    pub closed spec fn capacity(self) -> nat {
        self.queue.capacity()
    }

    /// A stream over a fresh queue with the standard capacity.
    pub fn new() -> (s: ScancodeStream)
        ensures
            s.wf(),
            s.contents() == Seq::<u8>::empty(),
            s.capacity() == SCANCODE_QUEUE_CAPACITY,
    {
        ScancodeStream { queue: ScancodeQueue::new() }
    }

    /// The producer half: the interrupt handler feeds bytes through this.
    pub fn queue_mut(&mut self) -> (q: &mut ScancodeQueue)
        ensures
            (*q).contents() == old(self).contents(),
            (*q).capacity() == old(self).capacity(),
            final(self).contents() == (*final(q)).contents(),
            final(self).capacity() == (*final(q)).capacity(),
    {
        &mut self.queue
    }

    /// One poll of the stream, following check-register-check to avoid the
    /// lost-wakeup race: a byte is returned if one is queued, otherwise the
    /// waker is registered and the queue is checked once more before
    /// reporting pending.
    pub fn poll_next(&mut self, waker: &Waker) -> (r: Option<u8>)
        ensures
            old(self).wf() ==> final(self).wf(),
            final(self).capacity() == old(self).capacity(),
            old(self).contents().len() > 0 ==> r == Some(old(self).contents().first())
                && final(self).contents() == old(self).contents().drop_first(),
            old(self).contents().len() == 0 ==> r is None
                && final(self).contents() == old(self).contents(),
    {
        match self.queue.pop() {
            Some(code) => Some(code),
            None => {
                self.queue.register_waker(waker);
                match self.queue.pop() {
                    Some(code) => {
                        let _ = self.queue.take_waker();
                        Some(code)
                    },
                    None => None,
                }
            },
        }
    }
}

/// A bounded queue's contents after one push: the byte is appended when there
/// is room, and dropped — contents unchanged — when the queue is full.
pub open spec fn spec_push_model(q: Seq<u8>, cap: nat, b: u8) -> Seq<u8> {
    if q.len() < cap {
        q.push(b)
    } else {
        q
    }
}

/// A bounded queue's contents after pushing a whole sequence, one byte at a
/// time, oldest first.
pub open spec fn spec_push_all_model(q: Seq<u8>, cap: nat, s: Seq<u8>) -> Seq<u8>
    decreases s.len(),
{
    if s.len() == 0 {
        q
    } else {
        spec_push_all_model(spec_push_model(q, cap, s.first()), cap, s.drop_first())
    }
}

/// FIFO order: pushing bytes b1..bn into a queue with room for all of them
/// appends them in order, so a queue filled from empty holds exactly b1..bn,
/// and successive pops return b1, then b2, and so on.
pub proof fn lemma_fifo_order(q: Seq<u8>, cap: nat, s: Seq<u8>)
    requires
        q.len() + s.len() <= cap,
    ensures
        spec_push_all_model(q, cap, s) == q + s,
        forall|i: int| 0 <= i < s.len() ==> (q + s).skip(q.len() + i).first() == s[i],
    decreases s.len(),
{
    if s.len() == 0 {
        assert(spec_push_all_model(q, cap, s) =~= q + s);
    } else {
        assert(spec_push_model(q, cap, s.first()) == q.push(s.first()));
        lemma_fifo_order(q.push(s.first()), cap, s.drop_first());
        assert(q.push(s.first()) + s.drop_first() =~= q + s);
        assert forall|i: int| 0 <= i < s.len() implies (q + s).skip(q.len() + i).first() == s[i] by {
            assert((q + s).skip(q.len() + i).first() == (q + s)[q.len() + i]);
        }
    }
}

/// Drop on full: a push against a queue already at capacity leaves the
/// contents exactly as they were.
pub proof fn lemma_drop_on_full(q: Seq<u8>, cap: nat, b: u8)
    requires
        q.len() == cap,
    ensures
        spec_push_model(q, cap, b) == q,
{
}

} // verus!
