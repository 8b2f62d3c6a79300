use vstd::prelude::*;
use core::task::Waker;
use futures_util::task::AtomicWaker;

verus! {

#[verifier::external_type_specification]
#[verifier::external_body]
pub struct ExWaker(Waker);

#[verifier::external_type_specification]
#[verifier::external_body]
pub struct ExAtomicWaker(AtomicWaker);

/// The single-slot waker register of the bridge: it holds at most one waiting
/// task's wake handle. Registering overwrites any previous occupant, so only
/// the most recent waiter is guaranteed delivery; waking with no occupant is
/// a no-op. The slot's occupant is opaque to the contracts — nothing here
/// depends on which waker is stored, only the surrounding protocol is
/// verified.
pub struct WakerSlot {
    inner: AtomicWaker,
}

impl WakerSlot {
    /// Relies on futures' AtomicWaker::new: an empty slot.
    #[verifier::external_body]
    pub fn new() -> (slot: WakerSlot) {
        WakerSlot { inner: AtomicWaker::new() }
    }

    /// Relies on futures' AtomicWaker::register: stores a clone of the waker,
    /// replacing any previous occupant.
    #[verifier::external_body]
    pub fn register(&mut self, waker: &Waker) {
        self.inner.register(waker);
    }

    /// Relies on futures' AtomicWaker::wake: invokes and clears the
    /// registered waker if one is present, and does nothing otherwise.
    #[verifier::external_body]
    pub fn wake(&mut self) {
        self.inner.wake();
    }

    /// Relies on futures' AtomicWaker::take: removes and returns the
    /// registered waker without invoking it.
    #[verifier::external_body]
    pub fn take(&mut self) -> (w: Option<Waker>) {
        self.inner.take()
    }
}

} // verus!
