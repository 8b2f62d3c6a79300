use vstd::prelude::*;

verus! {

/// `addr` rounded up to the next multiple of `align`.
pub open spec fn spec_align_up(addr: int, align: int) -> int
    recommends
        align > 0,
{
    if addr % align == 0 {
        addr
    } else {
        addr + (align - addr % align)
    }
}

/// A bump-pointer allocator over a fixed, pre-reserved arena: allocation
/// advances a single offset; individual frees reclaim nothing, and the whole
/// arena is rewound only when the last outstanding allocation is returned.
/// Suited to bursts of allocations with the same lifetime (the boxed tasks),
/// not to general long-running heap use.
pub struct BumpAllocator {
    pub heap_start: usize,
    pub heap_end: usize,
    pub next: usize,
    pub allocations: usize,
}

/// Whether an allocation of `size` aligned to `align` fits in what is left
/// of the arena.
pub open spec fn spec_can_alloc(a: BumpAllocator, size: int, align: int) -> bool {
    spec_align_up(a.next as int, align) + size <= a.heap_end
}

/// The allocator after a successful allocation: the offset advances past the
/// aligned block and one more allocation is outstanding.
pub open spec fn spec_after_alloc(a: BumpAllocator, size: int, align: int) -> BumpAllocator {
    BumpAllocator {
        next: (spec_align_up(a.next as int, align) + size) as usize,
        allocations: (a.allocations + 1) as usize,
        ..a
    }
}

/// The allocator after a free: one fewer allocation outstanding, and only
/// when none remain does the offset rewind to the arena start — a single
/// free while others are outstanding reclaims nothing.
pub open spec fn spec_after_dealloc(a: BumpAllocator) -> BumpAllocator {
    if a.allocations == 1 {
        BumpAllocator { next: a.heap_start, allocations: 0, ..a }
    } else {
        BumpAllocator { allocations: (a.allocations - 1) as usize, ..a }
    }
}

impl BumpAllocator {
    /// The arena is consistent: the free offset lies inside it.
    pub open spec fn wf(self) -> bool {
        self.heap_start <= self.next <= self.heap_end
    }

    /// An empty allocator over the empty arena; `init` gives it its range.
    pub fn new() -> (a: BumpAllocator)
        ensures
            a.wf(),
            a == (BumpAllocator { heap_start: 0, heap_end: 0, next: 0, allocations: 0 }),
    {
        BumpAllocator { heap_start: 0, heap_end: 0, next: 0, allocations: 0 }
    }

    /// Gives the allocator its arena. The caller hands over a memory range
    /// of `heap_size` bytes at `heap_start` that nothing else uses, once.
    pub fn init(&mut self, heap_start: usize, heap_size: usize)
        requires
            heap_start + heap_size <= usize::MAX,
        ensures
            final(self).wf(),
            final(self).heap_start == heap_start,
            final(self).heap_end == heap_start + heap_size,
            final(self).next == heap_start,
            final(self).allocations == old(self).allocations,
    {
        self.heap_start = heap_start;
        self.heap_end = heap_start + heap_size;
        self.next = heap_start;
    }

    /// Serves one allocation: rounds the free offset up to the alignment,
    /// fails — returning `None`, with nothing changed — when the block would
    /// overflow the address space or run past the arena end, and otherwise
    /// advances the offset and returns the block's start address, which lies
    /// inside the arena.
    pub fn allocate(&mut self, size: usize, align: usize) -> (r: Option<usize>)
        requires
            old(self).wf(),
            align > 0,
            old(self).allocations < usize::MAX,
        ensures
            final(self).wf(),
            final(self).heap_start == old(self).heap_start,
            final(self).heap_end == old(self).heap_end,
            spec_can_alloc(*old(self), size as int, align as int) ==> (r == Some(
                spec_align_up(old(self).next as int, align as int) as usize,
            ) && *final(self) == spec_after_alloc(*old(self), size as int, align as int)
                && old(self).heap_start <= spec_align_up(old(self).next as int, align as int)
                && spec_align_up(old(self).next as int, align as int) + size <= old(
                self,
            ).heap_end),
            !spec_can_alloc(*old(self), size as int, align as int) ==> r is None && *final(self)
                == *old(self),
    {
        let rem: usize = self.next % align;
        let alloc_start: usize = if rem == 0 {
            self.next
        } else {
            let pad: usize = align - rem;
            if pad > usize::MAX - self.next {
                // the aligned start itself overflows the address space, so it
                // certainly lies past the arena end
                return None;
            }
            self.next + pad
        };
        if alloc_start > self.heap_end {
            return None;
        }
        if size > self.heap_end - alloc_start {
            return None;
        }
        self.next = alloc_start + size;
        self.allocations = self.allocations + 1;
        Some(alloc_start)
    }

    /// Returns one allocation: the outstanding count drops by one, and only
    /// when it reaches zero is the whole arena reclaimed at once by
    /// rewinding the offset to the arena start.
    pub fn deallocate(&mut self)
        requires
            old(self).wf(),
            old(self).allocations > 0,
        ensures
            final(self).wf(),
            *final(self) == spec_after_dealloc(*old(self)),
            final(self).allocations == old(self).allocations - 1,
            old(self).allocations == 1 ==> final(self).next == old(self).heap_start,
            old(self).allocations > 1 ==> final(self).next == old(self).next,
    {
        self.allocations = self.allocations - 1;
        if self.allocations == 0 {
            self.next = self.heap_start;
        }
    }
}

/// Allocator non-reclamation: in an arena exactly sized for blocks of `a`
/// then `b` bytes, both allocations succeed; freeing only one of them does
/// not make room for a block of `b` bytes again — no partial reclaim — while
/// freeing both rewinds the arena and lets the same two allocations succeed
/// anew.
pub proof fn lemma_no_partial_reclaim(arena: BumpAllocator, a: int, b: int)
    requires
        arena.wf(),
        arena.next == arena.heap_start,
        arena.allocations == 0,
        a > 0,
        b > 0,
        arena.heap_end == arena.heap_start + a + b,
    ensures
        spec_can_alloc(arena, a, 1),
        spec_can_alloc(spec_after_alloc(arena, a, 1), b, 1),
        !spec_can_alloc(
            spec_after_dealloc(spec_after_alloc(spec_after_alloc(arena, a, 1), b, 1)),
            b,
            1,
        ),
        spec_after_dealloc(
            spec_after_dealloc(spec_after_alloc(spec_after_alloc(arena, a, 1), b, 1)),
        ).next == arena.heap_start,
        spec_can_alloc(
            spec_after_dealloc(
                spec_after_dealloc(spec_after_alloc(spec_after_alloc(arena, a, 1), b, 1)),
            ),
            a,
            1,
        ),
{
    let s = arena.heap_start as int;
    assert(s % 1 == 0);
    assert(spec_align_up(s, 1) == s);
    let after_a = spec_after_alloc(arena, a, 1);
    assert(after_a.next == s + a);
    assert((s + a) % 1 == 0);
    let after_ab = spec_after_alloc(after_a, b, 1);
    assert(after_ab.next == s + a + b);
    assert(after_ab.allocations == 2);
    let freed_one = spec_after_dealloc(after_ab);
    assert(freed_one.allocations == 1);
    assert(freed_one.next == s + a + b);
    assert((s + a + b) % 1 == 0);
    assert(spec_align_up(freed_one.next as int, 1) + b > freed_one.heap_end);
    let freed_both = spec_after_dealloc(freed_one);
    assert(freed_both.next == arena.heap_start);
}

} // verus!
