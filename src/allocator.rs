use vstd::prelude::*;

verus! {

/// Why an allocation request could not be met.
#[derive(Debug, Clone, Copy, PartialEq, Eq, Structural)]
pub enum AllocError {
    /// The heap has too few bytes left for the request.
    NoMemory,
}

pub type AllocResult<T = ()> = Result<T, AllocError>;

/// A byte allocator that hands out memory from one contiguous region by
/// moving a cursor forward, and reclaims the whole region once every
/// allocation has been returned.
pub struct BumpAllocator {
    heap_start: usize,
    heap_end: usize,
    next: usize,
    allocations: usize,
}

impl BumpAllocator {
    /// The cursor lies inside the region.
    pub closed spec fn wf(&self) -> bool {
        self.heap_start <= self.next <= self.heap_end
    }

    pub closed spec fn start_spec(&self) -> nat {
        self.heap_start as nat
    }

    pub closed spec fn end_spec(&self) -> nat {
        self.heap_end as nat
    }

    pub closed spec fn next_spec(&self) -> nat {
        self.next as nat
    }

    pub closed spec fn allocations_spec(&self) -> nat {
        self.allocations as nat
    }

    /// The region's bounds, the cursor and the count of live allocations
    /// are machine words.
    pub proof fn lemma_fits_usize(&self)
        ensures
            self.start_spec() <= usize::MAX,
            self.end_spec() <= usize::MAX,
            self.next_spec() <= usize::MAX,
            self.allocations_spec() <= usize::MAX,
    {
    }

    /// An allocator with an empty region.
    pub fn new() -> (r: Self)
        ensures
            r.wf(),
            r.start_spec() == 0,
            r.end_spec() == 0,
            r.next_spec() == 0,
            r.allocations_spec() == 0,
    {
        BumpAllocator { heap_start: 0, heap_end: 0, next: 0, allocations: 0 }
    }

    /// Takes `[start, start + size)` as the whole heap, with nothing allocated
    /// from it yet. Live allocations are not reset, as they are not in use.
    pub fn init(&mut self, start: usize, size: usize)
        requires
            start + size <= usize::MAX,
        ensures
            final(self).wf(),
            final(self).start_spec() == start,
            final(self).end_spec() == start + size,
            final(self).next_spec() == start,
            final(self).allocations_spec() == old(self).allocations_spec(),
    {
        self.heap_start = start;
        self.heap_end = start + size;
        self.next = start;
    }

    /// A bump allocator cannot grow a region that is not adjacent to the one it
    /// has: it abandons the current heap and starts over on the new region.
    pub fn add_memory(&mut self, start: usize, size: usize) -> (r: AllocResult)
        requires
            start + size <= usize::MAX,
        ensures
            r is Ok,
            final(self).wf(),
            final(self).start_spec() == start,
            final(self).end_spec() == start + size,
            final(self).next_spec() == start,
            final(self).allocations_spec() == old(self).allocations_spec(),
    {
        self.init(start, size);
        Ok(())
    }

    /// Hands out the next `size` bytes, at the address of the cursor, or fails
    /// when fewer than `size` bytes are left.
    pub fn alloc_bytes(&mut self, size: usize) -> (r: AllocResult<usize>)
        requires
            old(self).wf(),
        ensures
            final(self).wf(),
            final(self).start_spec() == old(self).start_spec(),
            final(self).end_spec() == old(self).end_spec(),
            old(self).end_spec() - old(self).next_spec() < size ==> {
                &&& r == Err::<usize, AllocError>(AllocError::NoMemory)
                &&& *final(self) == *old(self)
            },
            old(self).end_spec() - old(self).next_spec() >= size
                && old(self).allocations_spec() == usize::MAX ==> {
                &&& r == Err::<usize, AllocError>(AllocError::NoMemory)
                &&& *final(self) == *old(self)
            },
            old(self).end_spec() - old(self).next_spec() >= size
                && old(self).allocations_spec() < usize::MAX ==> {
                &&& r == Ok::<usize, AllocError>(old(self).next_spec() as usize)
                &&& final(self).next_spec() == old(self).next_spec() + size
                &&& final(self).allocations_spec() == old(self).allocations_spec() + 1
            },
    {
        if self.available_bytes() < size {
            Err(AllocError::NoMemory)
        } else if self.allocations == usize::MAX {
            Err(AllocError::NoMemory)
        } else {
            let alloc_start = self.next;
            self.next = alloc_start + size;
            self.allocations = self.allocations + 1;
            Ok(alloc_start)
        }
    }

    /// Returns one allocation. Once none is left, the whole region is free
    /// again.
    pub fn dealloc_bytes(&mut self, _pos: usize, _size: usize)
        requires
            old(self).wf(),
            old(self).allocations_spec() > 0,
        ensures
            final(self).wf(),
            final(self).start_spec() == old(self).start_spec(),
            final(self).end_spec() == old(self).end_spec(),
            final(self).allocations_spec() == old(self).allocations_spec() - 1,
            final(self).next_spec() == if final(self).allocations_spec() == 0 {
                old(self).start_spec()
            } else {
                old(self).next_spec()
            },
    {
        self.allocations = self.allocations - 1;
        if self.allocations == 0 {
            self.next = self.heap_start;
        }
    }

    /// Size of the region.
    pub fn total_bytes(&self) -> (r: usize)
        requires
            self.wf(),
        ensures
            r == self.end_spec() - self.start_spec(),
    {
        self.heap_end - self.heap_start
    }

    /// Bytes handed out since the region was last reset.
    pub fn used_bytes(&self) -> (r: usize)
        requires
            self.wf(),
        ensures
            r == self.next_spec() - self.start_spec(),
    {
        self.next - self.heap_start
    }

    /// Bytes still free after the cursor.
    pub fn available_bytes(&self) -> (r: usize)
        requires
            self.wf(),
        ensures
            r == self.end_spec() - self.next_spec(),
    {
        self.heap_end - self.next
    }
}

/// Byte accounting of an allocator that manages one or more claimed regions:
/// how many bytes it was given and how many are handed out.
pub struct HeapUsage {
    total: usize,
    used: usize,
}

impl HeapUsage {
    /// No more is handed out than was given.
    pub closed spec fn wf(&self) -> bool {
        self.used <= self.total
    }

    pub closed spec fn total_spec(&self) -> nat {
        self.total as nat
    }

    pub closed spec fn used_spec(&self) -> nat {
        self.used as nat
    }

    /// Nothing given, nothing used.
    pub fn new() -> (r: Self)
        ensures
            r.wf(),
            r.total_spec() == 0,
            r.used_spec() == 0,
    {
        HeapUsage { total: 0, used: 0 }
    }

    /// Counts a region of `size` bytes given to the allocator.
    pub fn add_region(&mut self, size: usize)
        requires
            old(self).wf(),
            old(self).total_spec() + size <= usize::MAX,
        ensures
            final(self).wf(),
            final(self).total_spec() == old(self).total_spec() + size,
            final(self).used_spec() == old(self).used_spec(),
    {
        self.total = self.total + size;
    }

    /// Counts `size` bytes handed out.
    pub fn record_alloc(&mut self, size: usize)
        requires
            old(self).wf(),
            old(self).used_spec() + size <= old(self).total_spec(),
        ensures
            final(self).wf(),
            final(self).total_spec() == old(self).total_spec(),
            final(self).used_spec() == old(self).used_spec() + size,
    {
        self.used = self.used + size;
    }

    /// Counts `size` bytes given back.
    pub fn record_free(&mut self, size: usize)
        requires
            old(self).wf(),
            size <= old(self).used_spec(),
        ensures
            final(self).wf(),
            final(self).total_spec() == old(self).total_spec(),
            final(self).used_spec() == old(self).used_spec() - size,
    {
        self.used = self.used - size;
    }

    pub fn total_bytes(&self) -> (r: usize)
        ensures
            r == self.total_spec(),
    {
        self.total
    }

    pub fn used_bytes(&self) -> (r: usize)
        ensures
            r == self.used_spec(),
    {
        self.used
    }

    /// Bytes given and not handed out.
    pub fn available_bytes(&self) -> (r: usize)
        requires
            self.wf(),
        ensures
            r == self.total_spec() - self.used_spec(),
    {
        self.total - self.used
    }
}

} // verus!
