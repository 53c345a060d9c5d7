use vstd::prelude::*;

verus! {

/// Number of bytes a pipe buffer holds.
pub const RING_BUFFER_SIZE: usize = 0x4000;

/// Tells an empty buffer from a full one when the two cursors meet.
#[derive(Debug, Clone, Copy, PartialEq, Eq, Structural)]
pub enum RingBufferStatus {
    Full,
    Empty,
    Normal,
}

/// Liveness of the endpoint that writes into a buffer.
#[derive(Debug, Clone, Copy, PartialEq, Eq, Structural)]
pub enum WriteEnd {
    /// No writer has been linked yet.
    Unlinked,
    /// The writer exists.
    Alive,
    /// The writer has been dropped; nothing more will be written.
    Closed,
}

/// Storage slot of the `i`-th buffered byte when the oldest one is at `head`.
pub open spec fn slot(head: int, i: int) -> int {
    if head + i < RING_BUFFER_SIZE {
        head + i
    } else {
        head + i - RING_BUFFER_SIZE
    }
}

/// A fixed-capacity circular byte queue: bytes are written at `tail` and
/// read at `head`.
pub struct PipeRingBuffer {
    arr: Vec<u8>,
    head: usize,
    tail: usize,
    status: RingBufferStatus,
    write_end: WriteEnd,
}

impl View for PipeRingBuffer {
    type V = Seq<u8>;

    /// The buffered bytes, oldest first.
    closed spec fn view(&self) -> Seq<u8> {
        Seq::new(self.len_spec(), |i: int| self.arr@[slot(self.head as int, i)])
    }
}

impl PipeRingBuffer {
    /// Cursors lie inside the storage, and they differ exactly when the
    /// buffer is neither empty nor full.
    pub closed spec fn wf(&self) -> bool {
        &&& self.arr@.len() == RING_BUFFER_SIZE
        &&& self.head < RING_BUFFER_SIZE
        &&& self.tail < RING_BUFFER_SIZE
        &&& (self.status == RingBufferStatus::Normal) == (self.head != self.tail)
    }

    closed spec fn len_spec(&self) -> nat {
        if self.status == RingBufferStatus::Empty {
            0
        } else if self.tail > self.head {
            (self.tail - self.head) as nat
        } else {
            (self.tail + RING_BUFFER_SIZE - self.head) as nat
        }
    }

    /// The liveness of this buffer's writer.
    pub closed spec fn write_end_spec(&self) -> WriteEnd {
        self.write_end
    }

    proof fn lemma_len_bound(&self)
        requires
            self.wf(),
        ensures
            self@.len() <= RING_BUFFER_SIZE,
            slot(self.head as int, self@.len() as int) == self.tail
                || self@.len() == RING_BUFFER_SIZE,
            self@.len() == RING_BUFFER_SIZE <==> self.status == RingBufferStatus::Full,
            self@.len() == 0 <==> self.status == RingBufferStatus::Empty,
    {
    }

    /// An empty buffer with no writer linked to it.
    pub fn new() -> (r: Self)
        ensures
            r.wf(),
            r@ == Seq::<u8>::empty(),
            r.write_end_spec() == WriteEnd::Unlinked,
    {
        let mut arr: Vec<u8> = Vec::new();
        while arr.len() < RING_BUFFER_SIZE
            invariant
                arr@.len() <= RING_BUFFER_SIZE,
            decreases RING_BUFFER_SIZE - arr@.len(),
        {
            arr.push(0);
        }
        let r = PipeRingBuffer { arr, head: 0, tail: 0, status: RingBufferStatus::Empty, write_end: WriteEnd::Unlinked };
        assert(r@ =~= Seq::<u8>::empty());
        r
    }

    /// Links the writer of this buffer: from now on it counts as alive until
    /// `close_write_end` is called.
    pub fn set_write_end(&mut self)
        requires
            old(self).wf(),
        ensures
            final(self).wf(),
            final(self)@ == old(self)@,
            final(self).write_end_spec() == WriteEnd::Alive,
    {
        self.write_end = WriteEnd::Alive;
    }

    /// Records that the writer of this buffer is gone.
    pub fn close_write_end(&mut self)
        requires
            old(self).wf(),
        ensures
            final(self).wf(),
            final(self)@ == old(self)@,
            final(self).write_end_spec() == WriteEnd::Closed,
    {
        self.write_end = WriteEnd::Closed;
    }

    /// Appends one byte; the caller has checked that there is room.
    pub fn write_byte(&mut self, byte: u8)
        requires
            old(self).wf(),
            old(self)@.len() < RING_BUFFER_SIZE,
        ensures
            final(self).wf(),
            final(self)@ == old(self)@.push(byte),
            final(self).write_end_spec() == old(self).write_end_spec(),
    {
        proof {
            self.lemma_len_bound();
        }
        self.status = RingBufferStatus::Normal;
        self.arr.set(self.tail, byte);
        self.tail = if self.tail + 1 == RING_BUFFER_SIZE {
            0
        } else {
            self.tail + 1
        };
        if self.tail == self.head {
            self.status = RingBufferStatus::Full;
        }
        assert(self@ =~= old(self)@.push(byte));
    }

    /// Removes and returns the oldest byte; the caller has checked that there
    /// is one.
    pub fn read_byte(&mut self) -> (r: u8)
        requires
            old(self).wf(),
            old(self)@.len() > 0,
        ensures
            final(self).wf(),
            r == old(self)@[0],
            final(self)@ == old(self)@.drop_first(),
            final(self).write_end_spec() == old(self).write_end_spec(),
    {
        proof {
            self.lemma_len_bound();
        }
        self.status = RingBufferStatus::Normal;
        let c = self.arr[self.head];
        self.head = if self.head + 1 == RING_BUFFER_SIZE {
            0
        } else {
            self.head + 1
        };
        if self.head == self.tail {
            self.status = RingBufferStatus::Empty;
        }
        assert(self@ =~= old(self)@.drop_first());
        c
    }

    /// Number of bytes that can be read.
    pub fn available_read(&self) -> (r: usize)
        requires
            self.wf(),
        ensures
            r == self@.len(),
    {
        proof {
            self.lemma_len_bound();
        }
        if self.status == RingBufferStatus::Empty {
            0
        } else if self.tail > self.head {
            self.tail - self.head
        } else {
            self.tail + RING_BUFFER_SIZE - self.head
        }
    }

    /// Number of bytes that can be written.
    pub fn available_write(&self) -> (r: usize)
        requires
            self.wf(),
        ensures
            r == RING_BUFFER_SIZE - self@.len(),
    {
        proof {
            self.lemma_len_bound();
        }
        if self.status == RingBufferStatus::Full {
            0
        } else {
            RING_BUFFER_SIZE - self.available_read()
        }
    }

    /// The liveness of this buffer's writer.
    pub fn write_end(&self) -> (r: WriteEnd)
        ensures
            r == self.write_end_spec(),
    {
        self.write_end
    }

    /// Whether the writer has been dropped. Only meaningful once a writer has
    /// been linked.
    pub fn all_write_ends_closed(&self) -> (r: bool)
        requires
            self.write_end_spec() != WriteEnd::Unlinked,
        ensures
            r == (self.write_end_spec() == WriteEnd::Closed),
    {
        self.write_end == WriteEnd::Closed
    }
}

/// On every well-formed buffer, which each operation keeps, the bytes that
/// can be read and the bytes that can be written make up the capacity:
/// `available_read` is `r@.len()` and `available_write` is the rest.
pub proof fn lemma_capacity_split(r: PipeRingBuffer)
    requires
        r.wf(),
    ensures
        r@.len() <= RING_BUFFER_SIZE,
        r@.len() + (RING_BUFFER_SIZE - r@.len()) == RING_BUFFER_SIZE,
{
    r.lemma_len_bound();
}

} // verus!
