use vstd::prelude::*;

use crate::ring_buffer::{PipeRingBuffer, WriteEnd, RING_BUFFER_SIZE};

verus! {

/// What kind of object a descriptor refers to.
#[derive(Debug, Clone, Copy, PartialEq, Eq, Structural)]
pub enum FileKind {
    Pipe,
    Other,
}

/// Outcome of one attempt to read from a pipe.
pub enum PipeRead {
    /// The bytes read; empty at end of stream or when nothing is there and
    /// the endpoint does not block.
    Data(Vec<u8>),
    /// Nothing to read yet: release the buffer, yield, and try again.
    Wait,
}

/// Outcome of one attempt to write into a pipe.
#[derive(Debug, Clone, Copy, PartialEq, Eq, Structural)]
pub enum PipeWrite {
    /// The number of bytes accepted, possibly fewer than offered.
    Written(usize),
    /// No room yet: release the buffer, yield, and try again.
    Wait,
}

/// The smaller of two counts.
pub open spec fn take_count(avail: nat, want: nat) -> nat {
    if avail < want {
        avail
    } else {
        want
    }
}

/// Bytes a write of `data` leaves in a buffer that held `q`.
pub open spec fn after_write(q: Seq<u8>, data: Seq<u8>) -> Seq<u8> {
    q + data.take(take_count((RING_BUFFER_SIZE - q.len()) as nat, data.len()) as int)
}

/// Bytes a read of up to `want` bytes takes from a buffer that holds `q`.
pub open spec fn read_part(q: Seq<u8>, want: nat) -> Seq<u8> {
    q.take(take_count(q.len(), want) as int)
}

/// Bytes a read of up to `want` bytes leaves in a buffer that holds `q`.
pub open spec fn after_read(q: Seq<u8>, want: nat) -> Seq<u8> {
    q.skip(take_count(q.len(), want) as int)
}

/// One end of a duplex pipe. The buffers themselves are shared with the peer
/// end and are handed to each operation by whoever holds their lock.
pub struct PipeEndpoint {
    readable: bool,
    writable: bool,
    non_block: bool,
}

impl PipeEndpoint {
    pub closed spec fn readable_spec(&self) -> bool {
        self.readable
    }

    pub closed spec fn writable_spec(&self) -> bool {
        self.writable
    }

    pub closed spec fn non_block_spec(&self) -> bool {
        self.non_block
    }

    /// A read of this endpoint must wait: its buffer is empty, yet its writer
    /// and the peer end are still there and the endpoint blocks.
    pub open spec fn read_waits(&self, ring: PipeRingBuffer, peer_dropped: bool) -> bool {
        &&& ring@.len() == 0
        &&& !peer_dropped
        &&& ring.write_end_spec() != WriteEnd::Closed
        &&& !self.non_block_spec()
    }

    /// A write of this endpoint must wait: its buffer is full, yet the reader
    /// is still there and the endpoint blocks.
    pub open spec fn write_waits(&self, ring: PipeRingBuffer, reader_dropped: bool) -> bool {
        &&& ring@.len() == RING_BUFFER_SIZE
        &&& !reader_dropped
        &&& !self.non_block_spec()
    }

    /// A duplex endpoint.
    pub fn new(non_block: bool) -> (r: Self)
        ensures
            r.readable_spec(),
            r.writable_spec(),
            r.non_block_spec() == non_block,
    {
        PipeEndpoint { readable: true, writable: true, non_block }
    }

    pub fn readable(&self) -> (r: bool)
        ensures
            r == self.readable_spec(),
    {
        self.readable
    }

    pub fn writable(&self) -> (r: bool)
        ensures
            r == self.writable_spec(),
    {
        self.writable
    }

    pub fn non_block(&self) -> (r: bool)
        ensures
            r == self.non_block_spec(),
    {
        self.non_block
    }

    pub fn executable(&self) -> (r: bool)
        ensures
            !r,
    {
        false
    }

    pub fn get_type(&self) -> (r: FileKind)
        ensures
            r == FileKind::Pipe,
    {
        FileKind::Pipe
    }

    /// One attempt to read up to `want` bytes from `ring`, this endpoint's
    /// read buffer. `peer_dropped` tells that the other end of the pipe no
    /// longer exists.
    pub fn read(&self, ring: &mut PipeRingBuffer, want: usize, peer_dropped: bool) -> (r: PipeRead)
        requires
            old(ring).wf(),
            old(ring).write_end_spec() != WriteEnd::Unlinked,
            self.readable_spec(),
        ensures
            final(ring).wf(),
            final(ring).write_end_spec() == old(ring).write_end_spec(),
            self.read_waits(*old(ring), peer_dropped) ==> r is Wait && final(ring)@ == old(ring)@,
            !self.read_waits(*old(ring), peer_dropped) ==> {
                &&& r is Data
                &&& r->Data_0@ == read_part(old(ring)@, want as nat)
                &&& final(ring)@ == after_read(old(ring)@, want as nat)
            },
    {
        let n = ring.available_read();
        if n == 0 {
            if peer_dropped || ring.all_write_ends_closed() || self.non_block {
                assert(read_part(old(ring)@, want as nat) =~= Seq::<u8>::empty());
                assert(after_read(old(ring)@, want as nat) =~= old(ring)@);
                return PipeRead::Data(Vec::new());
            }
            return PipeRead::Wait;
        }
        let k = if n < want {
            n
        } else {
            want
        };
        let mut out: Vec<u8> = Vec::new();
        let mut i: usize = 0;
        while i < k
            invariant
                k == take_count(old(ring)@.len(), want as nat),
                i <= k,
                ring.wf(),
                ring.write_end_spec() == old(ring).write_end_spec(),
                out@ == old(ring)@.take(i as int),
                ring@ == old(ring)@.skip(i as int),
            decreases k - i,
        {
            let b = ring.read_byte();
            out.push(b);
            i = i + 1;
            assert(out@ =~= old(ring)@.take(i as int));
            assert(ring@ =~= old(ring)@.skip(i as int));
        }
        PipeRead::Data(out)
    }

    /// One attempt to write `data` into `ring`, this endpoint's write buffer.
    /// `reader_dropped` tells that the end reading from `ring` no longer
    /// exists.
    pub fn write(&self, ring: &mut PipeRingBuffer, data: &[u8], reader_dropped: bool) -> (r: PipeWrite)
        requires
            old(ring).wf(),
            self.writable_spec(),
        ensures
            final(ring).wf(),
            final(ring).write_end_spec() == old(ring).write_end_spec(),
            self.write_waits(*old(ring), reader_dropped) ==> r == PipeWrite::Wait && final(ring)@
                == old(ring)@,
            !self.write_waits(*old(ring), reader_dropped) ==> {
                &&& r == PipeWrite::Written(
                    take_count((RING_BUFFER_SIZE - old(ring)@.len()) as nat, data@.len()) as usize,
                )
                &&& final(ring)@ == after_write(old(ring)@, data@)
            },
    {
        let space = ring.available_write();
        if space == 0 {
            if reader_dropped || self.non_block {
                assert(after_write(old(ring)@, data@) =~= old(ring)@);
                return PipeWrite::Written(0);
            }
            return PipeWrite::Wait;
        }
        let k = if space < data.len() {
            space
        } else {
            data.len()
        };
        let mut i: usize = 0;
        while i < k
            invariant
                k == take_count((RING_BUFFER_SIZE - old(ring)@.len()) as nat, data@.len()),
                old(ring)@.len() + k <= RING_BUFFER_SIZE,
                k <= data@.len(),
                i <= k,
                ring.wf(),
                ring.write_end_spec() == old(ring).write_end_spec(),
                ring@ == old(ring)@ + data@.take(i as int),
            decreases k - i,
        {
            ring.write_byte(data[i]);
            i = i + 1;
            assert(ring@ =~= old(ring)@ + data@.take(i as int));
        }
        PipeWrite::Written(k)
    }

    /// Whether nothing more can ever happen on this endpoint: for a reading
    /// end, its buffer is drained and its writer is gone; otherwise, the end
    /// reading what it writes is gone.
    pub fn is_hang_up(&self, read_buffer: &PipeRingBuffer, reader_dropped: bool) -> (r: bool)
        requires
            read_buffer.wf(),
            read_buffer.write_end_spec() != WriteEnd::Unlinked,
        ensures
            r == if self.readable_spec() {
                read_buffer@.len() == 0 && read_buffer.write_end_spec() == WriteEnd::Closed
            } else {
                reader_dropped
            },
    {
        if self.readable {
            read_buffer.available_read() == 0 && read_buffer.all_write_ends_closed()
        } else {
            reader_dropped
        }
    }

    /// Whether a read would find bytes.
    pub fn ready_to_read(&self, read_buffer: &PipeRingBuffer) -> (r: bool)
        requires
            read_buffer.wf(),
        ensures
            r == (self.readable_spec() && read_buffer@.len() != 0),
    {
        self.readable && read_buffer.available_read() != 0
    }

    /// Whether a write would find room.
    pub fn ready_to_write(&self, write_buffer: &PipeRingBuffer) -> (r: bool)
        requires
            write_buffer.wf(),
        ensures
            r == (self.writable_spec() && write_buffer@.len() != RING_BUFFER_SIZE),
    {
        self.writable && write_buffer.available_write() != 0
    }
}

/// The two ends of a pipe and the two buffers between them.
pub struct PipePair {
    pub left: PipeEndpoint,
    pub right: PipeEndpoint,
    /// Written by `left`, read by `right`.
    pub left_to_right: PipeRingBuffer,
    /// Written by `right`, read by `left`.
    pub right_to_left: PipeRingBuffer,
}

/// Two duplex endpoints joined by two empty buffers, each with its writer
/// linked and alive.
pub fn make_pipe(non_block: bool) -> (r: PipePair)
    ensures
        r.left.readable_spec() && r.left.writable_spec(),
        r.right.readable_spec() && r.right.writable_spec(),
        r.left.non_block_spec() == non_block,
        r.right.non_block_spec() == non_block,
        r.left_to_right.wf(),
        r.right_to_left.wf(),
        r.left_to_right@ == Seq::<u8>::empty(),
        r.right_to_left@ == Seq::<u8>::empty(),
        r.left_to_right.write_end_spec() == WriteEnd::Alive,
        r.right_to_left.write_end_spec() == WriteEnd::Alive,
{
    let mut left_to_right = PipeRingBuffer::new();
    let mut right_to_left = PipeRingBuffer::new();
    let left = PipeEndpoint::new(non_block);
    let right = PipeEndpoint::new(non_block);
    left_to_right.set_write_end();
    right_to_left.set_write_end();
    PipePair { left, right, left_to_right, right_to_left }
}

/// Bytes a buffer that held `q` holds after the writes `ws`, in turn.
pub open spec fn write_all(q: Seq<u8>, ws: Seq<Seq<u8>>) -> Seq<u8>
    decreases ws.len(),
{
    if ws.len() == 0 {
        q
    } else {
        write_all(after_write(q, ws[0]), ws.drop_first())
    }
}

/// Bytes that reads of up to `wants[0]`, `wants[1]`, ... bytes take, in
/// turn, from a buffer that holds `q`.
pub open spec fn read_all(q: Seq<u8>, wants: Seq<nat>) -> Seq<u8>
    decreases wants.len(),
{
    if wants.len() == 0 {
        Seq::empty()
    } else {
        read_part(q, wants[0]) + read_all(after_read(q, wants[0]), wants.drop_first())
    }
}

proof fn lemma_write_all(q: Seq<u8>, ws: Seq<Seq<u8>>)
    requires
        q.len() + ws.flatten().len() <= RING_BUFFER_SIZE,
    ensures
        write_all(q, ws) == q + ws.flatten(),
    decreases ws.len(),
{
    if ws.len() > 0 {
        assert(after_write(q, ws[0]) =~= q + ws[0]);
        lemma_write_all(q + ws[0], ws.drop_first());
        assert(q + ws[0] + ws.drop_first().flatten() =~= q + ws.flatten());
    } else {
        assert(q + ws.flatten() =~= q);
    }
}

proof fn lemma_read_all(q: Seq<u8>, wants: Seq<nat>)
    ensures
        read_all(q, wants).len() <= q.len(),
        read_all(q, wants) == q.take(read_all(q, wants).len() as int),
    decreases wants.len(),
{
    if wants.len() > 0 {
        let k = take_count(q.len(), wants[0]);
        let rest = after_read(q, wants[0]);
        lemma_read_all(rest, wants.drop_first());
        let m = read_all(rest, wants.drop_first()).len();
        assert(read_all(q, wants) =~= q.take((k + m) as int));
    } else {
        assert(q.take(0) =~= Seq::<u8>::empty());
    }
}

/// A pipe buffer is a FIFO queue: when writes `ws` and then reads `wants`
/// are made on a buffer holding `q`, and everything written fits, the bytes
/// read are the bytes that were there and then those written, in order.
pub proof fn lemma_fifo(q: Seq<u8>, ws: Seq<Seq<u8>>, wants: Seq<nat>)
    requires
        q.len() + ws.flatten().len() <= RING_BUFFER_SIZE,
    ensures
        write_all(q, ws) == q + ws.flatten(),
        ({
            let out = read_all(write_all(q, ws), wants);
            out == (q + ws.flatten()).take(out.len() as int)
        }),
{
    lemma_write_all(q, ws);
    lemma_read_all(q + ws.flatten(), wants);
}

/// Writing exactly the capacity into an empty buffer fills it: all of it is
/// taken, no room is left, and a further write takes nothing.
pub proof fn lemma_fill(data: Seq<u8>, more: Seq<u8>)
    requires
        data.len() == RING_BUFFER_SIZE,
    ensures
        after_write(Seq::empty(), data) == data,
        take_count((RING_BUFFER_SIZE - after_write(Seq::empty(), data).len()) as nat, more.len())
            == 0,
        after_write(after_write(Seq::empty(), data), more) == data,
{
    assert(after_write(Seq::empty(), data) =~= data);
    assert(after_write(data, more) =~= data);
}

/// Once the writer of a buffer is gone, a read never waits: it takes what is
/// left, and once the buffer is drained it returns nothing at once.
pub proof fn lemma_closed_writer_never_waits(
    ep: PipeEndpoint,
    ring: PipeRingBuffer,
    peer_dropped: bool,
    want: nat,
)
    requires
        ring.write_end_spec() == WriteEnd::Closed,
    ensures
        !ep.read_waits(ring, peer_dropped),
        want >= ring@.len() ==> read_part(ring@, want) == ring@ && after_read(ring@, want).len()
            == 0,
        ring@.len() == 0 ==> read_part(ring@, want).len() == 0,
{
    assert(ring@.take(ring@.len() as int) =~= ring@);
}

} // verus!
