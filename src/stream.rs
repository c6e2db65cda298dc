//! Streaming I/O.
//!
//! A stream owns a pool of buffers that the kernel allocated and that the process mapped into its
//! address space. Each buffer is at every moment either *queued* (owned by the driver, which may
//! be filling or draining it) or *unqueued* (owned by the process). The types here decide which
//! kernel call comes next and record the ownership changes once a call has succeeded; the caller
//! performs the calls (`VIDIOC_REQBUFS`, `VIDIOC_QBUF`, `VIDIOC_DQBUF`, `mmap`, ...) and reports
//! their outcome back.

use vstd::prelude::*;

use crate::buf_type::BufType;
use crate::shared::BufFlag;

verus! {

/// Who owns a buffer.
#[derive(Clone, Copy, PartialEq, Eq, Structural, Debug)]
pub enum BufState {
    /// The process owns the buffer and may read or write its memory.
    Unqueued,
    /// The driver owns the buffer; the process must not touch its memory.
    Queued,
}

/// One kernel-allocated buffer mapped into the process.
#[derive(Clone, Copy, PartialEq, Eq, Structural, Debug)]
pub struct Buffer {
    /// Size of the mapped region in bytes.
    pub length: u32,
    pub state: BufState,
}

/// Number of buffers requested by default.
pub const DEFAULT_BUFFER_COUNT: u32 = 2;

/// The pool size for a request of `requested` buffers that the driver answered with `granted`:
/// a smaller grant is accepted and becomes authoritative.
pub open spec fn pool_size(requested: u32, granted: u32) -> u32 {
    if granted < requested {
        granted
    } else {
        requested
    }
}

/// The pool size is the requested count or the granted count, whichever is smaller: never more
/// than was asked for, and never more than the driver provides.
pub proof fn lemma_pool_size(requested: u32, granted: u32)
    ensures
        pool_size(requested, granted) == requested || pool_size(requested, granted) == granted,
        pool_size(requested, granted) <= requested,
        pool_size(requested, granted) <= granted,
        granted >= requested ==> pool_size(requested, granted) == requested,
{
}

/// Every buffer of `buffers` is unqueued.
pub open spec fn all_unqueued(buffers: Seq<Buffer>) -> bool {
    forall|i: int| 0 <= i < buffers.len() ==> #[trigger] buffers[i].state == BufState::Unqueued
}

/// Every buffer of `buffers` is queued, except possibly the one at index `except`.
pub open spec fn all_queued_except(buffers: Seq<Buffer>, except: Option<u32>) -> bool {
    forall|i: int|
        0 <= i < buffers.len() ==> #[trigger] buffers[i].state == BufState::Queued || except
            == Some(i as u32)
}

/// `buffers` with the buffer at `index` handed to `state`.
pub open spec fn set_state(buffers: Seq<Buffer>, index: u32, state: BufState) -> Seq<Buffer> {
    buffers.update(index as int, Buffer { length: buffers[index as int].length, state })
}

/// `buffers` with every buffer unqueued, lengths kept.
pub open spec fn unqueue_all(buffers: Seq<Buffer>) -> Seq<Buffer> {
    buffers.map_values(|b: Buffer| Buffer { length: b.length, state: BufState::Unqueued })
}

/// The indices `0..n`.
pub open spec fn indices(n: nat) -> Seq<u32> {
    Seq::new(n, |i: int| i as u32)
}

/// Records the buffers mapped so far while a pool is being allocated.
///
/// The driver is asked for a number of buffers first; once it has answered, each granted buffer
/// is queried and mapped in index order, and [`Allocation::mapped`] records it. When every buffer
/// is mapped, [`Allocation::finish`] turns the record into a pool; when a mapping fails,
/// [`Allocation::abort`] says which regions must be unmapped again.
pub struct Allocation {
    requested: u32,
    count: u32,
    lengths: Vec<u32>,
}

/// What an allocation has recorded.
pub ghost struct AllocationView {
    pub requested: u32,
    /// The number of buffers the pool will hold.
    pub count: u32,
    /// Lengths of the buffers mapped so far, in index order.
    pub lengths: Seq<u32>,
}

impl View for Allocation {
    type V = AllocationView;

    closed spec fn view(&self) -> AllocationView {
        AllocationView { requested: self.requested, count: self.count, lengths: self.lengths@ }
    }
}

impl Allocation {
    /// Decides the pool size once the driver has answered a request for `requested` buffers by
    /// granting `granted`.
    ///
    /// A smaller grant is never fatal: the pool uses the granted count, which may be zero.
    pub fn new(requested: u32, granted: u32) -> (r: Allocation)
        ensures
            r@ == (AllocationView {
                requested,
                count: pool_size(requested, granted),
                lengths: seq![],
            }),
    {
        let count: u32 = if granted < requested {
            granted
        } else {
            requested
        };
        Allocation { requested, count, lengths: Vec::new() }
    }

    /// Returns the index of the buffer to query and map next, or `None` when all are mapped.
    pub fn next_index(&self) -> (r: Option<u32>)
        requires
            self@.lengths.len() <= self@.count,
        ensures
            r is None <==> self@.lengths.len() == self@.count,
            r matches Some(i) ==> i == self@.lengths.len(),
    {
        if self.lengths.len() < self.count as usize {
            Some(self.lengths.len() as u32)
        } else {
            None
        }
    }

    /// Records that buffer `index`, of `length` bytes, has been mapped.
    ///
    /// `index` is the index the driver reported for the buffer; it must be the one that
    /// [`Allocation::next_index`] asked for.
    pub fn mapped(&mut self, index: u32, length: u32)
        requires
            old(self)@.lengths.len() < old(self)@.count,
            index == old(self)@.lengths.len(),
        ensures
            final(self)@ == (AllocationView {
                lengths: old(self)@.lengths.push(length),
                ..old(self)@
            }),
    {
        self.lengths.push(length);
    }

    /// Gives up the allocation after a failed query or mapping; returns the indices of the
    /// regions that were mapped and must now be unmapped.
    pub fn abort(self) -> (r: Vec<u32>)
        requires
            self@.lengths.len() <= self@.count,
        ensures
            r@ == indices(self@.lengths.len()),
    {
        let mut r: Vec<u32> = Vec::new();
        let n: usize = self.lengths.len();
        let mut i: usize = 0;
        while i < n
            invariant
                n == self@.lengths.len(),
                n <= self@.count,
                i <= n,
                r@ == indices(i as nat),
            decreases n - i,
        {
            r.push(i as u32);
            proof {
                assert(r@ =~= indices((i + 1) as nat));
            }
            i = i + 1;
        }
        r
    }

    /// Turns a complete allocation into a pool of unqueued buffers, one per mapped region.
    pub fn finish(self) -> (r: Buffers)
        requires
            self@.lengths.len() == self@.count,
        ensures
            r@.len() == self@.count,
            forall|i: int| 0 <= i < r@.len() ==> #[trigger] r@[i] == (Buffer {
                length: self@.lengths[i],
                state: BufState::Unqueued,
            }),
            all_unqueued(r@),
            !r.is_released(),
    {
        let n: usize = self.lengths.len();
        let mut buffers: Vec<Buffer> = Vec::new();
        let mut i: usize = 0;
        while i < n
            invariant
                n == self@.lengths.len(),
                n == self@.count,
                i <= n,
                buffers@.len() == i,
                forall|j: int| 0 <= j < i ==> #[trigger] buffers@[j] == (Buffer {
                    length: self@.lengths[j],
                    state: BufState::Unqueued,
                }),
            decreases n - i,
        {
            buffers.push(Buffer { length: self.lengths[i], state: BufState::Unqueued });
            i = i + 1;
        }
        Buffers { buffers, released: false }
    }
}

/// Owns all buffers mapped for a device stream. A buffer's index in the pool is the index the
/// driver knows it by.
pub struct Buffers {
    buffers: Vec<Buffer>,
    released: bool,
}

impl View for Buffers {
    type V = Seq<Buffer>;

    closed spec fn view(&self) -> Seq<Buffer> {
        self.buffers@
    }
}

impl Buffers {
    /// Whether the mappings of this pool have been handed out for unmapping.
    pub closed spec fn is_released(&self) -> bool {
        self.released
    }

    /// Number of buffers in the pool.
    pub fn len(&self) -> (r: usize)
        ensures
            r == self@.len(),
    {
        self.buffers.len()
    }

    /// Size in bytes of buffer `index`.
    pub fn length(&self, index: u32) -> (r: u32)
        requires
            index < self@.len(),
        ensures
            r == self@[index as int].length,
    {
        self.buffers[index as usize].length
    }

    /// Whether buffer `index` is queued.
    pub fn is_queued(&self, index: u32) -> (r: bool)
        requires
            index < self@.len(),
        ensures
            r == (self@[index as int].state == BufState::Queued),
    {
        match self.buffers[index as usize].state {
            BufState::Queued => true,
            BufState::Unqueued => false,
        }
    }

    fn set_state(&mut self, index: u32, state: BufState)
        requires
            index < old(self)@.len(),
        ensures
            final(self)@ == set_state(old(self)@, index, state),
            final(self).is_released() == old(self).is_released(),
    {
        let length: u32 = self.buffers[index as usize].length;
        self.buffers.set(index as usize, Buffer { length, state });
    }

    fn unqueue_all(&mut self)
        ensures
            final(self)@ == unqueue_all(old(self)@),
            final(self).is_released() == old(self).is_released(),
    {
        let n: usize = self.buffers.len();
        let mut i: usize = 0;
        while i < n
            invariant
                n == old(self)@.len(),
                self@.len() == n,
                i <= n,
                self.is_released() == old(self).is_released(),
                forall|j: int| 0 <= j < i ==> #[trigger] self@[j] == (Buffer {
                    length: old(self)@[j].length,
                    state: BufState::Unqueued,
                }),
                forall|j: int| i <= j < n ==> #[trigger] self@[j] == old(self)@[j],
            decreases n - i,
        {
            let length: u32 = self.buffers[i].length;
            self.buffers.set(i, Buffer { length, state: BufState::Unqueued });
            i = i + 1;
        }
        assert(self@ =~= unqueue_all(old(self)@));
    }

    /// Hands out the mappings for unmapping: the indices of all buffers the first time, none on
    /// any later call.
    fn release(&mut self) -> (r: Vec<u32>)
        requires
            old(self)@.len() <= u32::MAX,
        ensures
            final(self)@ == old(self)@,
            final(self).is_released(),
            r@ == (if old(self).is_released() {
                seq![]
            } else {
                indices(old(self)@.len())
            }),
    {
        let mut r: Vec<u32> = Vec::new();
        if self.released {
            return r;
        }
        let n: usize = self.buffers.len();
        let mut i: usize = 0;
        while i < n
            invariant
                n == self@.len(),
                n <= u32::MAX,
                i <= n,
                r@ == indices(i as nat),
            decreases n - i,
        {
            r.push(i as u32);
            proof {
                assert(r@ =~= indices((i + 1) as nat));
            }
            i = i + 1;
        }
        self.released = true;
        r
    }
}

/// The first unqueued buffer at or after `start`, if any.
pub open spec fn first_unqueued_from(buffers: Seq<Buffer>, start: int) -> Option<u32>
    decreases buffers.len() - start,
{
    if start < 0 || start >= buffers.len() {
        None
    } else if buffers[start].state == BufState::Unqueued {
        Some(start as u32)
    } else {
        first_unqueued_from(buffers, start + 1)
    }
}

/// What `first_unqueued_from` finds: the smallest unqueued index from `start` on.
pub proof fn lemma_first_unqueued_from(buffers: Seq<Buffer>, start: int)
    requires
        0 <= start,
        buffers.len() <= u32::MAX,
    ensures
        match first_unqueued_from(buffers, start) {
            Some(k) => start <= k < buffers.len() && buffers[k as int].state == BufState::Unqueued
                && forall|j: int| start <= j < k ==> #[trigger] buffers[j].state == BufState::Queued,
            None => forall|j: int|
                start <= j < buffers.len() ==> #[trigger] buffers[j].state == BufState::Queued,
        },
    decreases buffers.len() - start,
{
    if start < buffers.len() && buffers[start].state != BufState::Unqueued {
        lemma_first_unqueued_from(buffers, start + 1);
    }
}

/// The state of a read stream.
pub ghost struct ReadStreamView {
    pub buffers: Seq<Buffer>,
    pub buf_type: BufType,
    /// Whether the driver has been told to start streaming.
    pub streaming: bool,
    /// The buffer currently dequeued and handed to a callback.
    pub in_flight: Option<u32>,
    /// Whether the stream has been shut down.
    pub closed: bool,
}

impl ReadStreamView {
    /// The invariant of a read stream.
    pub open spec fn wf(self) -> bool {
        &&& self.buffers.len() <= u32::MAX
        &&& self.in_flight matches Some(i) ==> i < self.buffers.len() && self.buffers[i as int].state
            == BufState::Unqueued
        &&& self.closed ==> all_unqueued(self.buffers) && !self.streaming && self.in_flight is None
    }

    /// After the driver accepted buffer `index` into its queue.
    pub open spec fn enqueued(self, index: u32) -> ReadStreamView {
        ReadStreamView { buffers: set_state(self.buffers, index, BufState::Queued), ..self }
    }

    /// After the driver handed back the filled buffer `index`.
    pub open spec fn dequeued(self, index: u32) -> ReadStreamView {
        ReadStreamView {
            buffers: set_state(self.buffers, index, BufState::Unqueued),
            in_flight: Some(index),
            ..self
        }
    }

    /// After the callback returned and the in-flight buffer was handed back to the driver,
    /// successfully when `requeued`.
    pub open spec fn requeued(self, requeued: bool) -> ReadStreamView {
        let i = self.in_flight->0;
        ReadStreamView {
            buffers: if requeued {
                set_state(self.buffers, i, BufState::Queued)
            } else {
                self.buffers
            },
            in_flight: None,
            ..self
        }
    }

    /// After shutting the stream down: streaming stopped (the driver gives every buffer back)
    /// and the pool released. Shutting down a closed stream changes nothing.
    pub open spec fn closed(self) -> ReadStreamView {
        if self.closed {
            self
        } else {
            ReadStreamView {
                buffers: unqueue_all(self.buffers),
                streaming: false,
                in_flight: None,
                closed: true,
                ..self
            }
        }
    }
}

/// A stream that reads data from a device: every buffer is queued with the driver, except the
/// one being processed by a [`ReadStream::dequeue`] callback.
///
/// Setting up a stream enqueues every buffer ([`ReadStream::next_to_enqueue`],
/// [`ReadStream::enqueued`]) and then starts streaming ([`ReadStream::streaming_started`]).
/// A dequeue cycle is [`ReadStream::dequeued`] followed by [`ReadStream::finish_dequeue`].
pub struct ReadStream {
    buffers: Buffers,
    buf_type: BufType,
    streaming: bool,
    in_flight: Option<u32>,
}

impl View for ReadStream {
    type V = ReadStreamView;

    closed spec fn view(&self) -> ReadStreamView {
        ReadStreamView {
            buffers: self.buffers@,
            buf_type: self.buf_type,
            streaming: self.streaming,
            in_flight: self.in_flight,
            closed: self.buffers.is_released(),
        }
    }
}

impl ReadStream {
    /// Wraps a freshly allocated pool; no buffer is queued and streaming is off.
    pub fn new(buffers: Buffers, buf_type: BufType) -> (r: ReadStream)
        requires
            buffers@.len() <= u32::MAX,
            all_unqueued(buffers@),
            !buffers.is_released(),
        ensures
            r@ == (ReadStreamView {
                buffers: buffers@,
                buf_type,
                streaming: false,
                in_flight: None,
                closed: false,
            }),
            r@.wf(),
    {
        ReadStream { buffers, buf_type, streaming: false, in_flight: None }
    }

    /// The buffer (stream) type of this stream.
    pub fn buf_type(&self) -> (r: BufType)
        ensures
            r == self@.buf_type,
    {
        self.buf_type
    }

    /// Number of buffers in the pool.
    pub fn buffer_count(&self) -> (r: u32)
        requires
            self@.wf(),
        ensures
            r == self@.buffers.len(),
    {
        self.buffers.len() as u32
    }

    /// Size in bytes of buffer `index`.
    pub fn buffer_length(&self, index: u32) -> (r: u32)
        requires
            index < self@.buffers.len(),
        ensures
            r == self@.buffers[index as int].length,
    {
        self.buffers.length(index)
    }

    /// Whether buffer `index` is queued.
    pub fn is_queued(&self, index: u32) -> (r: bool)
        requires
            index < self@.buffers.len(),
        ensures
            r == (self@.buffers[index as int].state == BufState::Queued),
    {
        self.buffers.is_queued(index)
    }

    /// Whether the driver has been told to start streaming.
    pub fn is_streaming(&self) -> (r: bool)
        ensures
            r == self@.streaming,
    {
        self.streaming
    }

    /// Whether the stream has been shut down.
    pub fn is_closed(&self) -> (r: bool)
        ensures
            r == self@.closed,
    {
        self.buffers.released
    }

    /// The buffer currently handed to a callback, if any.
    pub fn in_flight(&self) -> (r: Option<u32>)
        ensures
            r == self@.in_flight,
    {
        self.in_flight
    }

    /// The lowest index of an unqueued buffer that is not in a callback, or `None` when every
    /// such buffer is queued.
    pub fn next_to_enqueue(&self) -> (r: Option<u32>)
        requires
            self@.wf(),
        ensures
            r is None ==> all_queued_except(self@.buffers, self@.in_flight),
            r matches Some(i) ==> i < self@.buffers.len() && self@.buffers[i as int].state
                == BufState::Unqueued && self@.in_flight != Some(i),
            r matches Some(i) ==> forall|j: int|
                0 <= j < i ==> #[trigger] self@.buffers[j].state == BufState::Queued
                    || self@.in_flight == Some(j as u32),
    {
        let n: usize = self.buffers.len();
        let mut i: usize = 0;
        while i < n
            invariant
                n == self@.buffers.len(),
                n <= u32::MAX,
                i <= n,
                forall|j: int|
                    0 <= j < i ==> #[trigger] self@.buffers[j].state == BufState::Queued
                        || self@.in_flight == Some(j as u32),
            decreases n - i,
        {
            if !self.buffers.is_queued(i as u32) && self.in_flight != Some(i as u32) {
                return Some(i as u32);
            }
            i = i + 1;
        }
        None
    }

    /// Records that the driver accepted buffer `index` into its queue.
    pub fn enqueued(&mut self, index: u32)
        requires
            old(self)@.wf(),
            !old(self)@.closed,
            index < old(self)@.buffers.len(),
            old(self)@.in_flight != Some(index),
        ensures
            final(self)@ == old(self)@.enqueued(index),
            final(self)@.wf(),
    {
        self.buffers.set_state(index, BufState::Queued);
    }

    /// Records that the driver started streaming; every buffer must be queued by then.
    pub fn streaming_started(&mut self)
        requires
            old(self)@.wf(),
            !old(self)@.closed,
            all_queued_except(old(self)@.buffers, None),
        ensures
            final(self)@ == (ReadStreamView { streaming: true, ..old(self)@ }),
            final(self)@.wf(),
    {
        self.streaming = true;
    }

    /// Records that the driver handed back the filled buffer `index`, which now goes to the
    /// dequeue callback.
    pub fn dequeued(&mut self, index: u32)
        requires
            old(self)@.wf(),
            !old(self)@.closed,
            old(self)@.in_flight is None,
            index < old(self)@.buffers.len(),
            old(self)@.buffers[index as int].state == BufState::Queued,
        ensures
            final(self)@ == old(self)@.dequeued(index),
            final(self)@.wf(),
    {
        self.buffers.set_state(index, BufState::Unqueued);
        self.in_flight = Some(index);
    }

    /// A view of the buffer in the callback, whose mapped region is `data` and of which the
    /// driver filled `bytesused` bytes.
    pub fn in_flight_view<'a>(&self, flags: BufFlag, data: &'a [u8], bytesused: usize) -> (r:
        ReadBufferView<'a>)
        requires
            self@.wf(),
            self@.in_flight matches Some(i) && data@.len() == self@.buffers[i as int].length,
            bytesused <= data@.len(),
        ensures
            r.spec_flags() == flags,
            r.spec_raw() == data@,
            r.spec_raw().len() == self@.buffers[self@.in_flight->0 as int].length,
            r.spec_used() == bytesused,
    {
        ReadBufferView::new(flags, data, bytesused)
    }

    /// Ends a dequeue cycle: `processed` is what the callback returned, `requeued` the outcome of
    /// handing the buffer back to the driver.
    ///
    /// The callback's result is returned unless re-enqueuing failed: a buffer that cannot be
    /// re-enqueued is the more serious failure, and its error is returned instead.
    pub fn finish_dequeue<T, E>(&mut self, processed: Result<T, E>, requeued: Result<(), E>) -> (r:
        Result<T, E>)
        requires
            old(self)@.wf(),
            old(self)@.in_flight is Some,
        ensures
            final(self)@ == old(self)@.requeued(requeued is Ok),
            final(self)@.wf(),
            r == (match requeued {
                Ok(()) => processed,
                Err(e) => Err(e),
            }),
    {
        let index: u32 = match self.in_flight {
            Some(i) => i,
            None => 0,
        };
        self.in_flight = None;
        match requeued {
            Ok(()) => {
                self.buffers.set_state(index, BufState::Queued);
                processed
            },
            Err(e) => Err(e),
        }
    }

    /// Whether the next dequeue will block, given the flags the driver reports for each buffer
    /// (in index order): it will not when some buffer is marked done.
    pub fn will_block(&self, flags: &Vec<BufFlag>) -> (r: bool)
        requires
            flags@.len() == self@.buffers.len(),
        ensures
            r == forall|i: int|
                0 <= i < flags@.len() ==> #[trigger] flags@[i]@ & BufFlag::DONE != BufFlag::DONE,
    {
        let n: usize = flags.len();
        let mut i: usize = 0;
        while i < n
            invariant
                n == flags@.len(),
                i <= n,
                forall|j: int| 0 <= j < i ==> #[trigger] flags@[j]@ & BufFlag::DONE != BufFlag::DONE,
            decreases n - i,
        {
            if flags[i].contains(BufFlag::DONE) {
                return false;
            }
            i = i + 1;
        }
        true
    }

    /// Shuts the stream down. The first call returns the indices of the regions to unmap, which
    /// must happen only after streaming has been turned off; any later call returns `None` and
    /// changes nothing.
    pub fn close(&mut self) -> (r: Option<Vec<u32>>)
        requires
            old(self)@.wf(),
        ensures
            final(self)@ == old(self)@.closed(),
            final(self)@.wf(),
            r is None <==> old(self)@.closed,
            r matches Some(v) ==> v@ == indices(old(self)@.buffers.len()),
    {
        if self.buffers.released {
            return None;
        }
        self.buffers.unqueue_all();
        self.streaming = false;
        self.in_flight = None;
        let r: Vec<u32> = self.buffers.release();
        Some(r)
    }
}

/// The state of a write stream.
pub ghost struct WriteStreamView {
    pub buffers: Seq<Buffer>,
    pub buf_type: BufType,
    /// Whether the driver has been told to start streaming.
    pub streaming: bool,
    /// The next buffer known to be unqueued; `None` once every buffer has been queued, after
    /// which a buffer must be dequeued before it can be filled again.
    pub cursor: Option<u32>,
    /// A buffer dequeued from the driver and not yet queued again or recorded as the cursor.
    pub in_hand: Option<u32>,
    /// Whether any buffer has been dequeued (every buffer has then been queued at least once).
    pub wrapped: bool,
    /// Whether the stream has been shut down.
    pub closed: bool,
}

impl WriteStreamView {
    /// The invariant of a write stream: every buffer before the cursor is queued and the cursor
    /// is unqueued; before the first dequeue, the cursor and every buffer after it are unqueued;
    /// without a cursor, every buffer is queued except one that was just dequeued.
    pub open spec fn wf(self) -> bool {
        &&& self.buffers.len() <= u32::MAX
        &&& self.closed ==> all_unqueued(self.buffers) && !self.streaming && self.cursor is None
            && self.in_hand is None
        &&& !self.closed ==> {
            &&& self.cursor matches Some(i) ==> {
                &&& i < self.buffers.len()
                &&& self.buffers[i as int].state == BufState::Unqueued
                &&& self.in_hand is None
                &&& forall|j: int| 0 <= j < i ==> #[trigger] self.buffers[j].state == BufState::Queued
                &&& !self.wrapped ==> forall|j: int|
                    i <= j < self.buffers.len() ==> #[trigger] self.buffers[j].state
                        == BufState::Unqueued
            }
            &&& self.cursor is None ==> all_queued_except(self.buffers, self.in_hand)
            &&& self.in_hand matches Some(k) ==> k < self.buffers.len()
                && self.buffers[k as int].state == BufState::Unqueued && self.wrapped
        }
    }

    /// The buffer the next fill goes to, when it is known without dequeuing.
    pub open spec fn fill_target(self) -> Option<u32> {
        match self.cursor {
            Some(i) => Some(i),
            None => self.in_hand,
        }
    }

    /// After the driver handed back the drained buffer `index`.
    pub open spec fn dequeued(self, index: u32) -> WriteStreamView {
        WriteStreamView {
            buffers: set_state(self.buffers, index, BufState::Unqueued),
            in_hand: Some(index),
            wrapped: true,
            ..self
        }
    }

    /// After the filled buffer `index` was accepted into the driver's queue: the cursor moves to
    /// the next unqueued buffer after it, if it was in use.
    pub open spec fn enqueued(self, index: u32) -> WriteStreamView {
        let buffers = set_state(self.buffers, index, BufState::Queued);
        WriteStreamView {
            buffers,
            cursor: match self.cursor {
                Some(i) => first_unqueued_from(buffers, i + 1),
                None => None,
            },
            in_hand: None,
            ..self
        }
    }

    /// After filling or enqueuing buffer `index` failed: it is unqueued, and handed out next.
    pub open spec fn reclaimed(self, index: u32) -> WriteStreamView {
        WriteStreamView { cursor: Some(index), in_hand: None, ..self }
    }

    /// After shutting the stream down. Shutting down a closed stream changes nothing.
    pub open spec fn closed(self) -> WriteStreamView {
        if self.closed {
            self
        } else {
            WriteStreamView {
                buffers: unqueue_all(self.buffers),
                streaming: false,
                cursor: None,
                in_hand: None,
                closed: true,
                ..self
            }
        }
    }
}

/// A stream that writes data to a device.
///
/// An enqueue cycle fills an unqueued buffer and hands it to the driver. The buffer to fill is
/// [`WriteStream::next_unqueued_buffer`]; when there is none, one is dequeued from the driver
/// first ([`WriteStream::dequeued`]). Afterwards the buffer is either queued
/// ([`WriteStream::enqueued`]) or, when filling or enqueuing failed, reclaimed as the next one to
/// hand out ([`WriteStream::reclaim`]).
///
/// Streaming is started explicitly once the first buffer is queued
/// ([`WriteStream::streaming_started`]).
pub struct WriteStream {
    buffers: Buffers,
    buf_type: BufType,
    streaming: bool,
    next_unqueued_buffer: Option<u32>,
    in_hand: Option<u32>,
    wrapped: Ghost<bool>,
}

impl View for WriteStream {
    type V = WriteStreamView;

    closed spec fn view(&self) -> WriteStreamView {
        WriteStreamView {
            buffers: self.buffers@,
            buf_type: self.buf_type,
            streaming: self.streaming,
            cursor: self.next_unqueued_buffer,
            in_hand: self.in_hand,
            wrapped: self.wrapped@,
            closed: self.buffers.is_released(),
        }
    }
}

impl WriteStream {
    /// Wraps a freshly allocated pool; every buffer is unqueued and the cursor is at the first
    /// one (there is no cursor for an empty pool).
    pub fn new(buffers: Buffers, buf_type: BufType) -> (r: WriteStream)
        requires
            buffers@.len() <= u32::MAX,
            all_unqueued(buffers@),
            !buffers.is_released(),
        ensures
            r@ == (WriteStreamView {
                buffers: buffers@,
                buf_type,
                streaming: false,
                cursor: if buffers@.len() > 0 {
                    Some(0)
                } else {
                    None
                },
                in_hand: None,
                wrapped: false,
                closed: false,
            }),
            r@.wf(),
    {
        let cursor: Option<u32> = if buffers.len() > 0 {
            Some(0)
        } else {
            None
        };
        WriteStream {
            buffers,
            buf_type,
            streaming: false,
            next_unqueued_buffer: cursor,
            in_hand: None,
            wrapped: Ghost(false),
        }
    }

    /// The buffer (stream) type of this stream.
    pub fn buf_type(&self) -> (r: BufType)
        ensures
            r == self@.buf_type,
    {
        self.buf_type
    }

    /// Number of buffers in the pool.
    pub fn buffer_count(&self) -> (r: u32)
        requires
            self@.wf(),
        ensures
            r == self@.buffers.len(),
    {
        self.buffers.len() as u32
    }

    /// Size in bytes of buffer `index`.
    pub fn buffer_length(&self, index: u32) -> (r: u32)
        requires
            index < self@.buffers.len(),
        ensures
            r == self@.buffers[index as int].length,
    {
        self.buffers.length(index)
    }

    /// Whether the driver has been told to start streaming.
    pub fn is_streaming(&self) -> (r: bool)
        ensures
            r == self@.streaming,
    {
        self.streaming
    }

    /// Whether the stream has been shut down.
    pub fn is_closed(&self) -> (r: bool)
        ensures
            r == self@.closed,
    {
        self.buffers.released
    }

    /// The buffer to fill next without dequeuing, or `None` when every buffer is queued and one
    /// must be dequeued first (which may block).
    pub fn next_unqueued_buffer(&self) -> (r: Option<u32>)
        requires
            self@.wf(),
            self@.in_hand is None,
        ensures
            r == self@.cursor,
            r matches Some(i) ==> i < self@.buffers.len() && self@.buffers[i as int].state
                == BufState::Unqueued,
            r is None && !self@.closed ==> all_queued_except(self@.buffers, None),
    {
        self.next_unqueued_buffer
    }

    /// Records that the driver handed back the drained buffer `index`; it is the one to fill.
    pub fn dequeued(&mut self, index: u32)
        requires
            old(self)@.wf(),
            !old(self)@.closed,
            old(self)@.cursor is None,
            old(self)@.in_hand is None,
            index < old(self)@.buffers.len(),
        ensures
            final(self)@ == old(self)@.dequeued(index),
            final(self)@.wf(),
            final(self)@.fill_target() == Some(index),
    {
        self.buffers.set_state(index, BufState::Unqueued);
        self.in_hand = Some(index);
        self.wrapped = Ghost(true);
    }

    /// Records that the filled buffer `index` was accepted into the driver's queue. Returns
    /// whether streaming must be started now: it is started once a buffer is queued, and
    /// [`WriteStream::streaming_started`] records that it was.
    pub fn enqueued(&mut self, index: u32) -> (start_streaming: bool)
        requires
            old(self)@.wf(),
            !old(self)@.closed,
            old(self)@.fill_target() == Some(index),
        ensures
            final(self)@ == old(self)@.enqueued(index),
            final(self)@.wf(),
            start_streaming == !old(self)@.streaming,
    {
        let ghost before = self.buffers@;
        self.buffers.set_state(index, BufState::Queued);
        self.in_hand = None;
        match self.next_unqueued_buffer {
            Some(i) => {
                let next: Option<u32> = self.first_unqueued_after(i);
                self.next_unqueued_buffer = next;
                proof {
                    let b = self.buffers@;
                    lemma_first_unqueued_from(b, i + 1);
                    if !self.wrapped@ && i + 1 < b.len() {
                        assert(b[i + 1].state == BufState::Unqueued);
                    }
                    assert forall|j: int| 0 <= j < b.len() && j <= i implies #[trigger] b[j].state
                        == BufState::Queued by {
                        if j < i {
                            assert(before[j].state == BufState::Queued);
                        }
                    }
                }
            },
            None => {},
        }
        !self.streaming
    }

    /// The first unqueued buffer after `index`, if any.
    fn first_unqueued_after(&self, index: u32) -> (r: Option<u32>)
        requires
            self@.buffers.len() <= u32::MAX,
            index < self@.buffers.len(),
        ensures
            r == first_unqueued_from(self@.buffers, index + 1),
    {
        let n: usize = self.buffers.len();
        let mut j: usize = index as usize + 1;
        while j < n
            invariant
                n == self@.buffers.len(),
                n <= u32::MAX,
                index < j <= n,
                first_unqueued_from(self@.buffers, index + 1) == first_unqueued_from(
                    self@.buffers,
                    j as int,
                ),
            decreases n - j,
        {
            if !self.buffers.is_queued(j as u32) {
                return Some(j as u32);
            }
            j = j + 1;
        }
        None
    }

    /// Records that filling buffer `index`, or handing it to the driver, failed: the buffer is
    /// still unqueued and is the next one to hand out.
    pub fn reclaim(&mut self, index: u32)
        requires
            old(self)@.wf(),
            !old(self)@.closed,
            old(self)@.fill_target() == Some(index),
        ensures
            final(self)@ == old(self)@.reclaimed(index),
            final(self)@.wf(),
    {
        self.next_unqueued_buffer = Some(index);
        self.in_hand = None;
    }

    /// Records that the driver started streaming.
    pub fn streaming_started(&mut self)
        requires
            old(self)@.wf(),
            !old(self)@.closed,
        ensures
            final(self)@ == (WriteStreamView { streaming: true, ..old(self)@ }),
            final(self)@.wf(),
    {
        self.streaming = true;
    }

    /// Shuts the stream down. The first call returns the indices of the regions to unmap, which
    /// must happen only after streaming has been turned off; any later call returns `None` and
    /// changes nothing.
    pub fn close(&mut self) -> (r: Option<Vec<u32>>)
        requires
            old(self)@.wf(),
        ensures
            final(self)@ == old(self)@.closed(),
            final(self)@.wf(),
            r is None <==> old(self)@.closed,
            r matches Some(v) ==> v@ == indices(old(self)@.buffers.len()),
    {
        if self.buffers.released {
            return None;
        }
        self.buffers.unqueue_all();
        self.streaming = false;
        self.next_unqueued_buffer = None;
        self.in_hand = None;
        let r: Vec<u32> = self.buffers.release();
        Some(r)
    }
}

/// Immutable view into a dequeued (filled) read buffer, valid for one dequeue callback.
///
/// The *used* part of the buffer is what the driver filled; the whole backing buffer is available
/// through [`ReadBufferView::raw_buffer`].
pub struct ReadBufferView<'a> {
    flags: BufFlag,
    data: &'a [u8],
    bytesused: usize,
}

impl<'a> ReadBufferView<'a> {
    /// The flags the driver reported for the buffer.
    pub closed spec fn spec_flags(&self) -> BufFlag {
        self.flags
    }

    /// The entire backing buffer.
    pub closed spec fn spec_raw(&self) -> Seq<u8> {
        self.data@
    }

    /// The number of bytes the driver filled.
    pub closed spec fn spec_used(&self) -> nat {
        self.bytesused as nat
    }

    #[verifier::type_invariant]
    spec fn inv(&self) -> bool {
        self.bytesused <= self.data@.len()
    }

    /// A view of the buffer `data`, of which the driver filled the first `bytesused` bytes.
    pub fn new(flags: BufFlag, data: &'a [u8], bytesused: usize) -> (r: Self)
        requires
            bytesused <= data@.len(),
        ensures
            r.spec_flags() == flags,
            r.spec_raw() == data@,
            r.spec_used() == bytesused,
    {
        ReadBufferView { flags, data, bytesused }
    }

    /// Returns whether the error flag for this buffer is set.
    ///
    /// If this returns `true`, the application should expect data corruption in the buffer data.
    pub fn is_error(&self) -> (r: bool)
        ensures
            r == (self.spec_flags()@ & BufFlag::ERROR == BufFlag::ERROR),
    {
        self.flags.contains(BufFlag::ERROR)
    }

    /// Returns a reference to the *entire* backing buffer.
    ///
    /// For compressed formats like MJPEG, the backing buffer is usually a lot larger than the
    /// used part, which [`ReadBufferView::bytes`] returns.
    pub fn raw_buffer(&self) -> (r: &'a [u8])
        ensures
            r@ == self.spec_raw(),
    {
        self.data
    }

    /// Returns the *used* part of the buffer: the bytes the driver filled.
    pub fn bytes(&self) -> (r: &[u8])
        ensures
            r@ == self.spec_raw().subrange(0, self.spec_used() as int),
            self.spec_used() <= self.spec_raw().len(),
    {
        proof {
            use_type_invariant(self);
        }
        &self.data[0..self.bytesused]
    }

    /// Returns the number of bytes the driver filled.
    pub fn used_len(&self) -> (r: usize)
        ensures
            r == self.spec_used(),
            r <= self.spec_raw().len(),
    {
        proof {
            use_type_invariant(self);
        }
        self.bytesused
    }
}

/// Mutable view into an unqueued write buffer, valid for one enqueue callback.
pub struct WriteBufferView<'a> {
    data: &'a mut [u8],
}

impl<'a> WriteBufferView<'a> {
    /// The current contents of the buffer.
    pub closed spec fn spec_bytes(&self) -> Seq<u8> {
        self.data@
    }

    /// A view of the whole buffer `data`.
    pub fn new(data: &'a mut [u8]) -> (r: Self)
        ensures
            r.spec_bytes() == old(data)@,
    {
        WriteBufferView { data }
    }

    /// Size of the buffer in bytes.
    pub fn len(&self) -> (r: usize)
        ensures
            r == self.spec_bytes().len(),
    {
        self.data.len()
    }

    /// Returns the buffer for filling; the caller writes a complete frame into it.
    pub fn bytes_mut(&mut self) -> (r: &mut [u8])
        ensures
            r@ == old(self).spec_bytes(),
    {
        self.data
    }
}

/// A read cycle keeps the read stream's invariant: when every buffer is queued, dequeuing buffer
/// `index` leaves every buffer queued but the one in the callback, and re-enqueuing it makes
/// every buffer queued again, with the pool otherwise unchanged.
pub proof fn lemma_read_cycle(v: ReadStreamView, index: u32)
    requires
        v.wf(),
        !v.closed,
        v.in_flight is None,
        all_queued_except(v.buffers, None),
        index < v.buffers.len(),
    ensures
        v.dequeued(index).wf(),
        all_queued_except(v.dequeued(index).buffers, Some(index)),
        v.dequeued(index).buffers[index as int].state == BufState::Unqueued,
        v.dequeued(index).requeued(true).wf(),
        v.dequeued(index).requeued(true) == v,
        all_queued_except(v.dequeued(index).requeued(true).buffers, None),
{
    let d = v.dequeued(index);
    let e = d.requeued(true);
    assert(e.buffers =~= v.buffers);
}

/// The read stream after buffers `0..k` have been handed to the driver in turn.
pub open spec fn enqueued_upto(v: ReadStreamView, k: nat) -> ReadStreamView
    decreases k,
{
    if k == 0 {
        v
    } else {
        enqueued_upto(v, (k - 1) as nat).enqueued((k - 1) as u32)
    }
}

/// Setting a read stream up queues every buffer: starting from a fresh pool, enqueuing buffers
/// `0, 1, ...` in turn (the order in which `ReadStream::next_to_enqueue` names them) queues
/// exactly the buffers handed over so far, and after the last one every buffer is queued.
pub proof fn lemma_read_setup(v: ReadStreamView, k: nat)
    requires
        v.wf(),
        !v.closed,
        v.in_flight is None,
        all_unqueued(v.buffers),
        k <= v.buffers.len(),
    ensures
        enqueued_upto(v, k).wf(),
        enqueued_upto(v, k).buffers.len() == v.buffers.len(),
        forall|j: int|
            0 <= j < v.buffers.len() ==> #[trigger] enqueued_upto(v, k).buffers[j] == (Buffer {
                length: v.buffers[j].length,
                state: if j < k {
                    BufState::Queued
                } else {
                    BufState::Unqueued
                },
            }),
        k == v.buffers.len() ==> all_queued_except(enqueued_upto(v, k).buffers, None),
        enqueued_upto(v, k).in_flight is None,
        !enqueued_upto(v, k).closed,
    decreases k,
{
    if k > 0 {
        lemma_read_setup(v, (k - 1) as nat);
        let prev = enqueued_upto(v, (k - 1) as nat);
        let cur = enqueued_upto(v, k);
        assert(cur == prev.enqueued((k - 1) as u32));
        assert forall|j: int| 0 <= j < v.buffers.len() implies #[trigger] cur.buffers[j] == (Buffer {
            length: v.buffers[j].length,
            state: if j < k {
                BufState::Queued
            } else {
                BufState::Unqueued
            },
        }) by {
            assert(prev.buffers[j].length == v.buffers[j].length);
        }
    } else {
        assert forall|j: int| 0 <= j < v.buffers.len() implies #[trigger] enqueued_upto(
            v,
            k,
        ).buffers[j] == (Buffer { length: v.buffers[j].length, state: BufState::Unqueued }) by {
            assert(v.buffers[j].state == BufState::Unqueued);
        }
    }
    if k == v.buffers.len() {
        let b = enqueued_upto(v, k).buffers;
        assert forall|j: int| 0 <= j < b.len() implies #[trigger] b[j].state == BufState::Queued
            || None::<u32> == Some(j as u32) by {
            assert(b[j].state == BufState::Queued);
        }
    }
}

/// A failed re-enqueue leaves exactly the buffer that was in the callback unqueued, and nothing
/// in a callback.
pub proof fn lemma_read_requeue_failed(v: ReadStreamView, index: u32)
    requires
        v.wf(),
        !v.closed,
        v.in_flight is None,
        all_queued_except(v.buffers, None),
        index < v.buffers.len(),
    ensures
        v.dequeued(index).requeued(false).wf(),
        v.dequeued(index).requeued(false).in_flight is None,
        all_queued_except(v.dequeued(index).requeued(false).buffers, Some(index)),
        v.dequeued(index).requeued(false).buffers[index as int].state == BufState::Unqueued,
{
}

/// Shutting a read stream down twice is the same as shutting it down once.
pub proof fn lemma_read_close_idempotent(v: ReadStreamView)
    requires
        v.wf(),
    ensures
        v.closed().closed,
        v.closed().closed() == v.closed(),
        v.closed().wf(),
        all_unqueued(v.closed().buffers),
{
}

/// Shutting a write stream down twice is the same as shutting it down once.
pub proof fn lemma_write_close_idempotent(v: WriteStreamView)
    requires
        v.wf(),
    ensures
        v.closed().closed,
        v.closed().closed() == v.closed(),
        v.closed().wf(),
        all_unqueued(v.closed().buffers),
{
}

/// Before the first dequeue, every enqueue of a write stream fills the buffer at the cursor and
/// moves the cursor one buffer on; after the last buffer there is no cursor, and the next
/// enqueue must dequeue first.
pub proof fn lemma_write_fresh_enqueue(v: WriteStreamView, i: u32)
    requires
        v.wf(),
        !v.closed,
        !v.wrapped,
        v.cursor == Some(i),
    ensures
        v.enqueued(i).wf(),
        !v.enqueued(i).wrapped,
        v.enqueued(i).cursor == (if i + 1 < v.buffers.len() {
            Some((i + 1) as u32)
        } else {
            None::<u32>
        }),
{
    let b = set_state(v.buffers, i, BufState::Queued);
    lemma_first_unqueued_from(b, i + 1);
    if i + 1 < v.buffers.len() {
        assert(b[i + 1].state == BufState::Unqueued);
    }
    assert forall|j: int| 0 <= j < b.len() && j <= i implies #[trigger] b[j].state
        == BufState::Queued by {
        if j < i {
            assert(v.buffers[j].state == BufState::Queued);
        }
    }
}

} // verus!
