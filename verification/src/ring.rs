use vstd::prelude::*;
use crate::request::{Full, Empty, Request, Response};

verus! {

/// A mask that selects a slot in a ring of `mask + 1` entries: `mask + 1` is a
/// power of two between 1 and 2^15 inclusive.
pub open spec fn valid_mask(mask: u32) -> bool {
    ||| mask == 0x0
    ||| mask == 0x1
    ||| mask == 0x3
    ||| mask == 0x7
    ||| mask == 0xf
    ||| mask == 0x1f
    ||| mask == 0x3f
    ||| mask == 0x7f
    ||| mask == 0xff
    ||| mask == 0x1ff
    ||| mask == 0x3ff
    ||| mask == 0x7ff
    ||| mask == 0xfff
    ||| mask == 0x1fff
    ||| mask == 0x3fff
    ||| mask == 0x7fff
}

/// The index `k` places after `start`, wrapping around at 2^32.
pub open spec fn index_after(start: u32, k: int) -> u32 {
    if start + k > u32::MAX {
        (start + k - 0x1_0000_0000) as u32
    } else {
        (start + k) as u32
    }
}

/// How many entries lie between the read index and the write index.
pub open spec fn ring_len(read: u32, write: u32) -> nat {
    if read <= write {
        (write - read) as nat
    } else {
        (write + 0x1_0000_0000 - read) as nat
    }
}

/// The entries of a ring, oldest first: those from the read index up to the
/// write index, each in the slot that its index selects through the mask.
pub open spec fn ring_entries<E>(slots: Seq<E>, read: u32, write: u32, mask: u32) -> Seq<E> {
    Seq::new(ring_len(read, write), |k: int| slots[(index_after(read, k) & mask) as int])
}

proof fn lemma_mask_bound(i: u32, mask: u32)
    ensures
        i & mask <= mask,
{
    assert(i & mask <= mask) by (bit_vector);
}

/// Two indices less than a full ring apart select different slots.
proof fn lemma_slots_distinct(a: u32, b: u32, d: u32, mask: u32)
    requires
        valid_mask(mask),
        0 < d <= mask,
        b == index_after(a, d as int),
    ensures
        a & mask != b & mask,
{
    assert(a & mask != b & mask) by (bit_vector)
        requires
            mask == 0x0 || mask == 0x1 || mask == 0x3 || mask == 0x7 || mask == 0xf || mask == 0x1f
                || mask == 0x3f || mask == 0x7f || mask == 0xff || mask == 0x1ff || mask == 0x3ff
                || mask == 0x7ff || mask == 0xfff || mask == 0x1fff || mask == 0x3fff || mask == 0x7fff,
            0 < d && d <= mask,
            (a + d <= 0xffff_ffff && b == a + d) || (a + d > 0xffff_ffff && b == a + d - 0x1_0000_0000),
    ;
}

/// Put `entry` at the write index and advance it, unless the ring is full.
fn enqueue<E: Copy>(read: u32, write: &mut u32, slots: &mut Vec<E>, mask: u32, entry: E) -> (r: Result<(), Full>)
    requires
        valid_mask(mask),
        old(slots).len() == mask + 1,
        ring_len(read, *old(write)) <= mask + 1,
    ensures
        final(slots).len() == old(slots).len(),
        r is Ok <==> ring_len(read, *old(write)) < mask + 1,
        r is Ok ==> *final(write) == index_after(*old(write), 1),
        r is Ok ==> ring_entries(final(slots)@, read, *final(write), mask)
            == ring_entries(old(slots)@, read, *old(write), mask).push(entry),
        r is Err ==> *final(write) == *old(write) && final(slots)@ == old(slots)@,
{
    let w = *write;
    if read.wrapping_add(mask + 1) == w {
        return Err(Full);
    }
    proof {
        lemma_mask_bound(w, mask);
    }
    let ghost old_slots = slots@;
    let i = (w & mask) as usize;
    slots.set(i, entry);
    *write = w.wrapping_add(1);
    proof {
        let len = ring_len(read, w);
        let old_view = ring_entries(old_slots, read, w, mask);
        let new_view = ring_entries(slots@, read, index_after(w, 1), mask);
        assert(ring_len(read, index_after(w, 1)) == len + 1);
        assert(index_after(read, len as int) == w);
        assert forall|k: int| 0 <= k < len implies new_view[k] == old_view[k] by {
            let a = index_after(read, k);
            lemma_slots_distinct(a, w, (len - k) as u32, mask);
            lemma_mask_bound(a, mask);
        }
        assert(new_view =~= old_view.push(entry));
    }
    Ok(())
}

/// Take the entry at the read index and advance it, unless the ring is empty.
fn dequeue<E: Copy>(read: &mut u32, write: u32, slots: &Vec<E>, mask: u32) -> (r: Result<E, Empty>)
    requires
        valid_mask(mask),
        slots.len() == mask + 1,
        ring_len(*old(read), write) <= mask + 1,
    ensures
        r is Ok <==> ring_len(*old(read), write) > 0,
        r is Ok ==> *final(read) == index_after(*old(read), 1),
        r matches Ok(e) ==> e == ring_entries(slots@, *old(read), write, mask)[0],
        r is Ok ==> ring_entries(slots@, *final(read), write, mask)
            == ring_entries(slots@, *old(read), write, mask).drop_first(),
        r is Err ==> *final(read) == *old(read),
{
    let r = *read;
    if r == write {
        return Err(Empty);
    }
    proof {
        lemma_mask_bound(r, mask);
    }
    let e = slots[(r & mask) as usize];
    *read = r.wrapping_add(1);
    proof {
        let old_view = ring_entries(slots@, r, write, mask);
        let new_view = ring_entries(slots@, index_after(r, 1), write, mask);
        assert(index_after(r, 0) == r);
        assert(new_view.len() == old_view.len() - 1);
        assert forall|k: int| 0 <= k < new_view.len() implies new_view[k] == old_view[k + 1] by {
            assert(index_after(index_after(r, 1), k) == index_after(r, k + 1));
        }
        assert(new_view =~= old_view.drop_first());
    }
    Ok(e)
}


/// What a ring shows from outside: its two indices, how many slots it has, and
/// the entries it holds, oldest first.
///
/// In the request ring the user process writes at `user_index` and the kernel
/// reads at `kernel_index`; in the response ring the kernel writes at
/// `kernel_index` and the user process reads at `user_index`.
pub struct RingView<E> {
    pub user_index: u32,
    pub kernel_index: u32,
    pub capacity: nat,
    pub entries: Seq<E>,
}

/// A ring of `capacity` slots may hold between 1 and 2^15 entries, a power of two.
pub open spec fn valid_capacity(capacity: nat) -> bool {
    1 <= capacity <= 0x8000 && valid_mask((capacity - 1) as u32)
}

impl<E> RingView<E> {
    /// The ring is well formed: its capacity is valid and it holds no more entries than that.
    pub open spec fn wf(self) -> bool {
        valid_capacity(self.capacity) && self.entries.len() <= self.capacity
    }

    /// The ring after a successful enqueue at the user index.
    pub open spec fn pushed_by_user(self, e: E) -> Self {
        RingView { user_index: index_after(self.user_index, 1), entries: self.entries.push(e), ..self }
    }

    /// The ring after a successful dequeue at the kernel index.
    pub open spec fn popped_by_kernel(self) -> Self {
        RingView { kernel_index: index_after(self.kernel_index, 1), entries: self.entries.drop_first(), ..self }
    }

    /// The ring after a successful enqueue at the kernel index.
    pub open spec fn pushed_by_kernel(self, e: E) -> Self {
        RingView { kernel_index: index_after(self.kernel_index, 1), entries: self.entries.push(e), ..self }
    }

    /// The ring after a successful dequeue at the user index.
    pub open spec fn popped_by_user(self) -> Self {
        RingView { user_index: index_after(self.user_index, 1), entries: self.entries.drop_first(), ..self }
    }
}

/// First in, first out: a dequeue gives back the oldest entry, and an enqueue
/// at the other end leaves that unchanged, so entries come out in the order
/// they went in.
pub proof fn law_fifo<E>(v: RingView<E>, e: E)
    ensures
        v.entries.len() == 0 ==> v.pushed_by_user(e).entries[0] == e,
        v.entries.len() > 0 ==> v.pushed_by_user(e).entries[0] == v.entries[0],
        v.entries.len() == 0 ==> v.pushed_by_kernel(e).entries[0] == e,
        v.entries.len() > 0 ==> v.pushed_by_kernel(e).entries[0] == v.entries[0],
{
}

/// On a ring that holds entries, an enqueue and a dequeue commute; on an empty
/// ring, a dequeue right after an enqueue empties it again and leaves both
/// indices one further.
pub proof fn law_enqueue_dequeue<E>(v: RingView<E>, e: E)
    ensures
        v.entries.len() > 0 ==> v.pushed_by_user(e).popped_by_kernel()
            == v.popped_by_kernel().pushed_by_user(e),
        v.entries.len() > 0 ==> v.pushed_by_kernel(e).popped_by_user()
            == v.popped_by_user().pushed_by_kernel(e),
        v.entries.len() == 0 ==> v.pushed_by_user(e).popped_by_kernel().entries == v.entries,
        v.entries.len() == 0 ==> v.pushed_by_kernel(e).popped_by_user().entries == v.entries,
{
    assert(v.entries.len() > 0 ==> v.entries.push(e).drop_first() =~= v.entries.drop_first().push(e));
    assert(v.entries.len() == 0 ==> v.entries.push(e).drop_first() =~= v.entries);
}

/// An empty ring of `capacity` slots with both indices at `index`.
pub open spec fn empty_ring<E>(capacity: nat, index: u32) -> RingView<E> {
    RingView { user_index: index, kernel_index: index, capacity, entries: Seq::empty() }
}

/// What a wait on the kernel has just learned: the kernel index it read, or
/// the answer of the caller's closure.
#[derive(Clone, Copy, Debug, PartialEq, Eq, Structural)]
pub enum WaitEvent {
    Observed(u32),
    Answered(bool),
}

/// What a wait on the kernel does next: stop, ask the caller's closure (with
/// the given argument), or read the kernel index again.
#[derive(Debug, PartialEq, Eq, Structural)]
pub enum WaitAction<T> {
    Stop,
    Ask(T),
    Observe,
}

/// The next step of waiting for the kernel to process all requests queued up
/// to `user_index`: stop once the kernel index has caught up; else ask the
/// closure, giving it the number of requests still outstanding; keep waiting
/// while the closure answers `true` and stop once it answers `false`.
pub open spec fn wait_empty_step(user_index: u32, event: WaitEvent) -> WaitAction<u32> {
    match event {
        WaitEvent::Observed(k) => if user_index == k {
            WaitAction::Stop
        } else {
            WaitAction::Ask(vstd::wrapping::u32_specs::wrapping_sub(user_index, k))
        },
        WaitEvent::Answered(keep) => if keep {
            WaitAction::Observe
        } else {
            WaitAction::Stop
        },
    }
}

/// The next step of waiting for a response, the user having read up to
/// `user_index`: stop once the kernel index differs from it; else ask the
/// closure; keep waiting while the closure answers `true` and stop once it
/// answers `false`.
pub open spec fn wait_any_step(user_index: u32, event: WaitEvent) -> WaitAction<()> {
    match event {
        WaitEvent::Observed(k) => if user_index != k {
            WaitAction::Stop
        } else {
            WaitAction::Ask(())
        },
        WaitEvent::Answered(keep) => if keep {
            WaitAction::Observe
        } else {
            WaitAction::Stop
        },
    }
}

/// A wait for the requests to be processed stops at once when the kernel has
/// caught up; otherwise it asks the closure with the nonzero number of
/// outstanding requests, and stops on a `false` answer, reading the kernel
/// index again on a `true` one.
pub proof fn law_wait_empty(user_index: u32, kernel_index: u32)
    ensures
        user_index == kernel_index ==> wait_empty_step(user_index, WaitEvent::Observed(kernel_index))
            == WaitAction::<u32>::Stop,
        user_index != kernel_index ==> (wait_empty_step(user_index, WaitEvent::Observed(kernel_index))
            matches WaitAction::Ask(n) && n != 0 && n == ring_len(kernel_index, user_index)),
        wait_empty_step(user_index, WaitEvent::Answered(false)) == WaitAction::<u32>::Stop,
        wait_empty_step(user_index, WaitEvent::Answered(true)) == WaitAction::<u32>::Observe,
{
}

/// A wait for a response stops at once when one is there; otherwise it asks
/// the closure, and stops on a `false` answer, reading the kernel index again
/// on a `true` one.
pub proof fn law_wait_any(user_index: u32, kernel_index: u32)
    ensures
        user_index != kernel_index ==> wait_any_step(user_index, WaitEvent::Observed(kernel_index))
            == WaitAction::<()>::Stop,
        user_index == kernel_index ==> wait_any_step(user_index, WaitEvent::Observed(kernel_index))
            == WaitAction::Ask(()),
        wait_any_step(user_index, WaitEvent::Answered(false)) == WaitAction::<()>::Stop,
        wait_any_step(user_index, WaitEvent::Answered(true)) == WaitAction::<()>::Observe,
{
}


fn new_slots<E: Copy>(capacity: usize, fill: E) -> (v: Vec<E>)
    ensures
        v.len() == capacity,
{
    let mut v: Vec<E> = Vec::new();
    let mut i: usize = 0;
    while i < capacity
        invariant
            i <= capacity,
            v.len() == i,
        decreases capacity - i,
    {
        v.push(fill);
        i = i + 1;
    }
    v
}

/// A ring buffer of requests, written by the user process and read by the kernel.
pub struct RequestRing {
    user_index: u32,
    kernel_index: u32,
    slots: Vec<Request>,
}

impl View for RequestRing {
    type V = RingView<Request>;

    closed spec fn view(&self) -> RingView<Request> {
        RingView {
            user_index: self.user_index,
            kernel_index: self.kernel_index,
            capacity: self.slots.len() as nat,
            entries: ring_entries(self.slots@, self.kernel_index, self.user_index, (self.slots.len() - 1) as u32),
        }
    }
}

impl RequestRing {
    /// The ring's slots and indices are consistent.
    pub closed spec fn inv(&self) -> bool {
        valid_capacity(self.slots.len() as nat)
            && ring_len(self.kernel_index, self.user_index) <= self.slots.len()
    }

    /// An empty ring of `mask + 1` slots with both indices at 0.
    pub fn new(mask: u32) -> (r: Self)
        requires
            valid_mask(mask),
        ensures
            r.inv(),
            r@ == empty_ring::<Request>((mask + 1) as nat, 0),
    {
        Self::new_at(mask, 0)
    }

    /// An empty ring of `mask + 1` slots with both indices at `index`.
    pub fn new_at(mask: u32, index: u32) -> (r: Self)
        requires
            valid_mask(mask),
        ensures
            r.inv(),
            r@ == empty_ring::<Request>((mask + 1) as nat, index),
    {
        let slots = new_slots((mask + 1) as usize, Request::default());
        let r = RequestRing { user_index: index, kernel_index: index, slots };
        assert(r@.entries =~= Seq::<Request>::empty());
        r
    }

    /// The index of the last entry the user process has queued.
    pub fn user_index(&self) -> (r: u32)
        ensures
            r == self@.user_index,
    {
        self.user_index
    }

    /// The index of the last entry the kernel has read.
    pub fn kernel_index(&self) -> (r: u32)
        ensures
            r == self@.kernel_index,
    {
        self.kernel_index
    }

    /// A consistent ring is well formed, and holds the entries between its indices.
    pub proof fn lemma_wf(&self)
        requires
            self.inv(),
        ensures
            self@.wf(),
            self@.entries.len() == ring_len(self@.kernel_index, self@.user_index),
    {
    }

    /// Enqueue a request. Fails with `Full` when the ring has no free slot.
    pub fn enqueue(&mut self, mask: u32, request: Request) -> (r: Result<(), Full>)
        requires
            old(self).inv(),
            mask + 1 == old(self)@.capacity,
        ensures
            final(self).inv(),
            r is Ok <==> old(self)@.entries.len() < old(self)@.capacity,
            r is Ok ==> final(self)@ == old(self)@.pushed_by_user(request),
            r is Err ==> final(self)@ == old(self)@,
    {
        enqueue(self.kernel_index, &mut self.user_index, &mut self.slots, mask, request)
    }

    /// Dequeue a request. Fails with `Empty` when the ring holds none.
    pub fn dequeue(&mut self, mask: u32) -> (r: Result<Request, Empty>)
        requires
            old(self).inv(),
            mask + 1 == old(self)@.capacity,
        ensures
            final(self).inv(),
            r is Ok <==> old(self)@.entries.len() > 0,
            r matches Ok(e) ==> e == old(self)@.entries[0],
            r is Ok ==> final(self)@ == old(self)@.popped_by_kernel(),
            r is Err ==> final(self)@ == old(self)@,
    {
        dequeue(&mut self.kernel_index, self.user_index, &self.slots, mask)
    }

    /// The next step of waiting for the kernel to process all requests, this
    /// ring's user index being the one read when the wait began.
    pub fn wait_empty(&self, event: WaitEvent) -> (r: WaitAction<u32>)
        ensures
            r == wait_empty_step(self@.user_index, event),
    {
        match event {
            WaitEvent::Observed(k) => if self.user_index == k {
                WaitAction::Stop
            } else {
                WaitAction::Ask(self.user_index.wrapping_sub(k))
            },
            WaitEvent::Answered(keep) => if keep {
                WaitAction::Observe
            } else {
                WaitAction::Stop
            },
        }
    }
}

/// A ring buffer of responses, written by the kernel and read by the user process.
pub struct ResponseRing {
    user_index: u32,
    kernel_index: u32,
    slots: Vec<Response>,
}

impl View for ResponseRing {
    type V = RingView<Response>;

    closed spec fn view(&self) -> RingView<Response> {
        RingView {
            user_index: self.user_index,
            kernel_index: self.kernel_index,
            capacity: self.slots.len() as nat,
            entries: ring_entries(self.slots@, self.user_index, self.kernel_index, (self.slots.len() - 1) as u32),
        }
    }
}

impl ResponseRing {
    /// The ring's slots and indices are consistent.
    pub closed spec fn inv(&self) -> bool {
        valid_capacity(self.slots.len() as nat)
            && ring_len(self.user_index, self.kernel_index) <= self.slots.len()
    }

    /// An empty ring of `mask + 1` slots with both indices at 0.
    pub fn new(mask: u32) -> (r: Self)
        requires
            valid_mask(mask),
        ensures
            r.inv(),
            r@ == empty_ring::<Response>((mask + 1) as nat, 0),
    {
        Self::new_at(mask, 0)
    }

    /// An empty ring of `mask + 1` slots with both indices at `index`.
    pub fn new_at(mask: u32, index: u32) -> (r: Self)
        requires
            valid_mask(mask),
        ensures
            r.inv(),
            r@ == empty_ring::<Response>((mask + 1) as nat, index),
    {
        let slots = new_slots((mask + 1) as usize, Response::default());
        let r = ResponseRing { user_index: index, kernel_index: index, slots };
        assert(r@.entries =~= Seq::<Response>::empty());
        r
    }

    /// The index of the last entry the user process has read.
    pub fn user_index(&self) -> (r: u32)
        ensures
            r == self@.user_index,
    {
        self.user_index
    }

    /// The index of the last entry the kernel has queued.
    pub fn kernel_index(&self) -> (r: u32)
        ensures
            r == self@.kernel_index,
    {
        self.kernel_index
    }

    /// A consistent ring is well formed, and holds the entries between its indices.
    pub proof fn lemma_wf(&self)
        requires
            self.inv(),
        ensures
            self@.wf(),
            self@.entries.len() == ring_len(self@.user_index, self@.kernel_index),
    {
    }

    /// Enqueue a response. Fails with `Full` when the ring has no free slot.
    pub fn enqueue(&mut self, mask: u32, response: Response) -> (r: Result<(), Full>)
        requires
            old(self).inv(),
            mask + 1 == old(self)@.capacity,
        ensures
            final(self).inv(),
            r is Ok <==> old(self)@.entries.len() < old(self)@.capacity,
            r is Ok ==> final(self)@ == old(self)@.pushed_by_kernel(response),
            r is Err ==> final(self)@ == old(self)@,
    {
        enqueue(self.user_index, &mut self.kernel_index, &mut self.slots, mask, response)
    }

    /// Dequeue a response. Fails with `Empty` when the ring holds none.
    pub fn dequeue(&mut self, mask: u32) -> (r: Result<Response, Empty>)
        requires
            old(self).inv(),
            mask + 1 == old(self)@.capacity,
        ensures
            final(self).inv(),
            r is Ok <==> old(self)@.entries.len() > 0,
            r matches Ok(e) ==> e == old(self)@.entries[0],
            r is Ok ==> final(self)@ == old(self)@.popped_by_user(),
            r is Err ==> final(self)@ == old(self)@,
    {
        dequeue(&mut self.user_index, self.kernel_index, &self.slots, mask)
    }

    /// The next step of waiting for a response, this ring's user index being
    /// the one read when the wait began.
    pub fn wait_any(&self, event: WaitEvent) -> (r: WaitAction<()>)
        ensures
            r == wait_any_step(self@.user_index, event),
    {
        match event {
            WaitEvent::Observed(k) => if self.user_index != k {
                WaitAction::Stop
            } else {
                WaitAction::Ask(())
            },
            WaitEvent::Answered(keep) => if keep {
                WaitAction::Observe
            } else {
                WaitAction::Stop
            },
        }
    }
}


/// Bytes taken by the two 32-bit indices that precede a ring's entries in shared memory.
pub const RING_HEADER_SIZE: usize = 8;

/// Bytes taken by one request in shared memory.
pub const REQUEST_SIZE: usize = 32;

/// Bytes taken by one response in shared memory.
pub const RESPONSE_SIZE: usize = 16;

/// Bytes of shared memory taken by a request ring of `mask + 1` entries.
pub open spec fn request_ring_bytes(mask: u32) -> int {
    RING_HEADER_SIZE + (mask + 1) * REQUEST_SIZE
}

/// Bytes of shared memory taken by a response ring of `mask + 1` entries.
pub open spec fn response_ring_bytes(mask: u32) -> int {
    RING_HEADER_SIZE + (mask + 1) * RESPONSE_SIZE
}

/// Bytes of shared memory taken by a queue: its request ring, then its response ring.
pub open spec fn total_bytes(requests_mask: u32, responses_mask: u32) -> int {
    request_ring_bytes(requests_mask) + response_ring_bytes(responses_mask)
}

/// What a queue shows from outside: where its shared region starts, the masks
/// of its two rings, and the rings themselves.
pub struct QueueView {
    pub base: u64,
    pub requests_mask: u32,
    pub responses_mask: u32,
    pub requests: RingView<Request>,
    pub responses: RingView<Response>,
}

impl QueueView {
    /// Where the request ring lies: at the start of the shared region.
    pub open spec fn request_ring_addr(self) -> int {
        self.base as int
    }

    /// Where the response ring lies: right after the request ring.
    pub open spec fn response_ring_addr(self) -> int {
        self.base + request_ring_bytes(self.requests_mask)
    }

    /// Where the request slot selected by `index` lies.
    pub open spec fn request_slot_addr(self, index: u32) -> int {
        self.request_ring_addr() + RING_HEADER_SIZE + (index & self.requests_mask) * REQUEST_SIZE
    }

    /// Where the response slot selected by `index` lies.
    pub open spec fn response_slot_addr(self, index: u32) -> int {
        self.response_ring_addr() + RING_HEADER_SIZE + (index & self.responses_mask) * RESPONSE_SIZE
    }
}

/// The two rings of a queue lie one after the other in its shared region of
/// `total_bytes`: the request ring from the base, the response ring right
/// after it up to the end of the region, so they do not overlap; every slot
/// lies inside its ring, after the ring's header.
pub proof fn law_queue_layout(q: QueueView, index: u32)
    requires
        valid_mask(q.requests_mask),
        valid_mask(q.responses_mask),
    ensures
        q.request_ring_addr() + request_ring_bytes(q.requests_mask) == q.response_ring_addr(),
        q.response_ring_addr() + response_ring_bytes(q.responses_mask) == q.base + total_bytes(q.requests_mask, q.responses_mask),
        request_ring_bytes(q.requests_mask) > 0 && response_ring_bytes(q.responses_mask) > 0,
        q.request_ring_addr() + RING_HEADER_SIZE <= q.request_slot_addr(index),
        q.request_slot_addr(index) + REQUEST_SIZE <= q.response_ring_addr(),
        q.response_ring_addr() + RING_HEADER_SIZE <= q.response_slot_addr(index),
        q.response_slot_addr(index) + RESPONSE_SIZE <= q.base + total_bytes(q.requests_mask, q.responses_mask),
{
    lemma_mask_bound(index, q.requests_mask);
    lemma_mask_bound(index, q.responses_mask);
    let a = index & q.requests_mask;
    let b = index & q.responses_mask;
    assert(a * REQUEST_SIZE + REQUEST_SIZE <= (q.requests_mask + 1) * REQUEST_SIZE) by (nonlinear_arith)
        requires
            a <= q.requests_mask,
    ;
    assert(b * RESPONSE_SIZE + RESPONSE_SIZE <= (q.responses_mask + 1) * RESPONSE_SIZE) by (nonlinear_arith)
        requires
            b <= q.responses_mask,
    ;
}

/// The slot after index `i` is the next slot, or the first one after the last.
proof fn lemma_next_slot(i: u32, mask: u32)
    requires
        valid_mask(mask),
    ensures
        (i & mask) < mask ==> (index_after(i, 1) & mask) == (i & mask) + 1,
        (i & mask) == mask ==> (index_after(i, 1) & mask) == 0,
{
    let j = index_after(i, 1);
    assert((i & mask) < mask ==> (j & mask) == (i & mask) + 1) by (bit_vector)
        requires
            mask == 0x0 || mask == 0x1 || mask == 0x3 || mask == 0x7 || mask == 0xf || mask == 0x1f
                || mask == 0x3f || mask == 0x7f || mask == 0xff || mask == 0x1ff || mask == 0x3ff
                || mask == 0x7ff || mask == 0xfff || mask == 0x1fff || mask == 0x3fff || mask == 0x7fff,
            (i < 0xffff_ffff && j == i + 1) || (i == 0xffff_ffff && j == 0),
    ;
    assert((i & mask) == mask ==> (j & mask) == 0) by (bit_vector)
        requires
            mask == 0x0 || mask == 0x1 || mask == 0x3 || mask == 0x7 || mask == 0xf || mask == 0x1f
                || mask == 0x3f || mask == 0x7f || mask == 0xff || mask == 0x1ff || mask == 0x3ff
                || mask == 0x7ff || mask == 0xfff || mask == 0x1fff || mask == 0x3fff || mask == 0x7fff,
            (i < 0xffff_ffff && j == i + 1) || (i == 0xffff_ffff && j == 0),
    ;
}

/// The slots of a ring's entries in shared memory: indices less than a full
/// ring apart have different slots, so a ring's entries never overwrite one
/// another; the slot after an index is the next one in memory, or the first
/// one after the last, so each index of a run lands in its own slot in order.
pub proof fn law_slot_addresses(q: QueueView, i: u32, d: u32)
    requires
        valid_mask(q.requests_mask),
        valid_mask(q.responses_mask),
    ensures
        0 < d <= q.requests_mask ==> q.request_slot_addr(i) != q.request_slot_addr(index_after(i, d as int)),
        0 < d <= q.responses_mask ==> q.response_slot_addr(i) != q.response_slot_addr(index_after(i, d as int)),
        q.request_slot_addr(i) + REQUEST_SIZE < q.response_ring_addr() ==> q.request_slot_addr(index_after(i, 1))
            == q.request_slot_addr(i) + REQUEST_SIZE,
        q.request_slot_addr(i) + REQUEST_SIZE == q.response_ring_addr() ==> q.request_slot_addr(index_after(i, 1))
            == q.request_ring_addr() + RING_HEADER_SIZE,
        q.response_slot_addr(i) + RESPONSE_SIZE < q.base + total_bytes(q.requests_mask, q.responses_mask)
            ==> q.response_slot_addr(index_after(i, 1)) == q.response_slot_addr(i) + RESPONSE_SIZE,
        q.response_slot_addr(i) + RESPONSE_SIZE == q.base + total_bytes(q.requests_mask, q.responses_mask)
            ==> q.response_slot_addr(index_after(i, 1)) == q.response_ring_addr() + RING_HEADER_SIZE,
{
    if 0 < d <= q.requests_mask {
        lemma_slots_distinct(i, index_after(i, d as int), d, q.requests_mask);
    }
    if 0 < d <= q.responses_mask {
        lemma_slots_distinct(i, index_after(i, d as int), d, q.responses_mask);
    }
    lemma_next_slot(i, q.requests_mask);
    lemma_next_slot(i, q.responses_mask);
    lemma_mask_bound(i, q.requests_mask);
    lemma_mask_bound(i, q.responses_mask);
    let a = (i & q.requests_mask) as int;
    let b = (i & q.responses_mask) as int;
    assert(a < q.requests_mask ==> a * REQUEST_SIZE + REQUEST_SIZE < (q.requests_mask + 1) * REQUEST_SIZE) by (nonlinear_arith);
    assert(a == q.requests_mask ==> a * REQUEST_SIZE + REQUEST_SIZE == (q.requests_mask + 1) * REQUEST_SIZE) by (nonlinear_arith);
    assert(b < q.responses_mask ==> b * RESPONSE_SIZE + RESPONSE_SIZE < (q.responses_mask + 1) * RESPONSE_SIZE) by (nonlinear_arith);
    assert(b == q.responses_mask ==> b * RESPONSE_SIZE + RESPONSE_SIZE == (q.responses_mask + 1) * RESPONSE_SIZE) by (nonlinear_arith);
}

/// The request ring and the response ring that a process shares with the
/// kernel, in a region of shared memory starting at `base`: the request ring
/// first, the response ring right after it.
pub struct Queue {
    base: u64,
    requests: RequestRing,
    responses: ResponseRing,
    requests_mask: u32,
    responses_mask: u32,
}

impl View for Queue {
    type V = QueueView;

    closed spec fn view(&self) -> QueueView {
        QueueView {
            base: self.base,
            requests_mask: self.requests_mask,
            responses_mask: self.responses_mask,
            requests: self.requests@,
            responses: self.responses@,
        }
    }
}

impl Queue {
    /// Both rings are consistent, the masks match their capacities, and the
    /// shared region fits in the address space.
    pub closed spec fn inv(&self) -> bool {
        &&& self.requests.inv()
        &&& self.responses.inv()
        &&& self.requests_mask + 1 == self.requests@.capacity
        &&& self.responses_mask + 1 == self.responses@.capacity
        &&& self.base + total_bytes(self.requests_mask, self.responses_mask) <= u64::MAX
    }

    /// A consistent queue has two well-formed rings with valid masks, in a
    /// region that fits in the address space.
    pub proof fn lemma_wf(&self)
        requires
            self.inv(),
        ensures
            self@.requests.wf(),
            self@.responses.wf(),
            valid_mask(self@.requests_mask),
            valid_mask(self@.responses_mask),
            self@.requests_mask + 1 == self@.requests.capacity,
            self@.responses_mask + 1 == self@.responses.capacity,
            self@.base + total_bytes(self@.requests_mask, self@.responses_mask) <= u64::MAX,
            self@.requests.entries.len() == ring_len(self@.requests.kernel_index, self@.requests.user_index),
            self@.responses.entries.len() == ring_len(self@.responses.user_index, self@.responses.kernel_index),
    {
        self.requests.lemma_wf();
        self.responses.lemma_wf();
    }

    /// A queue of two empty rings of `requests_mask + 1` and `responses_mask + 1`
    /// entries, in the shared region starting at `base`.
    pub fn new(base: u64, requests_mask: u32, responses_mask: u32) -> (r: Self)
        requires
            valid_mask(requests_mask),
            valid_mask(responses_mask),
            base + total_bytes(requests_mask, responses_mask) <= u64::MAX,
        ensures
            r.inv(),
            r@.base == base,
            r@.requests_mask == requests_mask,
            r@.responses_mask == responses_mask,
            r@.requests == empty_ring::<Request>((requests_mask + 1) as nat, 0),
            r@.responses == empty_ring::<Response>((responses_mask + 1) as nat, 0),
    {
        Queue {
            base,
            requests: RequestRing::new(requests_mask),
            responses: ResponseRing::new(responses_mask),
            requests_mask,
            responses_mask,
        }
    }

    /// Where the shared region starts.
    pub fn base(&self) -> (r: u64)
        ensures
            r == self@.base,
    {
        self.base
    }

    /// The mask of the request ring: one less than its number of slots.
    pub fn requests_mask(&self) -> (r: u32)
        ensures
            r == self@.requests_mask,
    {
        self.requests_mask
    }

    /// The mask of the response ring: one less than its number of slots.
    pub fn responses_mask(&self) -> (r: u32)
        ensures
            r == self@.responses_mask,
    {
        self.responses_mask
    }

    /// Bytes of shared memory taken by a request ring of `mask + 1` entries.
    pub fn request_ring_size(mask: u32) -> (r: usize)
        requires
            mask < u32::MAX,
            request_ring_bytes(mask) <= usize::MAX,
        ensures
            r == request_ring_bytes(mask),
    {
        RING_HEADER_SIZE + (mask + 1) as usize * REQUEST_SIZE
    }

    /// Bytes of shared memory taken by a response ring of `mask + 1` entries.
    pub fn response_ring_size(mask: u32) -> (r: usize)
        requires
            mask < u32::MAX,
            response_ring_bytes(mask) <= usize::MAX,
        ensures
            r == response_ring_bytes(mask),
    {
        RING_HEADER_SIZE + (mask + 1) as usize * RESPONSE_SIZE
    }

    /// Bytes of shared memory taken by a queue: the request ring, then the response ring.
    pub fn total_size(req_mask: u32, resp_mask: u32) -> (r: usize)
        requires
            req_mask < u32::MAX,
            resp_mask < u32::MAX,
            total_bytes(req_mask, resp_mask) <= usize::MAX,
        ensures
            r == total_bytes(req_mask, resp_mask),
    {
        Self::request_ring_size(req_mask) + Self::response_ring_size(resp_mask)
    }

    /// The request ring.
    pub fn request_ring(&self) -> (r: &RequestRing)
        requires
            self.inv(),
        ensures
            r.inv(),
            r@ == self@.requests,
    {
        &self.requests
    }

    /// The response ring; in shared memory it lies at `response_ring_addr`.
    pub fn response_ring(&self) -> (r: &ResponseRing)
        requires
            self.inv(),
        ensures
            r.inv(),
            r@ == self@.responses,
    {
        &self.responses
    }

    /// The address of the request ring: the start of the shared region.
    pub fn request_ring_addr(&self) -> (r: u64)
        ensures
            r == self@.request_ring_addr(),
    {
        self.base
    }

    /// The address of the response ring: right after the request ring.
    pub fn response_ring_addr(&self) -> (r: u64)
        requires
            self.inv(),
        ensures
            r == self@.response_ring_addr(),
    {
        proof {
            self.lemma_wf();
        }
        self.base + RING_HEADER_SIZE as u64 + (self.requests_mask as u64 + 1) * REQUEST_SIZE as u64
    }

    /// The address of the request slot that `index` selects.
    pub fn request_slot_addr(&self, index: u32) -> (r: u64)
        requires
            self.inv(),
        ensures
            r == self@.request_slot_addr(index),
    {
        proof {
            self.lemma_wf();
            law_queue_layout(self@, index);
        }
        self.base + RING_HEADER_SIZE as u64 + (index & self.requests_mask) as u64 * REQUEST_SIZE as u64
    }

    /// The address of the response slot that `index` selects.
    pub fn response_slot_addr(&self, index: u32) -> (r: u64)
        requires
            self.inv(),
        ensures
            r == self@.response_slot_addr(index),
    {
        proof {
            self.lemma_wf();
            law_queue_layout(self@, index);
        }
        let ring = self.response_ring_addr();
        ring + RING_HEADER_SIZE as u64 + (index & self.responses_mask) as u64 * RESPONSE_SIZE as u64
    }

    /// Enqueue a request. Fails with `Full` when the request ring has no free slot.
    pub fn enqueue_request(&mut self, request: Request) -> (r: Result<(), Full>)
        requires
            old(self).inv(),
        ensures
            final(self).inv(),
            final(self)@ == (QueueView { requests: final(self)@.requests, ..old(self)@ }),
            r is Ok <==> old(self)@.requests.entries.len() < old(self)@.requests.capacity,
            r is Ok ==> final(self)@.requests == old(self)@.requests.pushed_by_user(request),
            r is Err ==> final(self)@ == old(self)@,
    {
        let mask = self.requests_mask;
        self.requests.enqueue(mask, request)
    }

    /// Dequeue a request. Fails with `Empty` when the request ring holds none.
    pub fn dequeue_request(&mut self) -> (r: Result<Request, Empty>)
        requires
            old(self).inv(),
        ensures
            final(self).inv(),
            final(self)@ == (QueueView { requests: final(self)@.requests, ..old(self)@ }),
            r is Ok <==> old(self)@.requests.entries.len() > 0,
            r matches Ok(e) ==> e == old(self)@.requests.entries[0],
            r is Ok ==> final(self)@.requests == old(self)@.requests.popped_by_kernel(),
            r is Err ==> final(self)@ == old(self)@,
    {
        let mask = self.requests_mask;
        self.requests.dequeue(mask)
    }

    /// Enqueue a response. Fails with `Full` when the response ring has no free slot.
    pub fn enqueue_response(&mut self, response: Response) -> (r: Result<(), Full>)
        requires
            old(self).inv(),
        ensures
            final(self).inv(),
            final(self)@ == (QueueView { responses: final(self)@.responses, ..old(self)@ }),
            r is Ok <==> old(self)@.responses.entries.len() < old(self)@.responses.capacity,
            r is Ok ==> final(self)@.responses == old(self)@.responses.pushed_by_kernel(response),
            r is Err ==> final(self)@ == old(self)@,
    {
        let mask = self.responses_mask;
        self.responses.enqueue(mask, response)
    }

    /// Dequeue a response. Fails with `Empty` when the response ring holds none.
    pub fn dequeue_response(&mut self) -> (r: Result<Response, Empty>)
        requires
            old(self).inv(),
        ensures
            final(self).inv(),
            final(self)@ == (QueueView { responses: final(self)@.responses, ..old(self)@ }),
            r is Ok <==> old(self)@.responses.entries.len() > 0,
            r matches Ok(e) ==> e == old(self)@.responses.entries[0],
            r is Ok ==> final(self)@.responses == old(self)@.responses.popped_by_user(),
            r is Err ==> final(self)@ == old(self)@,
    {
        let mask = self.responses_mask;
        self.responses.dequeue(mask)
    }

    /// The next step of waiting for the kernel to process all requests; see
    /// `RequestRing::wait_empty`.
    pub fn wait_requests_empty(&self, event: WaitEvent) -> (r: WaitAction<u32>)
        ensures
            r == wait_empty_step(self@.requests.user_index, event),
    {
        self.requests.wait_empty(event)
    }

    /// The next step of waiting for a response; see `ResponseRing::wait_any`.
    pub fn wait_response_any(&self, event: WaitEvent) -> (r: WaitAction<()>)
        ensures
            r == wait_any_step(self@.responses.user_index, event),
    {
        self.responses.wait_any(event)
    }

    /// How many responses are in the queue.
    pub fn responses_available(&self) -> (r: u32)
        requires
            self.inv(),
        ensures
            r == self@.responses.entries.len(),
            r == vstd::wrapping::u32_specs::wrapping_sub(self@.responses.kernel_index, self@.responses.user_index),
    {
        proof {
            self.responses.lemma_wf();
        }
        let ring = &self.responses;
        ring.kernel_index().wrapping_sub(ring.user_index())
    }
}

} // verus!
