//! Fixed-capacity single-producer/single-consumer ring buffer.
//!
//! The buffer owns an arena of `CAPACITY` slots (`CAPACITY` a power of two)
//! and two monotonically increasing 64-bit cursors that wrap modulo `2^64`:
//! `head`, the next slot to consume, and `tail`, the next slot to produce.
//! Slot indices are the cursors masked by `CAPACITY - 1`, and the buffer
//! tolerates an effective capacity of `CAPACITY - 1` usable slots so that
//! "full" and "empty" can be told apart with the two cursors alone.
//!
//! The model here is the functional core of the queue: `push` and `pop` take
//! the buffer exclusively, which is what the cursor protocol of the concurrent
//! deployment enforces slot by slot (each side owns its cursor; publication of
//! a cursor update hands a slot over to the other side). A push on a full
//! buffer and a pop on an empty one are expected steady-state outcomes,
//! signalled by the return value, never failures.

use vstd::prelude::*;

verus! {

/// Lock-free in its concurrent deployment: exactly one producer may call
/// `push` and exactly one consumer may call `pop`.
pub struct LockFreeSPSC<T, const CAPACITY: usize> {
    buffer: Vec<Option<T>>,
    head: u64,
    tail: u64,
}

impl<T, const CAPACITY: usize> LockFreeSPSC<T, CAPACITY> {
    /// The structural precondition of the whole design: a power-of-two
    /// capacity, so that masking by `CAPACITY - 1` reduces a cursor to its
    /// slot index.
    pub open spec fn capacity_is_power_of_two() -> bool {
        CAPACITY > 0 && ((CAPACITY as u64) & (((CAPACITY as u64) - 1) as u64)) == 0
    }

    spec fn mask_spec() -> u64 {
        ((CAPACITY as u64) - 1) as u64
    }

    /// Logical occupancy: `(tail - head)` modulo `2^64`.
    spec fn occupancy(self) -> int {
        if self.tail >= self.head {
            self.tail - self.head
        } else {
            self.tail - self.head + 0x1_0000_0000_0000_0000
        }
    }

    /// Slot index of the `i`-th queued record, counted from the consumer end.
    spec fn slot_of(self, i: int) -> int {
        ((((self.head + i) as u64) & Self::mask_spec()) as int)
    }

    /// Internal well-formedness: the arena has exactly `CAPACITY` slots, at
    /// most `CAPACITY - 1` of them are occupied, and every occupied slot
    /// holds a published record.
    pub closed spec fn wf(self) -> bool {
        &&& Self::capacity_is_power_of_two()
        &&& self.buffer@.len() == CAPACITY
        &&& 0 <= self.occupancy() <= CAPACITY - 1
        &&& forall|i: int|
            0 <= i < self.occupancy() ==> (#[trigger] self.buffer@[self.slot_of(i)]) is Some
    }
}

impl<T, const CAPACITY: usize> View for LockFreeSPSC<T, CAPACITY> {
    type V = Seq<T>;

    /// The queued records in consumption order: oldest first.
    closed spec fn view(&self) -> Seq<T> {
        Seq::new(self.occupancy() as nat, |i: int| self.buffer@[self.slot_of(i)]->Some_0)
    }
}

/// A masked value is a valid slot index.
proof fn lemma_masked_below_capacity(x: u64, m: u64, c: u64)
    by (bit_vector)
    requires
        m + 1 == c,
    ensures
        (x & m) < c,
{
}

/// A value at most the mask is left unchanged by it.
proof fn lemma_small_value_masked(x: u64, m: u64, c: u64)
    by (bit_vector)
    requires
        m + 1 == c,
        c & m == 0,
        x <= m,
    ensures
        x & m == x,
{
}

/// The producer's full test: with occupancy `d` at most `CAPACITY - 1`, the
/// slot of the incremented tail equals the slot of the head exactly when the
/// buffer already holds its `CAPACITY - 1` usable records.
proof fn lemma_full_check(h: u64, t: u64, nt: u64, d: u64, m: u64, c: u64)
    by (bit_vector)
    requires
        m + 1 == c,
        c & m == 0,
        t >= h ==> d == t - h,
        t < h ==> d == t - h + 0x1_0000_0000_0000_0000,
        d <= m,
        t < 0xffff_ffff_ffff_ffff ==> nt == t + 1,
        t == 0xffff_ffff_ffff_ffff ==> nt == 0,
    ensures
        ((nt & m) == (h & m)) <==> (d == m),
{
}

/// No occupied slot coincides with the tail slot, so writing the tail slot
/// leaves every queued record in place.
proof fn lemma_live_slot_avoids_tail(h: u64, t: u64, i: u64, d: u64, m: u64, c: u64)
    by (bit_vector)
    requires
        m + 1 == c,
        c & m == 0,
        t >= h ==> d == t - h,
        t < h ==> d == t - h + 0x1_0000_0000_0000_0000,
        d <= m,
        i < d,
    ensures
        (((h + i) as u64) & m) != (t & m),
{
}

/// The slot `d` places past the head is the tail slot.
proof fn lemma_tail_slot(h: u64, t: u64, d: u64, m: u64)
    by (bit_vector)
    requires
        t >= h ==> d == t - h,
        t < h ==> d == t - h + 0x1_0000_0000_0000_0000,
    ensures
        (((h + d) as u64) & m) == (t & m),
{
}

/// Advancing the head by one shifts every slot position by one, across the
/// cursor wrap-around.
proof fn lemma_slot_shift(h: u64, h2: u64, i: u64, m: u64)
    by (bit_vector)
    requires
        h < 0xffff_ffff_ffff_ffff ==> h2 == h + 1,
        h == 0xffff_ffff_ffff_ffff ==> h2 == 0,
    ensures
        (((h2 + i) as u64) & m) == (((h + i + 1) as u64) & m),
{
}

impl<T: Copy, const CAPACITY: usize> LockFreeSPSC<T, CAPACITY> {
    /// Constructs an empty buffer over an arena of unoccupied slots.
    /// A non-power-of-two capacity is a programming error, rejected here,
    /// never silently rounded.
    pub fn new() -> (r: Self)
        requires
            Self::capacity_is_power_of_two(),
        ensures
            r.wf(),
            r@ == Seq::<T>::empty(),
    {
        let mut buffer: Vec<Option<T>> = Vec::new();
        let mut i: usize = 0;
        while i < CAPACITY
            invariant
                i <= CAPACITY,
                buffer@.len() == i,
            decreases CAPACITY - i,
        {
            buffer.push(None);
            i += 1;
        }
        let r = LockFreeSPSC { buffer, head: 0u64, tail: 0u64 };
        proof {
            assert(r.occupancy() == 0);
            assert(r@ =~= Seq::<T>::empty());
        }
        r
    }

    /// Producer side: queues `item`, or reports `false` on a full buffer.
    /// Exactly the first `CAPACITY - 1` slots are usable.
    pub fn push(&mut self, item: T) -> (success: bool)
        requires
            old(self).wf(),
        ensures
            final(self).wf(),
            old(self)@.len() < CAPACITY - 1 ==> success
                && final(self)@ == old(self)@.push(item),
            old(self)@.len() >= CAPACITY - 1 ==> !success
                && final(self)@ == old(self)@,
    {
        let mask: u64 = (CAPACITY as u64) - 1;
        let current_tail = self.tail;
        let next_tail = current_tail.wrapping_add(1);

        proof {
            lemma_full_check(
                self.head,
                current_tail,
                next_tail,
                self.occupancy() as u64,
                mask,
                CAPACITY as u64,
            );
        }
        if (next_tail & mask) == (self.head & mask) {
            return false;
        }

        let idx: usize = (current_tail & mask) as usize;
        proof {
            lemma_masked_below_capacity(current_tail, mask, CAPACITY as u64);
            lemma_tail_slot(self.head, current_tail, self.occupancy() as u64, mask);
        }
        self.buffer[idx] = Some(item);
        self.tail = next_tail;

        proof {
            let prev = *old(self);
            let d = prev.occupancy();
            assert(self.occupancy() == d + 1);
            assert forall|i: int| 0 <= i < d implies self.buffer@[#[trigger] self.slot_of(i)]
                == prev.buffer@[prev.slot_of(i)] by {
                lemma_live_slot_avoids_tail(
                    prev.head,
                    prev.tail,
                    i as u64,
                    d as u64,
                    mask,
                    CAPACITY as u64,
                );
                lemma_masked_below_capacity((prev.head + i) as u64, mask, CAPACITY as u64);
            }
            assert(self.buffer@[self.slot_of(d)] == Some(item));
            assert(self@ =~= prev@.push(item));
        }
        true
    }

    /// Consumer side: takes the oldest record, or reports `None` on an empty
    /// buffer.
    pub fn pop(&mut self) -> (r: Option<T>)
        requires
            old(self).wf(),
        ensures
            final(self).wf(),
            old(self)@.len() == 0 ==> r is None && final(self)@ == old(self)@,
            old(self)@.len() > 0 ==> r == Some(old(self)@[0])
                && final(self)@ == old(self)@.drop_first(),
    {
        let current_head = self.head;
        if current_head == self.tail {
            return None;
        }

        let mask: u64 = (CAPACITY as u64) - 1;
        let idx: usize = (current_head & mask) as usize;
        proof {
            lemma_masked_below_capacity(current_head, mask, CAPACITY as u64);
            assert(self.slot_of(0) == idx as int);
        }
        let item = self.buffer[idx];
        self.head = current_head.wrapping_add(1);

        proof {
            let prev = *old(self);
            let d = prev.occupancy();
            assert(self.occupancy() == d - 1);
            assert forall|i: int| 0 <= i < d - 1 implies #[trigger] self.slot_of(i)
                == prev.slot_of(i + 1) by {
                lemma_slot_shift(prev.head, self.head, i as u64, mask);
            }
            assert(self@ =~= prev@.drop_first());
        }
        item
    }

    /// A well-formed buffer never holds more than its `CAPACITY - 1` usable
    /// records.
    pub proof fn lemma_occupancy_bound(&self)
        requires
            self.wf(),
        ensures
            self@.len() <= CAPACITY - 1,
    {
    }

    /// Diagnostic observer: in the concurrent deployment its result may be
    /// stale against the other side's activity, by design.
    pub fn is_empty(&self) -> (r: bool)
        requires
            self.wf(),
        ensures
            r == (self@.len() == 0),
    {
        self.head == self.tail
    }

    /// Diagnostic observer: current occupancy, exact between operations and
    /// possibly stale against concurrent activity of the other side.
    pub fn size(&self) -> (r: usize)
        requires
            self.wf(),
        ensures
            r == self@.len(),
    {
        let mask: u64 = (CAPACITY as u64) - 1;
        let gap = self.tail.wrapping_sub(self.head);
        proof {
            lemma_small_value_masked(gap, mask, CAPACITY as u64);
        }
        ((gap & mask) as usize)
    }
}

/// One operation of the queue discipline: a producer push carrying a record,
/// or a consumer pop.
pub enum QueueOp<T> {
    Push(T),
    Pop,
}

/// The queue contents after applying `ops` in order to a queue holding `q`,
/// under the same discipline as `push` and `pop`: a push is accepted only
/// below `capacity - 1` records, a pop only on a non-empty queue, and a
/// refused operation changes nothing.
pub open spec fn apply_ops<T>(q: Seq<T>, ops: Seq<QueueOp<T>>, capacity: int) -> Seq<T>
    decreases ops.len(),
{
    if ops.len() == 0 {
        q
    } else {
        match ops[0] {
            QueueOp::Push(x) => if q.len() < capacity - 1 {
                apply_ops(q.push(x), ops.drop_first(), capacity)
            } else {
                apply_ops(q, ops.drop_first(), capacity)
            },
            QueueOp::Pop => if q.len() > 0 {
                apply_ops(q.drop_first(), ops.drop_first(), capacity)
            } else {
                apply_ops(q, ops.drop_first(), capacity)
            },
        }
    }
}

/// The values returned by the successful pops among `ops`, in order.
pub open spec fn popped_values<T>(q: Seq<T>, ops: Seq<QueueOp<T>>, capacity: int) -> Seq<T>
    decreases ops.len(),
{
    if ops.len() == 0 {
        Seq::empty()
    } else {
        match ops[0] {
            QueueOp::Push(x) => if q.len() < capacity - 1 {
                popped_values(q.push(x), ops.drop_first(), capacity)
            } else {
                popped_values(q, ops.drop_first(), capacity)
            },
            QueueOp::Pop => if q.len() > 0 {
                seq![q[0]] + popped_values(q.drop_first(), ops.drop_first(), capacity)
            } else {
                popped_values(q, ops.drop_first(), capacity)
            },
        }
    }
}

/// The values carried by the successful pushes among `ops`, in order.
pub open spec fn accepted_values<T>(q: Seq<T>, ops: Seq<QueueOp<T>>, capacity: int) -> Seq<T>
    decreases ops.len(),
{
    if ops.len() == 0 {
        Seq::empty()
    } else {
        match ops[0] {
            QueueOp::Push(x) => if q.len() < capacity - 1 {
                seq![x] + accepted_values(q.push(x), ops.drop_first(), capacity)
            } else {
                accepted_values(q, ops.drop_first(), capacity)
            },
            QueueOp::Pop => if q.len() > 0 {
                accepted_values(q.drop_first(), ops.drop_first(), capacity)
            } else {
                accepted_values(q, ops.drop_first(), capacity)
            },
        }
    }
}

/// First-in first-out across any interleaving of pushes and pops under the
/// single-producer/single-consumer discipline: the values the pops returned,
/// followed by what remains queued, are exactly the initial contents followed
/// by the values the accepted pushes carried, in order.
pub proof fn lemma_fifo_interleaving<T>(q: Seq<T>, ops: Seq<QueueOp<T>>, capacity: int)
    ensures
        popped_values(q, ops, capacity) + apply_ops(q, ops, capacity) =~= q + accepted_values(
            q,
            ops,
            capacity,
        ),
    decreases ops.len(),
{
    if ops.len() == 0 {
    } else {
        let rest = ops.drop_first();
        match ops[0] {
            QueueOp::Push(x) => {
                if q.len() < capacity - 1 {
                    lemma_fifo_interleaving(q.push(x), rest, capacity);
                    assert(q.push(x) =~= q + seq![x]);
                    assert((q + seq![x]) + accepted_values(q.push(x), rest, capacity) =~= q + (
                    seq![x] + accepted_values(q.push(x), rest, capacity)));
                } else {
                    lemma_fifo_interleaving(q, rest, capacity);
                }
            },
            QueueOp::Pop => {
                if q.len() > 0 {
                    lemma_fifo_interleaving(q.drop_first(), rest, capacity);
                    assert(seq![q[0]] + q.drop_first() =~= q);
                    assert((seq![q[0]] + popped_values(q.drop_first(), rest, capacity))
                        + apply_ops(q.drop_first(), rest, capacity) =~= seq![q[0]] + (
                    popped_values(q.drop_first(), rest, capacity) + apply_ops(
                        q.drop_first(),
                        rest,
                        capacity,
                    )));
                    assert(seq![q[0]] + (q.drop_first() + accepted_values(
                        q.drop_first(),
                        rest,
                        capacity,
                    )) =~= (seq![q[0]] + q.drop_first()) + accepted_values(
                        q.drop_first(),
                        rest,
                        capacity,
                    ));
                } else {
                    lemma_fifo_interleaving(q, rest, capacity);
                }
            },
        }
    }
}

/// Starting from an empty buffer, the popped values are exactly the first
/// `popped` many of the accepted push values, in order: no record is lost,
/// duplicated, or reordered, whatever the interleaving.
pub proof fn lemma_fifo_from_empty<T>(ops: Seq<QueueOp<T>>, capacity: int)
    ensures
        popped_values(Seq::<T>::empty(), ops, capacity) =~= accepted_values(
            Seq::<T>::empty(),
            ops,
            capacity,
        ).take(popped_values(Seq::<T>::empty(), ops, capacity).len() as int),
{
    let popped = popped_values(Seq::<T>::empty(), ops, capacity);
    let remaining = apply_ops(Seq::<T>::empty(), ops, capacity);
    let accepted = accepted_values(Seq::<T>::empty(), ops, capacity);
    lemma_fifo_interleaving(Seq::<T>::empty(), ops, capacity);
    assert(popped + remaining =~= Seq::<T>::empty() + accepted);
    assert(Seq::<T>::empty() + accepted =~= accepted);
    assert forall|i: int| 0 <= i < popped.len() implies popped[i] == accepted[i] by {
        assert((popped + remaining)[i] == popped[i]);
    }
}

/// While the queue stays below `capacity - 1` records, every push of a run is
/// accepted and each one grows the queue by one record.
proof fn lemma_all_pushes_accepted<T>(q: Seq<T>, ops: Seq<QueueOp<T>>, capacity: int)
    requires
        forall|i: int| 0 <= i < ops.len() ==> ops[i] is Push,
        q.len() + ops.len() <= capacity - 1,
    ensures
        apply_ops(q, ops, capacity).len() == q.len() + ops.len(),
        accepted_values(q, ops, capacity).len() == ops.len(),
    decreases ops.len(),
{
    if ops.len() > 0 {
        let rest = ops.drop_first();
        assert forall|i: int| 0 <= i < rest.len() implies rest[i] is Push by {
            assert(rest[i] == ops[i + 1]);
        }
        match ops[0] {
            QueueOp::Push(x) => {
                lemma_all_pushes_accepted(q.push(x), rest, capacity);
            },
            QueueOp::Pop => {
                assert(ops[0] is Push);
            },
        }
    }
}

/// The buffer reports full with exactly `capacity - 1` usable slots: a run of
/// `capacity - 1` pushes from empty is accepted in full, and one further push
/// onto the result is refused.
pub proof fn lemma_full_after_capacity_minus_one<T>(ops: Seq<QueueOp<T>>, x: T, capacity: int)
    requires
        capacity >= 1,
        ops.len() == capacity - 1,
        forall|i: int| 0 <= i < ops.len() ==> ops[i] is Push,
    ensures
        accepted_values(Seq::<T>::empty(), ops, capacity).len() == capacity - 1,
        accepted_values(
            apply_ops(Seq::<T>::empty(), ops, capacity),
            seq![QueueOp::Push(x)],
            capacity,
        ) =~= Seq::<T>::empty(),
{
    lemma_all_pushes_accepted(Seq::<T>::empty(), ops, capacity);
    let full = apply_ops(Seq::<T>::empty(), ops, capacity);
    assert(full.len() == capacity - 1);
    let one_more = seq![QueueOp::Push(x)];
    assert(accepted_values(full, one_more, capacity) == accepted_values(
        full,
        one_more.drop_first(),
        capacity,
    ));
    assert(one_more.drop_first().len() == 0);
    assert(accepted_values(full, one_more.drop_first(), capacity) =~= Seq::<T>::empty());
}

/// Round trip: pushing a record onto an empty buffer and popping once returns
/// that record unchanged, and leaves the buffer empty again.
pub proof fn lemma_round_trip<T>(contents: Seq<T>, x: T)
    requires
        contents.len() == 0,
    ensures
        contents.push(x)[0] == x,
        contents.push(x).drop_first() =~= contents,
{
}

} // verus!
