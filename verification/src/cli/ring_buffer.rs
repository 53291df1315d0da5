//! Fixed-size circular buffer between a sample producer and a sample
//! consumer. Its memory does not grow with the length of the song: one slot
//! always stays free, so a buffer of capacity `c` holds at most `c - 1`
//! samples.

use vstd::prelude::*;
use crate::cli::RingBufferError;
use crate::cli::viz_helpers::{append_decimal_u64, decimal};

verus! {

/// Largest capacity accepted: 512 MiB worth of four-byte samples.
pub const MAX_RING_CAPACITY: usize = 134217728;

/// Two to the power `k`.
pub open spec fn two_pow(k: nat) -> nat
    decreases k,
{
    if k == 0 {
        1
    } else {
        2 * two_pow((k - 1) as nat)
    }
}

/// Powers of two grow with the exponent.
proof fn lemma_two_pow_monotone(a: nat, b: nat)
    requires
        a <= b,
    ensures
        1 <= two_pow(a) <= two_pow(b),
    decreases b,
{
    if a < b {
        lemma_two_pow_monotone(a, (b - 1) as nat);
    } else if a > 0 {
        lemma_two_pow_monotone((a - 1) as nat, (a - 1) as nat);
    }
}

/// A power of two above the largest capacity is at least twice that capacity.
proof fn lemma_two_pow_above_limit(k: nat)
    requires
        two_pow(k) > MAX_RING_CAPACITY,
    ensures
        k > 0,
        two_pow((k - 1) as nat) >= MAX_RING_CAPACITY,
{
    assert(two_pow(27) == MAX_RING_CAPACITY) by {
        reveal_with_fuel(two_pow, 28);
    }
    if k <= 27 {
        lemma_two_pow_monotone(k, 27);
    } else {
        lemma_two_pow_monotone(27, (k - 1) as nat);
    }
}

/// `c` is the smallest power of two that is not below `n`.
pub open spec fn is_next_power_of_two(c: int, n: int) -> bool {
    exists|k: nat| #[trigger] two_pow(k) == c && n <= c && (k == 0 || two_pow((k - 1) as nat) < n)
}

/// Slot that lies `i` places after `start` in a ring of `cap` slots.
pub open spec fn ring_slot(start: int, i: int, cap: int) -> int {
    if start + i < cap {
        start + i
    } else {
        start + i - cap
    }
}

/// Message of the error for a zero capacity.
pub open spec fn zero_capacity_message() -> Seq<char> {
    "Ring buffer capacity must be greater than 0"@
}

/// Message of the error for a capacity `c` above the limit.
pub open spec fn too_large_message(c: nat) -> Seq<char> {
    "Ring buffer capacity "@ + decimal(c) + " exceeds maximum safe size "@ + decimal(
        MAX_RING_CAPACITY as nat,
    )
}

/// Circular sample buffer. Its view is the sequence of samples written and
/// not yet read, oldest first.
pub struct RingBuffer<T> {
    buffer: Vec<T>,
    write_pos: usize,
    read_pos: usize,
    capacity: usize,
}

impl<T> RingBuffer<T> {
    /// The buffer holds `capacity` slots and both positions lie inside it.
    pub closed spec fn wf(&self) -> bool {
        &&& 0 < self.capacity <= MAX_RING_CAPACITY
        &&& self.buffer@.len() == self.capacity
        &&& self.read_pos < self.capacity
        &&& self.write_pos < self.capacity
    }

    /// Number of slots.
    pub closed spec fn spec_capacity(&self) -> nat {
        self.capacity as nat
    }

    /// Number of samples waiting to be read.
    closed spec fn stored(&self) -> nat {
        if self.write_pos >= self.read_pos {
            (self.write_pos - self.read_pos) as nat
        } else {
            (self.capacity - (self.read_pos - self.write_pos)) as nat
        }
    }
}

impl<T> View for RingBuffer<T> {
    type V = Seq<T>;

    closed spec fn view(&self) -> Seq<T> {
        Seq::new(
            self.stored(),
            |i: int| self.buffer@[ring_slot(self.read_pos as int, i, self.capacity as int)],
        )
    }
}

impl<T: Copy> RingBuffer<T> {
    /// Creates an empty buffer whose capacity is `requested_capacity` rounded
    /// up to a power of two; every slot starts as `fill`.
    pub fn new(requested_capacity: usize, fill: T) -> (r: Result<Self, RingBufferError>)
        requires
            requested_capacity <= 0x8000_0000_0000_0000u64,
        ensures
            requested_capacity == 0 ==> (r matches Err(e) && e.0@ == zero_capacity_message()),
            requested_capacity > MAX_RING_CAPACITY ==> (r matches Err(e) && exists|c: nat|
                is_next_power_of_two(c as int, requested_capacity as int) && e.0@
                    == too_large_message(c)),
            0 < requested_capacity <= MAX_RING_CAPACITY ==> (r matches Ok(rb)
                && rb.wf()
                && is_next_power_of_two(rb.spec_capacity() as int, requested_capacity as int)
                && rb@ == Seq::<T>::empty()),
    {
        if requested_capacity == 0 {
            let mut msg = String::new();
            msg.append("Ring buffer capacity must be greater than 0");
            return Err(RingBufferError(msg));
        }
        let wanted: u64 = requested_capacity as u64;
        let mut cap: u64 = 1;
        let ghost mut k: nat = 0;
        while cap < wanted
            invariant
                1 <= wanted <= 0x8000_0000_0000_0000u64,
                1 <= cap <= 2 * wanted,
                cap == two_pow(k),
                k == 0 || two_pow((k - 1) as nat) < wanted,
            decreases 2 * wanted - cap,
        {
            cap = cap * 2;
            proof {
                k = k + 1;
            }
        }
        assert(two_pow(k) == cap && wanted <= cap && (k == 0 || two_pow((k - 1) as nat) < wanted));
        if cap > MAX_RING_CAPACITY as u64 {
            proof {
                lemma_two_pow_above_limit(k);
            }
            let mut msg = String::new();
            msg.append("Ring buffer capacity ");
            append_decimal_u64(&mut msg, cap);
            msg.append(" exceeds maximum safe size ");
            append_decimal_u64(&mut msg, MAX_RING_CAPACITY as u64);
            proof {
                reveal_strlit("Ring buffer capacity ");
                reveal_strlit(" exceeds maximum safe size ");
                assert(is_next_power_of_two(cap as int, requested_capacity as int));
                assert(msg@ =~= too_large_message(cap as nat));
            }
            return Err(RingBufferError(msg));
        }
        let capacity: usize = cap as usize;
        let mut buffer: Vec<T> = Vec::new();
        while buffer.len() < capacity
            invariant
                buffer.len() <= capacity,
            decreases capacity - buffer.len(),
        {
            buffer.push(fill);
        }
        let rb = RingBuffer { buffer, write_pos: 0, read_pos: 0, capacity };
        assert(rb@ =~= Seq::<T>::empty());
        Ok(rb)
    }

    /// Number of slots (a power of two).
    pub fn capacity(&self) -> (c: usize)
        requires
            self.wf(),
        ensures
            c == self.spec_capacity(),
    {
        self.capacity
    }

    /// Number of samples waiting to be read.
    pub fn available_read(&self) -> (n: usize)
        requires
            self.wf(),
        ensures
            n == self@.len(),
            n < self.spec_capacity(),
    {
        if self.write_pos >= self.read_pos {
            self.write_pos - self.read_pos
        } else {
            self.capacity - (self.read_pos - self.write_pos)
        }
    }
    /// Appends as many of `samples` as there is room for (the buffer keeps
    /// one slot free) and returns how many were taken, from the front.
    pub fn write(&mut self, samples: &[T]) -> (n: usize)
        requires
            old(self).wf(),
        ensures
            final(self).wf(),
            n == (if samples@.len() <= old(self).spec_capacity() - 1 - old(self)@.len() {
                samples@.len() as int
            } else {
                old(self).spec_capacity() - 1 - old(self)@.len()
            }),
            final(self)@ == old(self)@ + samples@.subrange(0, n as int),
            final(self).spec_capacity() == old(self).spec_capacity(),
    {
        let stored = self.available_read();
        let room = self.capacity - stored - 1;
        let to_write: usize = if samples.len() <= room {
            samples.len()
        } else {
            room
        };
        let ghost old_view = self@;
        let ghost r = self.read_pos as int;
        let cap = self.capacity;
        let start = self.write_pos;
        let mut j: usize = 0;
        while j < to_write
            invariant
                j <= to_write,
                to_write <= samples@.len(),
                stored + to_write < cap,
                stored == old_view.len(),
                cap == self.capacity,
                cap <= MAX_RING_CAPACITY,
                self.read_pos == r,
                self.write_pos == start,
                r < cap,
                start < cap,
                start == ring_slot(r, stored as int, cap as int),
                self.buffer@.len() == cap,
                forall|i: int|
                    0 <= i < stored ==> self.buffer@[ring_slot(r, i, cap as int)] == old_view[i],
                forall|i: int|
                    0 <= i < j ==> self.buffer@[ring_slot(r, stored + i, cap as int)]
                        == samples@[i],
            decreases to_write - j,
        {
            let mut idx = start + j;
            if idx >= cap {
                idx = idx - cap;
            }
            self.buffer.set(idx, samples[j]);
            j = j + 1;
        }
        let mut w = start + to_write;
        if w >= cap {
            w = w - cap;
        }
        self.write_pos = w;
        assert(self@ =~= old_view + samples@.subrange(0, to_write as int));
        to_write
    }

    /// Moves the oldest samples into the front of `dest`, as many as fit and
    /// as are stored, and returns how many were moved.
    pub fn read(&mut self, dest: &mut [T]) -> (n: usize)
        requires
            old(self).wf(),
        ensures
            final(self).wf(),
            n == (if old(dest)@.len() <= old(self)@.len() {
                old(dest)@.len()
            } else {
                old(self)@.len()
            }),
            final(dest)@ == old(self)@.subrange(0, n as int) + old(dest)@.subrange(
                n as int,
                old(dest)@.len() as int,
            ),
            final(self)@ == old(self)@.subrange(n as int, old(self)@.len() as int),
            final(self).spec_capacity() == old(self).spec_capacity(),
    {
        let stored = self.available_read();
        let to_read: usize = if dest.len() <= stored {
            dest.len()
        } else {
            stored
        };
        let ghost old_view = self@;
        let ghost old_dest = dest@;
        let cap = self.capacity;
        let start = self.read_pos;
        let mut j: usize = 0;
        while j < to_read
            invariant
                j <= to_read,
                to_read <= stored,
                to_read <= old_dest.len(),
                stored == old_view.len(),
                stored < cap,
                cap == self.capacity,
                cap <= MAX_RING_CAPACITY,
                self.read_pos == start,
                start < cap,
                self.buffer@.len() == cap,
                old_view == self@,
                dest@.len() == old_dest.len(),
                forall|i: int| 0 <= i < j ==> dest@[i] == old_view[i],
                forall|i: int| j <= i < dest@.len() ==> dest@[i] == old_dest[i],
            decreases to_read - j,
        {
            let mut idx = start + j;
            if idx >= cap {
                idx = idx - cap;
            }
            assert(self.buffer@[idx as int] == old_view[j as int]);
            dest[j] = self.buffer[idx];
            j = j + 1;
        }
        let mut r = start + to_read;
        if r >= cap {
            r = r - cap;
        }
        self.read_pos = r;
        assert(dest@ =~= old_view.subrange(0, to_read as int) + old_dest.subrange(
            to_read as int,
            old_dest.len() as int,
        ));
        assert(self@ =~= old_view.subrange(to_read as int, old_view.len() as int));
        to_read
    }

    /// Discards every stored sample.
    pub fn flush(&mut self)
        requires
            old(self).wf(),
        ensures
            final(self).wf(),
            final(self)@ == Seq::<T>::empty(),
            final(self).spec_capacity() == old(self).spec_capacity(),
    {
        self.read_pos = self.write_pos;
        assert(self@ =~= Seq::<T>::empty());
    }

    /// Whether no sample is stored.
    pub fn is_empty(&self) -> (b: bool)
        requires
            self.wf(),
        ensures
            b == (self@.len() == 0),
    {
        self.available_read() == 0
    }

    /// Whether no further sample can be written (one slot stays free).
    pub fn is_full(&self) -> (b: bool)
        requires
            self.wf(),
        ensures
            b == (self@.len() == self.spec_capacity() - 1),
    {
        self.capacity - self.available_read() - 1 == 0
    }
}

} // verus!
