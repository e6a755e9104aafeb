//! A FIFO ring buffer of bytes with the exact transfer semantics of an RTT
//! channel: `write` appends as many of the offered bytes as there is free
//! space for (possibly none, silently — best effort with no backpressure),
//! `read` removes and returns up to a requested number of the oldest bytes,
//! and neither ever blocks.
//!
//! The in-target channel buffers are out of reach of the host; this verified
//! simulation carries their semantics, so the bridge logic and the loopback
//! harness can be proved and tested against it.

use vstd::prelude::*;
use vstd::pervasive::VecAdditionalExecFns;

verus! {

/// The index into the backing storage that holds the `i`-th byte of the
/// buffer contents, for a window starting at `start` in storage of size
/// `cap`: positions wrap around once past the end.
pub open spec fn ring_index(start: int, i: int, cap: int) -> int {
    if start + i < cap {
        start + i
    } else {
        start + i - cap
    }
}

/// How many bytes a write of `bytes` into a buffer holding `contents` with
/// capacity `cap` accepts, and what the buffer holds afterwards: the longest
/// prefix of `bytes` that fits is appended, the rest is dropped silently.
pub open spec fn spec_write(contents: Seq<u8>, cap: nat, bytes: Seq<u8>) -> (Seq<u8>, nat)
    recommends
        contents.len() <= cap,
{
    let n = vstd::math::min(bytes.len() as int, cap - contents.len());
    (contents + bytes.take(n), n as nat)
}

/// What a read of up to `max` bytes from a buffer holding `contents`
/// returns and what it leaves behind: the oldest `min(max, len)` bytes come
/// out, in order.
pub open spec fn spec_read(contents: Seq<u8>, max: nat) -> (Seq<u8>, Seq<u8>) {
    let n = vstd::math::min(max as int, contents.len() as int);
    (contents.take(n), contents.skip(n))
}

/// A bounded FIFO byte queue backed by a fixed-size array with a wrapping
/// read position.
pub struct RingBuffer {
    storage: Vec<u8>,
    start: usize,
    count: usize,
}

impl View for RingBuffer {
    type V = Seq<u8>;

    closed spec fn view(&self) -> Seq<u8> {
        Seq::new(
            self.count as nat,
            |i: int| self.storage@[ring_index(self.start as int, i, self.storage@.len() as int)],
        )
    }
}

impl RingBuffer {
    /// Well-formed: the storage exists, the read position lies inside it,
    /// and the buffer never holds more than the storage can.
    pub closed spec fn wf(&self) -> bool {
        &&& self.storage@.len() > 0
        &&& (self.start as int) < self.storage@.len()
        &&& self.count as int <= self.storage@.len()
    }

    /// The fixed number of bytes the buffer can hold at once.
    pub closed spec fn capacity(&self) -> nat {
        self.storage@.len()
    }

    /// A well-formed buffer never holds more than its capacity.
    pub proof fn lemma_len_le_capacity(&self)
        requires
            self.wf(),
        ensures
            self@.len() <= self.capacity(),
    {
    }

    /// Creates an empty buffer of the given capacity.
    pub fn new(capacity: usize) -> (r: RingBuffer)
        requires
            capacity > 0,
        ensures
            r.wf(),
            r.capacity() == capacity,
            r@ == Seq::<u8>::empty(),
    {
        let mut storage: Vec<u8> = Vec::new();
        let mut i: usize = 0;
        while i < capacity
            invariant
                i <= capacity,
                storage@.len() == i,
            decreases capacity - i,
        {
            storage.push(0);
            i = i + 1;
        }
        let r = RingBuffer { storage, start: 0, count: 0 };
        proof {
            assert(r@ =~= Seq::<u8>::empty());
        }
        r
    }

    /// Appends as many of `bytes` as there is free space for and returns
    /// how many that was — possibly fewer than offered, including none,
    /// with no signal beyond the count.
    pub fn write(&mut self, bytes: &[u8]) -> (n: usize)
        requires
            old(self).wf(),
        ensures
            final(self).wf(),
            final(self).capacity() == old(self).capacity(),
            n as nat == spec_write(old(self)@, old(self).capacity(), bytes@).1,
            final(self)@ == spec_write(old(self)@, old(self).capacity(), bytes@).0,
    {
        let cap = self.storage.len();
        let mut j: usize = 0;
        while j < bytes.len() && self.count < cap
            invariant
                old(self).wf(),
                self.wf(),
                cap == self.storage@.len(),
                self.storage@.len() == old(self).storage@.len(),
                self.start == old(self).start,
                j <= bytes@.len(),
                self.count as int == old(self).count + j,
                self@ == old(self)@ + bytes@.take(j as int),
            decreases bytes@.len() - j,
        {
            let ghost before = self@;
            let pos = if self.count < cap - self.start {
                self.start + self.count
            } else {
                // the write position wraps past the end of the storage
                self.count - (cap - self.start)
            };
            assert(pos as int == ring_index(self.start as int, self.count as int, cap as int));
            self.storage.set(pos, bytes[j]);
            self.count = self.count + 1;
            proof {
                assert forall|i: int| 0 <= i < self.count implies #[trigger] self@[i]
                    == before.push(bytes@[j as int])[i] by {
                    assert(ring_index(self.start as int, i, cap as int) == pos as int ==> i
                        == self.count - 1);
                }
                assert(self@ =~= before.push(bytes@[j as int]));
                assert(self@ =~= old(self)@ + bytes@.take(j + 1));
            }
            j = j + 1;
        }
        proof {
            let w = spec_write(old(self)@, old(self).capacity(), bytes@);
            assert(bytes@.take(w.1 as int) =~= bytes@.take(j as int));
        }
        j
    }

    /// Removes and returns up to `max` of the oldest bytes, in order;
    /// returns an empty vector when the buffer is empty. Never blocks.
    pub fn read(&mut self, max: usize) -> (r: Vec<u8>)
        requires
            old(self).wf(),
        ensures
            final(self).wf(),
            final(self).capacity() == old(self).capacity(),
            r@ == spec_read(old(self)@, max as nat).0,
            final(self)@ == spec_read(old(self)@, max as nat).1,
    {
        let cap = self.storage.len();
        let mut out: Vec<u8> = Vec::new();
        let mut j: usize = 0;
        while j < max && self.count > 0
            invariant
                old(self).wf(),
                self.wf(),
                cap == self.storage@.len(),
                self.storage@ == old(self).storage@,
                j <= max,
                j as int <= old(self).count,
                self.count as int == old(self).count - j,
                out@ == old(self)@.take(j as int),
                self@ == old(self)@.skip(j as int),
            decreases self.count,
        {
            let ghost before = self@;
            let ghost start_before = self.start as int;
            let b = self.storage[self.start];
            assert(b == before[0]);
            out.push(b);
            self.start = if self.start + 1 < cap {
                self.start + 1
            } else {
                0
            };
            self.count = self.count - 1;
            proof {
                assert forall|i: int| 0 <= i < self.count implies #[trigger] self@[i] == before[i
                    + 1] by {
                    assert(ring_index(self.start as int, i, cap as int) == ring_index(
                        start_before,
                        i + 1,
                        cap as int,
                    ));
                }
                assert(self@ =~= before.skip(1));
                assert(before.skip(1) =~= old(self)@.skip(j + 1));
                assert(out@ =~= old(self)@.take(j + 1));
            }
            j = j + 1;
        }
        proof {
            let rd = spec_read(old(self)@, max as nat);
            assert(out@ =~= rd.0);
            assert(self@ =~= rd.1);
        }
        out
    }
}

/// Round-trip law: writing a byte sequence `x` that fits the capacity into
/// an empty buffer accepts all of `x`, and an immediate read of `x.len()`
/// bytes returns exactly `x` in its original order and leaves the buffer
/// empty again.
pub proof fn lemma_fifo_round_trip(x: Seq<u8>, cap: nat)
    requires
        x.len() <= cap,
    ensures
        spec_write(Seq::<u8>::empty(), cap, x).1 == x.len(),
        spec_read(spec_write(Seq::<u8>::empty(), cap, x).0, x.len()).0 == x,
        spec_read(spec_write(Seq::<u8>::empty(), cap, x).0, x.len()).1 == Seq::<u8>::empty(),
{
    let written = spec_write(Seq::<u8>::empty(), cap, x).0;
    assert(written =~= x);
    assert(spec_read(written, x.len()).0 =~= x);
    assert(spec_read(written, x.len()).1 =~= Seq::<u8>::empty());
}

} // verus!
