use vstd::prelude::*;

use vstd::arithmetic::power2::{lemma2_to64, lemma_pow2_pos, pow2};
use vstd::bits::{lemma_u32_low_bits_mask_is_mod, low_bits_mask};

use crate::sys::io_uring_zcrx_rqe;
use crate::token::{self, offset_of, token_of};

verus! {

/// How far the counter `to` is ahead of `from`, counting modulo 2^32.
pub open spec fn distance(from: u32, to: u32) -> nat {
    if from <= to {
        (to - from) as nat
    } else {
        (to + 0x1_0000_0000 - from) as nat
    }
}

/// The counter `pos` advanced by `n`, modulo 2^32.
pub open spec fn advance(pos: u32, n: int) -> u32 {
    ((pos as int + n) % 0x1_0000_0000) as u32
}

/// `n` is a power of two.
pub open spec fn is_pow2(n: u32) -> bool {
    n > 0 && n & ((n - 1) as u32) == 0
}

/// The slot of the entry array that the counter value `pos` stands for.
pub open spec fn slot(pos: u32, mask: u32) -> usize {
    (pos & mask) as usize
}

proof fn lemma_pow2_bound(n: u32)
    requires
        is_pow2(n),
    ensures
        n <= 0x8000_0000,
{
    assert(n > 0 && n & ((n - 1) as u32) == 0 ==> n <= 0x8000_0000) by (bit_vector);
}

proof fn lemma_mask_is_modulo_pow2(pos: u32, k: nat)
    requires
        k < 32,
    ensures
        pos & ((pow2(k) - 1) as u32) == pos % (pow2(k) as u32),
{
    lemma_pow2_pos(k);
    lemma_u32_low_bits_mask_is_mod(pos, k);
    assert(low_bits_mask(k) == pow2(k) - 1);
}

/// For a ring whose entry count is a power of two, masking a counter with
/// the count less one gives the counter modulo the count.
pub proof fn lemma_mask_is_modulo(pos: u32, n: u32)
    requires
        is_pow2(n),
    ensures
        pos & ((n - 1) as u32) == pos % n,
        slot(pos, (n - 1) as u32) < n,
{
    assert(n > 0 && n & ((n - 1) as u32) == 0 ==> n == 0x1 || n == 0x2 || n == 0x4 || n == 0x8 || n == 0x10 || n == 0x20 || n == 0x40 || n == 0x80 || n == 0x100 || n == 0x200 || n == 0x400 || n == 0x800 || n == 0x1000 || n == 0x2000 || n == 0x4000 || n == 0x8000 || n == 0x10000 || n == 0x20000 || n == 0x40000 || n == 0x80000 || n == 0x100000 || n == 0x200000 || n == 0x400000 || n == 0x800000 || n == 0x1000000 || n == 0x2000000 || n == 0x4000000 || n == 0x8000000 || n == 0x10000000 || n == 0x20000000 || n == 0x40000000 || n == 0x80000000) by (bit_vector);
    assert(pos & ((n - 1) as u32) <= ((n - 1) as u32)) by (bit_vector);
    lemma2_to64();
        if n == 0x1 {
            lemma_mask_is_modulo_pow2(pos, 0);
        } else if n == 0x2 {
            lemma_mask_is_modulo_pow2(pos, 1);
        } else if n == 0x4 {
            lemma_mask_is_modulo_pow2(pos, 2);
        } else if n == 0x8 {
            lemma_mask_is_modulo_pow2(pos, 3);
        } else if n == 0x10 {
            lemma_mask_is_modulo_pow2(pos, 4);
        } else if n == 0x20 {
            lemma_mask_is_modulo_pow2(pos, 5);
        } else if n == 0x40 {
            lemma_mask_is_modulo_pow2(pos, 6);
        } else if n == 0x80 {
            lemma_mask_is_modulo_pow2(pos, 7);
        } else if n == 0x100 {
            lemma_mask_is_modulo_pow2(pos, 8);
        } else if n == 0x200 {
            lemma_mask_is_modulo_pow2(pos, 9);
        } else if n == 0x400 {
            lemma_mask_is_modulo_pow2(pos, 10);
        } else if n == 0x800 {
            lemma_mask_is_modulo_pow2(pos, 11);
        } else if n == 0x1000 {
            lemma_mask_is_modulo_pow2(pos, 12);
        } else if n == 0x2000 {
            lemma_mask_is_modulo_pow2(pos, 13);
        } else if n == 0x4000 {
            lemma_mask_is_modulo_pow2(pos, 14);
        } else if n == 0x8000 {
            lemma_mask_is_modulo_pow2(pos, 15);
        } else if n == 0x10000 {
            lemma_mask_is_modulo_pow2(pos, 16);
        } else if n == 0x20000 {
            lemma_mask_is_modulo_pow2(pos, 17);
        } else if n == 0x40000 {
            lemma_mask_is_modulo_pow2(pos, 18);
        } else if n == 0x80000 {
            lemma_mask_is_modulo_pow2(pos, 19);
        } else if n == 0x100000 {
            lemma_mask_is_modulo_pow2(pos, 20);
        } else if n == 0x200000 {
            lemma_mask_is_modulo_pow2(pos, 21);
        } else if n == 0x400000 {
            lemma_mask_is_modulo_pow2(pos, 22);
        } else if n == 0x800000 {
            lemma_mask_is_modulo_pow2(pos, 23);
        } else if n == 0x1000000 {
            lemma_mask_is_modulo_pow2(pos, 24);
        } else if n == 0x2000000 {
            lemma_mask_is_modulo_pow2(pos, 25);
        } else if n == 0x4000000 {
            lemma_mask_is_modulo_pow2(pos, 26);
        } else if n == 0x8000000 {
            lemma_mask_is_modulo_pow2(pos, 27);
        } else if n == 0x10000000 {
            lemma_mask_is_modulo_pow2(pos, 28);
        } else if n == 0x20000000 {
            lemma_mask_is_modulo_pow2(pos, 29);
        } else if n == 0x40000000 {
            lemma_mask_is_modulo_pow2(pos, 30);
        } else if n == 0x80000000 {
            lemma_mask_is_modulo_pow2(pos, 31);
        }
}

/// The geometry of a refill ring: its entry count and where its head and tail
/// counters and its entry array lie in the ring's memory region.
pub struct Inner {
    ring_entries: u32,
    ring_mask: u32,
    head_offset: u32,
    tail_offset: u32,
    rqes_offset: u32,
}

impl Inner {
    pub closed spec fn entries(&self) -> u32 {
        self.ring_entries
    }

    pub closed spec fn mask(&self) -> u32 {
        self.ring_mask
    }

    pub closed spec fn offsets(&self) -> (u32, u32, u32) {
        (self.head_offset, self.tail_offset, self.rqes_offset)
    }

    pub closed spec fn wf(&self) -> bool {
        is_pow2(self.ring_entries) && self.ring_mask == self.ring_entries - 1
    }

    /// What a well-formed geometry holds: a power-of-two entry count and the
    /// mask one less than it.
    pub proof fn lemma_wf(&self)
        requires
            self.wf(),
        ensures
            is_pow2(self.entries()),
            self.mask() == self.entries() - 1,
    {
    }

    /// Builds the geometry of a ring of `ring_entries` entries; a count that is
    /// not a power of two is refused.
    pub fn new(ring_entries: u32, head_offset: u32, tail_offset: u32, rqes_offset: u32) -> (r:
        Option<Inner>)
        ensures
            r is Some <==> is_pow2(ring_entries),
            r matches Some(g) ==> g.wf() && g.entries() == ring_entries && g.mask() == ring_entries
                - 1 && g.offsets() == (
                head_offset,
                tail_offset,
                rqes_offset,
            ),
    {
        if ring_entries == 0 || ring_entries & (ring_entries - 1) != 0 {
            return None;
        }
        Some(Inner { ring_entries, ring_mask: ring_entries - 1, head_offset, tail_offset, rqes_offset })
    }

    pub fn ring_entries(&self) -> (r: u32)
        ensures
            r == self.entries(),
    {
        self.ring_entries
    }

    /// Byte offset of the head counter in the ring's memory region.
    pub fn head_offset(&self) -> (r: u32)
        ensures
            r == self.offsets().0,
    {
        self.head_offset
    }

    /// Byte offset of the tail counter in the ring's memory region.
    pub fn tail_offset(&self) -> (r: u32)
        ensures
            r == self.offsets().1,
    {
        self.tail_offset
    }

    /// Byte offset of the entry array in the ring's memory region.
    pub fn rqes_offset(&self) -> (r: u32)
        ensures
            r == self.offsets().2,
    {
        self.rqes_offset
    }
}

/// A cursor over the refill ring, which this process fills and the kernel
/// drains.
///
/// `head` is the kernel's progress as last observed, `tail` the position after
/// the last entry pushed, and `published` the tail that the kernel has been
/// shown. The entries between `published` and `tail` wait in `pending` until
/// they are written to the shared entry array and the tail is published.
pub struct RefillQueue {
    head: u32,
    tail: u32,
    published: u32,
    ring_entries: u32,
    ring_mask: u32,
    pending: Vec<Entry>,
}

impl RefillQueue {
    pub closed spec fn head_pos(&self) -> u32 {
        self.head
    }

    pub closed spec fn tail_pos(&self) -> u32 {
        self.tail
    }

    pub closed spec fn published_pos(&self) -> u32 {
        self.published
    }

    pub closed spec fn ring_capacity(&self) -> nat {
        self.ring_entries as nat
    }

    pub closed spec fn mask(&self) -> u32 {
        self.ring_mask
    }

    /// The entries pushed since the tail was last published, oldest first.
    pub closed spec fn pending(&self) -> Seq<Entry> {
        self.pending@
    }

    /// The number of entries in the ring that the kernel has not consumed.
    pub open spec fn occupancy(&self) -> nat {
        distance(self.head_pos(), self.tail_pos())
    }

    pub closed spec fn wf(&self) -> bool {
        &&& is_pow2(self.ring_entries)
        &&& self.ring_entries <= 0x8000_0000
        &&& self.ring_mask == self.ring_entries - 1
        &&& distance(self.head, self.tail) <= self.ring_entries
        &&& distance(self.head, self.published) + distance(self.published, self.tail)
            == distance(self.head, self.tail)
        &&& self.pending@.len() == distance(self.published, self.tail)
    }

    /// What a well-formed cursor holds: it never holds more than the ring's
    /// capacity; the pending entries are those between the published tail
    /// and the tail; the published tail lies between the head and the tail;
    /// and the mask is the capacity, a power of two, less one.
    pub proof fn lemma_wf(&self)
        requires
            self.wf(),
        ensures
            self.occupancy() <= self.ring_capacity(),
            self.ring_capacity() <= 0x8000_0000,
            self.pending().len() == distance(self.published_pos(), self.tail_pos()),
            distance(self.head_pos(), self.published_pos()) + distance(
                self.published_pos(),
                self.tail_pos(),
            ) == self.occupancy(),
            is_pow2(self.ring_capacity() as u32),
            self.mask() == self.ring_capacity() - 1,
    {
    }

    /// Opens a cursor over the ring `inner` whose shared head and tail
    /// counters read `head` and `tail`. Counters further apart than the ring
    /// holds are refused.
    pub fn new(inner: &Inner, head: u32, tail: u32) -> (r: Option<RefillQueue>)
        requires
            inner.wf(),
        ensures
            r is Some <==> distance(head, tail) <= inner.entries(),
            r matches Some(q) ==> {
                &&& q.wf()
                &&& q.head_pos() == head
                &&& q.tail_pos() == tail
                &&& q.published_pos() == tail
                &&& q.ring_capacity() == inner.entries()
                &&& q.mask() == inner.mask()
                &&& q.pending() == Seq::<Entry>::empty()
            },
    {
        if tail.wrapping_sub(head) > inner.ring_entries {
            return None;
        }
        proof {
            lemma_pow2_bound(inner.ring_entries);
        }
        Some(
            RefillQueue {
                head,
                tail,
                published: tail,
                ring_entries: inner.ring_entries,
                ring_mask: inner.ring_mask,
                pending: Vec::new(),
            },
        )
    }

    /// The total number of entries in the refill ring.
    pub fn capacity(&self) -> (r: usize)
        ensures
            r == self.ring_capacity(),
    {
        self.ring_entries as usize
    }

    /// The number of entries in the ring that the kernel has not consumed.
    pub fn len(&self) -> (r: usize)
        requires
            self.wf(),
        ensures
            r == self.occupancy(),
            r <= self.ring_capacity(),
    {
        self.tail.wrapping_sub(self.head) as usize
    }

    /// Whether the ring holds no entry.
    pub fn is_empty(&self) -> (r: bool)
        requires
            self.wf(),
        ensures
            r == (self.occupancy() == 0),
    {
        self.len() == 0
    }

    /// Whether the ring is at capacity: no entry can be added before the
    /// kernel consumes some.
    pub fn is_full(&self) -> (r: bool)
        requires
            self.wf(),
        ensures
            r == (self.occupancy() == self.ring_capacity()),
    {
        self.len() == self.capacity()
    }

    /// Pushes `entry`, or returns `PushError` and changes nothing when the
    /// ring is full. The kernel sees the entry once the tail is published.
    pub fn push(&mut self, entry: &Entry) -> (r: Result<(), PushError>)
        requires
            old(self).wf(),
        ensures
            final(self).wf(),
            final(self).ring_capacity() == old(self).ring_capacity(),
            final(self).mask() == old(self).mask(),
            r is Err <==> old(self).occupancy() == old(self).ring_capacity(),
            r is Err ==> *final(self) == *old(self),
            r is Ok ==> {
                &&& final(self).occupancy() == old(self).occupancy() + 1
                &&& final(self).head_pos() == old(self).head_pos()
                &&& final(self).tail_pos() == advance(old(self).tail_pos(), 1)
                &&& final(self).published_pos() == old(self).published_pos()
                &&& final(self).pending() == old(self).pending().push(*entry)
            },
    {
        if !self.is_full() {
            self.push_unchecked(entry);
            Ok(())
        } else {
            Err(PushError)
        }
    }

    /// Pushes all of `entries` in order, or returns `PushError` and changes
    /// nothing when the ring has room for fewer of them.
    pub fn push_multiple(&mut self, entries: &[Entry]) -> (r: Result<(), PushError>)
        requires
            old(self).wf(),
        ensures
            final(self).wf(),
            final(self).ring_capacity() == old(self).ring_capacity(),
            final(self).mask() == old(self).mask(),
            r is Err <==> old(self).ring_capacity() - old(self).occupancy() < entries@.len(),
            r is Err ==> *final(self) == *old(self),
            r is Ok ==> {
                &&& final(self).occupancy() == old(self).occupancy() + entries@.len()
                &&& final(self).head_pos() == old(self).head_pos()
                &&& final(self).tail_pos() == advance(old(self).tail_pos(), entries@.len() as int)
                &&& final(self).published_pos() == old(self).published_pos()
                &&& final(self).pending() == old(self).pending() + entries@
            },
    {
        if self.capacity() - self.len() < entries.len() {
            return Err(PushError);
        }
        let ghost start = *self;
        let mut i: usize = 0;
        while i < entries.len()
            invariant
                self.wf(),
                0 <= i <= entries@.len(),
                start.wf(),
                start.ring_capacity() - start.occupancy() >= entries@.len(),
                self.ring_capacity() == start.ring_capacity(),
                self.mask() == start.mask(),
                self.occupancy() == start.occupancy() + i,
                self.head_pos() == start.head_pos(),
                self.tail_pos() == advance(start.tail_pos(), i as int),
                self.published_pos() == start.published_pos(),
                self.pending() == start.pending() + entries@.subrange(0, i as int),
            decreases entries@.len() - i,
        {
            self.push_unchecked(&entries[i]);
            proof {
                assert(entries@.subrange(0, i + 1) == entries@.subrange(0, i as int).push(
                    entries@[i as int],
                ));
            }
            i = i + 1;
        }
        proof {
            assert(entries@.subrange(0, entries@.len() as int) == entries@);
        }
        Ok(())
    }

    fn push_unchecked(&mut self, entry: &Entry)
        requires
            old(self).wf(),
            old(self).occupancy() < old(self).ring_capacity(),
        ensures
            final(self).wf(),
            final(self).ring_capacity() == old(self).ring_capacity(),
            final(self).mask() == old(self).mask(),
            final(self).occupancy() == old(self).occupancy() + 1,
            final(self).head_pos() == old(self).head_pos(),
            final(self).tail_pos() == advance(old(self).tail_pos(), 1),
            final(self).published_pos() == old(self).published_pos(),
            final(self).pending() == old(self).pending().push(*entry),
    {
        self.pending.push(*entry);
        self.tail = self.tail.wrapping_add(1);
    }

    /// The tail that the kernel has last been shown.
    pub fn published_tail(&self) -> (r: u32)
        ensures
            r == self.published_pos(),
    {
        self.published
    }

    /// Hands out the pending entries, each with the slot of the shared entry
    /// array it is to be written to, and counts the current tail as
    /// published. The caller writes every entry to its slot and then stores
    /// the tail with release ordering.
    pub fn publish(&mut self) -> (r: Vec<(usize, Entry)>)
        requires
            old(self).wf(),
        ensures
            final(self).wf(),
            r@.len() == old(self).pending().len(),
            forall|i: int|
                0 <= i < r@.len() ==> {
                    &&& #[trigger] r@[i].0 == slot(advance(old(self).published_pos(), i), old(self).mask())
                    &&& r@[i].0 == (advance(old(self).published_pos(), i) as int) % (old(self).ring_capacity() as int)
                    &&& r@[i].0 < old(self).ring_capacity()
                    &&& r@[i].1 == old(self).pending()[i]
                },
            final(self).pending() == Seq::<Entry>::empty(),
            final(self).published_pos() == old(self).tail_pos(),
            final(self).tail_pos() == old(self).tail_pos(),
            final(self).head_pos() == old(self).head_pos(),
            final(self).ring_capacity() == old(self).ring_capacity(),
            final(self).mask() == old(self).mask(),
    {
        let mut writes: Vec<(usize, Entry)> = Vec::new();
        let mut pos: u32 = self.published;
        let mut i: usize = 0;
        while i < self.pending.len()
            invariant
                self.wf(),
                0 <= i <= self.pending@.len(),
                writes@.len() == i,
                pos == advance(self.published, i as int),
                forall|j: int|
                    0 <= j < i ==> {
                        &&& #[trigger] writes@[j].0 == slot(advance(self.published, j), self.ring_mask)
                        &&& writes@[j].0 == (advance(self.published, j) as int) % (self.ring_entries as int)
                        &&& writes@[j].0 < self.ring_entries
                        &&& writes@[j].1 == self.pending@[j]
                    },
            decreases self.pending@.len() - i,
        {
            proof {
                lemma_mask_is_modulo(pos, self.ring_entries);
            }
            writes.push(((pos & self.ring_mask) as usize, self.pending[i]));
            pos = pos.wrapping_add(1);
            i = i + 1;
        }
        self.pending = Vec::new();
        self.published = self.tail;
        writes
    }

    /// Takes `shared_head`, the head counter as the kernel last stored it, as
    /// the kernel's progress. A value that lies outside the published part of
    /// the ring cannot come from the kernel and is ignored; the result says
    /// whether it was taken.
    pub fn refresh_head(&mut self, shared_head: u32) -> (r: bool)
        requires
            old(self).wf(),
        ensures
            final(self).wf(),
            r == (distance(old(self).head_pos(), shared_head) <= distance(
                old(self).head_pos(),
                old(self).published_pos(),
            )),
            final(self).head_pos() == (if r {
                shared_head
            } else {
                old(self).head_pos()
            }),
            final(self).tail_pos() == old(self).tail_pos(),
            final(self).published_pos() == old(self).published_pos(),
            final(self).pending() == old(self).pending(),
            final(self).ring_capacity() == old(self).ring_capacity(),
            final(self).mask() == old(self).mask(),
    {
        if shared_head.wrapping_sub(self.head) <= self.published.wrapping_sub(self.head) {
            self.head = shared_head;
            true
        } else {
            false
        }
    }
}

/// A refill ring entry: a buffer handed back to the kernel for reuse.
#[derive(Debug, Clone, Copy)]
pub struct Entry(pub io_uring_zcrx_rqe);

impl Entry {
    /// The byte offset of the buffer in the data area.
    pub fn buffer_offset(&self) -> (r: u64)
        ensures
            r == offset_of(self.0.off),
    {
        token::buffer_offset(self.0.off)
    }

    /// The token of the area that holds the buffer.
    pub fn area_token(&self) -> (r: u64)
        ensures
            r == token_of(self.0.off),
    {
        token::area_token(self.0.off)
    }

    /// The buffer's length in bytes.
    pub fn len(&self) -> (r: u32)
        ensures
            r == self.0.len,
    {
        self.0.len
    }

    /// The record as the kernel reads it.
    pub fn record(&self) -> (r: io_uring_zcrx_rqe)
        ensures
            r == self.0,
    {
        self.0
    }
}

/// An error pushing to the refill queue due to it being full.
#[derive(Debug, Clone, Copy, PartialEq, Eq, Structural)]
pub struct PushError;

impl PushError {
    /// The error in words.
    pub fn message(&self) -> (r: &'static str)
        ensures
            r@ == "refill queue is full"@,
    {
        "refill queue is full"
    }
}

} // verus!
