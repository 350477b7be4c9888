//! Buffer Ownership Manager: hands out owned regions of linear memory and
//! reclaims them.
//!
//! Ownership is a convention of the boundary protocol, not something the
//! runtime can observe, so it is tracked here as ghost state: a map from the
//! offset of each live allocation to its size in bytes. `allocate` transfers
//! ownership of a fresh, non-overlapping region to the caller; `deallocate`
//! takes it back. Passing an offset one does not own, or a size other than
//! the one allocated, is ruled out by precondition rather than detected at
//! run time.

use vstd::prelude::*;

verus! {

/// Two regions of linear memory, each given as (offset, size), share no byte.
pub open spec fn regions_disjoint(o1: u32, s1: u32, o2: u32, s2: u32) -> bool {
    o1 + s1 <= o2 || o2 + s2 <= o1
}

/// How far the allocation cursor moves for a request of `size` bytes: at
/// least one byte is reserved, so that even zero-sized allocations get a
/// distinct, non-null offset.
pub open spec fn bump_of(size: u32) -> int {
    if size == 0 {
        1
    } else {
        size as int
    }
}

/// Linear memory together with the allocator's bookkeeping.
///
/// `data` is the memory itself; `next` is the bump cursor, the offset of the
/// first byte never yet handed out; `live` records, in ghost state, the
/// offset and size of every currently owned allocation. Offset 0 is reserved
/// as the null offset and is never part of any allocation.
pub struct LinearMemory {
    pub data: Vec<u8>,
    pub next: u32,
    pub live: Ghost<Map<u32, u32>>,
}

impl LinearMemory {
    /// Allocator invariant: every live region is non-null and lies below the
    /// cursor, the memory is exactly as large as the cursor, and live
    /// regions never overlap.
    pub open spec fn wf(self) -> bool {
        &&& 1 <= self.next
        &&& self.data@.len() == self.next as int
        &&& forall|o: u32| #[trigger]
            self.live@.contains_key(o)
                ==> 1 <= o && o < self.next && o + self.live@[o] <= self.next
        &&& forall|o1: u32, o2: u32|
            self.live@.contains_key(o1) && self.live@.contains_key(o2) && o1 != o2
                ==> regions_disjoint(o1, self.live@[o1], o2, self.live@[o2])
    }

    /// The bytes of the region that starts at `offset` and is `size` bytes
    /// long.
    pub open spec fn region(self, offset: u32, size: u32) -> Seq<u8> {
        self.data@.subrange(offset as int, offset as int + size as int)
    }

    /// The caller currently owns the region of `size` bytes at `offset`.
    pub open spec fn owns(self, offset: u32, size: u32) -> bool {
        self.live@.contains_key(offset) && self.live@[offset] == size
    }

    /// A request for `size` bytes fits in the remaining 32-bit address
    /// space. Running out is fatal for the guest, so it is excluded up
    /// front rather than reported.
    pub open spec fn can_allocate(self, size: u32) -> bool {
        self.next + bump_of(size) <= u32::MAX
    }

    /// `deallocate(offset, size)` is permitted exactly when the caller owns
    /// a region of that size at that offset.
    pub open spec fn can_deallocate(self, offset: u32, size: u32) -> bool {
        self.owns(offset, size)
    }

    /// What `allocate` guarantees: the returned offset is non-null and was
    /// not previously owned, the new region is in bounds and overlaps no
    /// region that was live before, ownership of it is recorded, all earlier
    /// memory contents survive, and the cursor moves by at most the reserved
    /// amount.
    pub open spec fn allocate_post(self, post: Self, offset: u32, size: u32) -> bool {
        &&& post.wf()
        &&& offset != 0
        &&& !self.live@.contains_key(offset)
        &&& offset + size <= post.data@.len()
        &&& forall|o: u32| #[trigger]
            self.live@.contains_key(o) ==> regions_disjoint(o, self.live@[o], offset, size)
        &&& post.live@ == self.live@.insert(offset, size)
        &&& post.data@.len() >= self.data@.len()
        &&& post.data@.subrange(0, self.data@.len() as int) == self.data@
        &&& self.next <= post.next <= self.next + bump_of(size)
    }

    /// What `deallocate` guarantees: the region's ownership record is gone
    /// and nothing else changed.
    pub open spec fn deallocate_post(self, post: Self, offset: u32) -> bool {
        &&& post.wf()
        &&& post.live@ == self.live@.remove(offset)
        &&& post.data@ == self.data@
        &&& post.next == self.next
    }

    /// A fresh linear memory: only the reserved null byte exists and nothing
    /// is owned.
    pub fn new() -> (m: LinearMemory)
        ensures
            m.wf(),
            m.next == 1,
            m.live@ == Map::<u32, u32>::empty(),
    {
        let mut data: Vec<u8> = Vec::new();
        data.push(0);
        LinearMemory { data, next: 1, live: Ghost(Map::empty()) }
    }

    /// Reserves `size` bytes and transfers ownership of them to the caller,
    /// who must eventually hand the same offset and size to `deallocate`.
    /// The region's contents are unspecified: callers must not assume
    /// zeroed memory.
    pub fn allocate(&mut self, size: u32) -> (offset: u32)
        requires
            old(self).wf(),
            old(self).can_allocate(size),
        ensures
            old(self).allocate_post(*final(self), offset, size),
            final(self).owns(offset, size),
    {
        let offset: u32 = self.next;
        let bump: u32 = if size == 0 {
            1
        } else {
            size
        };
        let new_next: u32 = self.next + bump;
        while self.data.len() < new_next as usize
            invariant
                self.next == old(self).next,
                self.live == old(self).live,
                old(self).data@.len() <= self.data@.len() <= new_next as int,
                self.data@.subrange(0, old(self).data@.len() as int) == old(self).data@,
            decreases new_next as int - self.data@.len(),
        {
            self.data.push(0);
            proof {
                assert(self.data@.subrange(0, old(self).data@.len() as int)
                    =~= old(self).data@);
            }
        }
        self.next = new_next;
        self.live = Ghost(self.live@.insert(offset, size));
        proof {
            assert forall|o1: u32, o2: u32|
                self.live@.contains_key(o1) && self.live@.contains_key(o2) && o1 != o2
                    implies regions_disjoint(o1, self.live@[o1], o2, self.live@[o2]) by {
                if o1 != offset && o2 != offset {
                    assert(old(self).live@.contains_key(o1));
                    assert(old(self).live@.contains_key(o2));
                }
            }
        }
        offset
    }

    /// Reclaims the region of `size` bytes at `offset`, which the caller
    /// must own; afterwards every handle to it is dangling and must not be
    /// used. The memory itself and the cursor are untouched: regions are
    /// short-lived boundary buffers, so the allocator accepts the
    /// fragmentation and only drops the ownership record.
    pub fn deallocate(&mut self, offset: u32, size: u32)
        requires
            old(self).wf(),
            old(self).can_deallocate(offset, size),
        ensures
            old(self).deallocate_post(*final(self), offset),
    {
        self.live = Ghost(self.live@.remove(offset));
    }

    /// Copies `len` bytes starting at `offset` out of linear memory.
    pub fn read_bytes(&self, offset: u32, len: u32) -> (r: Vec<u8>)
        requires
            offset + len <= self.data@.len(),
        ensures
            r@ == self.region(offset, len),
    {
        let total: usize = self.data.len();
        let mut r: Vec<u8> = Vec::new();
        let mut i: u32 = 0;
        while i < len
            invariant
                i <= len,
                total == self.data@.len(),
                offset + len <= self.data@.len(),
                r@ == self.data@.subrange(offset as int, offset as int + i as int),
            decreases len as int - i as int,
        {
            let b: u8 = self.data[offset as usize + i as usize];
            r.push(b);
            i = i + 1;
            proof {
                assert(r@ =~= self.data@.subrange(offset as int, offset as int + i as int));
            }
        }
        r
    }

    /// Writes `bytes` into the owned region at `offset`, which must be
    /// large enough to hold them. Only the written bytes change.
    pub fn write_bytes(&mut self, offset: u32, bytes: &Vec<u8>)
        requires
            old(self).wf(),
            old(self).live@.contains_key(offset),
            bytes@.len() <= old(self).live@[offset],
        ensures
            final(self).wf(),
            final(self).live@ == old(self).live@,
            final(self).next == old(self).next,
            final(self).data@.len() == old(self).data@.len(),
            final(self).data@.subrange(offset as int, offset as int + bytes@.len() as int)
                == bytes@,
            forall|j: int|
                0 <= j < old(self).data@.len()
                    && !(offset as int <= j < offset as int + bytes@.len())
                    ==> final(self).data@[j] == old(self).data@[j],
    {
        let mut i: usize = 0;
        while i < bytes.len()
            invariant
                old(self).wf(),
                old(self).live@.contains_key(offset),
                bytes@.len() <= old(self).live@[offset],
                i <= bytes@.len(),
                self.next == old(self).next,
                self.live == old(self).live,
                self.data@.len() == old(self).data@.len(),
                self.data@.subrange(offset as int, offset as int + i as int)
                    == bytes@.subrange(0, i as int),
                forall|j: int|
                    0 <= j < self.data@.len() && !(offset as int <= j < offset as int + i)
                        ==> self.data@[j] == old(self).data@[j],
            decreases bytes@.len() - i as int,
        {
            self.data[offset as usize + i] = bytes[i];
            i = i + 1;
            proof {
                assert(self.data@.subrange(offset as int, offset as int + i as int)
                    =~= bytes@.subrange(0, i as int));
            }
        }
        proof {
            assert(bytes@.subrange(0, bytes@.len() as int) =~= bytes@);
        }
    }
}

/// Ownership non-aliasing: however allocations and deallocations were
/// interleaved, no two simultaneously owned regions overlap.
pub proof fn lemma_no_aliasing(mem: LinearMemory, o1: u32, o2: u32)
    requires
        mem.wf(),
        mem.live@.contains_key(o1),
        mem.live@.contains_key(o2),
        o1 != o2,
    ensures
        regions_disjoint(o1, mem.live@[o1], o2, mem.live@[o2]),
{
}

/// Size fidelity: after `allocate(n)`, handing the returned offset straight
/// back to `deallocate` with the same `n` is permitted, and once that is
/// done a further `allocate(n)` is again permitted, provided the 32-bit
/// address space has room for two such reservations. One cycle leaks
/// nothing that could block the next request.
pub proof fn lemma_size_fidelity(
    m0: LinearMemory,
    m1: LinearMemory,
    m2: LinearMemory,
    offset: u32,
    n: u32,
)
    requires
        m0.wf(),
        m0.next + 2 * bump_of(n) <= u32::MAX,
        m0.allocate_post(m1, offset, n),
        m1.deallocate_post(m2, offset),
    ensures
        m0.can_allocate(n),
        m1.can_deallocate(offset, n),
        m2.can_allocate(n),
{
}

/// Boundary value: a zero-sized allocation still yields a non-null offset,
/// distinct from every live allocation, that may legally be handed to
/// `deallocate` with size 0.
pub proof fn lemma_zero_size_allocation(m0: LinearMemory, m1: LinearMemory, offset: u32)
    requires
        m0.wf(),
        m0.allocate_post(m1, offset, 0),
    ensures
        offset != 0,
        !m0.live@.contains_key(offset),
        m1.can_deallocate(offset, 0),
{
}

} // verus!
