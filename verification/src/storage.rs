//! Bump-pointer arenas: a fixed-capacity arena with bulk reset
//! (`TemporaryStorage`) and a growable overflow block (`HeapStorageBlock`),
//! both built over the same monotonic offset tracker (`Allocator`).

use vstd::prelude::*;

use crate::errors::CoreError;

verus! {

/// Byte capacity of the fixed arena owned by a fresh `TemporaryStorage`.
pub const DEFAULT_STORAGE_SIZE: usize = 40960;

/// Bytes reserved up front by a fresh `HeapStorageBlock`.
pub const DEFAULT_HEAPBLOCK_SIZE: usize = 40960000;

/// The monotonic offset tracker underlying both arena types: the offset of
/// the next allocation, and the hard bound on it where one exists.
pub struct Allocator {
    /// Offset handed out by the next allocation; grows with every stored
    /// byte and returns to zero only on a bulk reset.
    pub index: usize,
    /// `Some(bound)` for a fixed arena, `None` for a growable block.
    pub capacity: Option<usize>,
}

/// A fixed-capacity bump arena: a byte buffer whose length never changes,
/// filled front to back. Allocation never writes past the buffer; a request
/// that does not fit is refused whole with `CapacityExceeded`. `reset_storage`
/// is the only free operation and frees everything at once.
pub struct TemporaryStorage {
    /// The backing buffer; bytes at or past the cursor are stale garbage.
    pub data: Vec<u8>,
    /// Bytes currently allocated; always equal to the cursor offset.
    pub occupied: usize,
    /// High-water mark of `occupied`; survives resets and changes only when
    /// `occupied` grows past it.
    pub max_usage: usize,
    /// The cursor; its capacity equals the buffer length.
    pub allocator: Allocator,
}

impl TemporaryStorage {
    /// The structural invariant every operation preserves.
    pub open spec fn wf(self) -> bool {
        &&& self.allocator.capacity == Some(self.data.len())
        &&& self.occupied == self.allocator.index
        &&& self.allocator.index <= self.data.len()
        &&& self.occupied <= self.max_usage
        &&& self.max_usage <= self.data.len()
    }

    /// Bytes still free ahead of the cursor.
    pub open spec fn remaining(self) -> int {
        self.data.len() - self.allocator.index
    }

    /// Constructs an arena over a zeroed buffer of `capacity` bytes.
    pub fn with_capacity(capacity: usize) -> (s: TemporaryStorage)
        ensures
            s.wf(),
            s.data@ == Seq::new(capacity as nat, |i: int| 0u8),
            s.data@.len() == capacity,
            s.allocator.index == 0,
            s.occupied == 0,
            s.max_usage == 0,
    {
        let s = TemporaryStorage {
            data: vec![0u8; capacity],
            occupied: 0,
            max_usage: 0,
            allocator: Allocator { index: 0, capacity: Some(capacity) },
        };
        proof {
            assert forall|i: int| 0 <= i < s.data@.len() implies s.data@[i] == 0u8 by {
                assert(cloned::<u8>(0u8, s.data@[i]));
            }
            assert(s.data@ =~= Seq::new(capacity as nat, |i: int| 0u8));
        }
        s
    }

    /// Constructs an arena of the default capacity.
    pub fn new() -> (s: TemporaryStorage)
        ensures
            s.wf(),
            s.data@ == Seq::new(DEFAULT_STORAGE_SIZE as nat, |i: int| 0u8),
            s.data@.len() == DEFAULT_STORAGE_SIZE,
            s.allocator.index == 0,
            s.occupied == 0,
            s.max_usage == 0,
    {
        TemporaryStorage::with_capacity(DEFAULT_STORAGE_SIZE)
    }

    /// Advances the cursor and the occupancy count by one byte.
    fn bump(&mut self)
        requires
            old(self).allocator.index < old(self).data.len(),
            old(self).occupied == old(self).allocator.index,
        ensures
            final(self).allocator.index == old(self).allocator.index + 1,
            final(self).occupied == old(self).occupied + 1,
            final(self).data == old(self).data,
            final(self).max_usage == old(self).max_usage,
            final(self).allocator.capacity == old(self).allocator.capacity,
    {
        self.allocator.index = self.allocator.index + 1;
        self.occupied = self.occupied + 1;
    }

    /// Raises the high-water mark to the current occupancy where needed.
    fn note_peak(&mut self)
        ensures
            final(self).max_usage == (if old(self).max_usage >= old(self).occupied {
                old(self).max_usage
            } else {
                old(self).occupied
            }),
            final(self).occupied == old(self).occupied,
            final(self).allocator == old(self).allocator,
            final(self).data == old(self).data,
    {
        if self.occupied > self.max_usage {
            self.max_usage = self.occupied;
        }
    }

    /// Stores one byte at the cursor and returns its offset as the
    /// allocation's address, or refuses with `CapacityExceeded` when the
    /// arena is full, leaving it untouched.
    pub fn add_byte(&mut self, data_being_added: &u8) -> (r: Result<usize, CoreError>)
        requires
            old(self).wf(),
        ensures
            final(self).wf(),
            old(self).remaining() >= 1 ==> r == Ok::<usize, CoreError>(old(self).allocator.index)
                && store_success(*old(self), *final(self), seq![*data_being_added], old(
                self,
            ).allocator.index),
            old(self).remaining() == 0 ==> r == Err::<usize, CoreError>(
                CoreError::CapacityExceeded,
            ) && store_unchanged(*old(self), *final(self)),
    {
        if self.allocator.index >= self.data.len() {
            return Err(CoreError::CapacityExceeded);
        }
        let data_at_index = self.allocator.index;
        self.data[data_at_index] = *data_being_added;
        self.bump();
        self.note_peak();
        Ok(data_at_index)
    }

    /// Stores all of `data_being_added` contiguously, returning the address
    /// of its first byte. The call is atomic: when the run does not fit in
    /// the remaining capacity, nothing is written, nothing moves, and the
    /// caller gets `CapacityExceeded`. An empty run changes nothing and
    /// returns the current cursor offset.
    pub fn add_byte_vec(&mut self, data_being_added: &Vec<u8>) -> (r: Result<usize, CoreError>)
        requires
            old(self).wf(),
        ensures
            final(self).wf(),
            data_being_added@.len() <= old(self).remaining() ==> r == Ok::<usize, CoreError>(
                old(self).allocator.index,
            ) && store_success(*old(self), *final(self), data_being_added@, old(
                self,
            ).allocator.index),
            data_being_added@.len() > old(self).remaining() ==> r == Err::<usize, CoreError>(
                CoreError::CapacityExceeded,
            ) && store_unchanged(*old(self), *final(self)),
            data_being_added@.len() == 0 ==> r == Ok::<usize, CoreError>(old(self).allocator.index)
                && store_unchanged(*old(self), *final(self)),
    {
        let n = data_being_added.len();
        let available = self.data.len() - self.allocator.index;
        if n > available {
            return Err(CoreError::CapacityExceeded);
        }
        let data_at_index = self.allocator.index;
        let mut i: usize = 0;
        while i < n
            invariant
                old(self).wf(),
                n == data_being_added@.len(),
                n <= old(self).remaining(),
                i <= n,
                self.allocator.index == old(self).allocator.index + i,
                self.occupied == self.allocator.index,
                self.max_usage == old(self).max_usage,
                self.allocator.capacity == old(self).allocator.capacity,
                self.data@.len() == old(self).data@.len(),
                forall|j: int|
                    0 <= j < old(self).allocator.index ==> self.data@[j] == old(self).data@[j],
                forall|j: int|
                    0 <= j < i ==> self.data@[old(self).allocator.index + j]
                        == data_being_added@[j],
                forall|j: int|
                    old(self).allocator.index + i <= j < old(self).data@.len() ==> self.data@[j]
                        == old(self).data@[j],
            decreases n - i,
        {
            let idx = self.allocator.index;
            self.data[idx] = data_being_added[i];
            self.bump();
            i = i + 1;
        }
        self.note_peak();
        proof {
            if n == 0 {
                assert(self.data@ =~= old(self).data@);
            }
        }
        Ok(data_at_index)
    }

    /// Bulk free: returns the cursor and the occupancy count to zero in
    /// constant time. The buffer keeps its stale bytes and the high-water
    /// mark keeps its value; this is the only way occupancy ever shrinks.
    pub fn reset_storage(&mut self)
        requires
            old(self).wf(),
        ensures
            final(self).wf(),
            reset_post(*old(self), *final(self)),
    {
        self.occupied = 0;
        self.allocator.index = 0;
    }
}

/// A growable bump arena, the overflow escape valve for runs that a fixed
/// arena refuses. The buffer grows as bytes arrive; there is no reset, so the
/// high-water mark always equals the occupancy. The only failure is a refused
/// memory reservation, surfaced as `ResourceExhausted` with the block left
/// untouched.
pub struct HeapStorageBlock {
    /// The backing buffer; exactly the bytes stored so far, in order.
    pub data: Vec<u8>,
    /// Bytes currently allocated; always equal to the cursor offset.
    pub occupied: usize,
    /// High-water mark of `occupied`; with no reset it never trails it.
    pub max_usage: usize,
    /// The cursor; it carries no capacity bound.
    pub allocator: Allocator,
}

impl HeapStorageBlock {
    /// The structural invariant every operation preserves.
    pub open spec fn wf(self) -> bool {
        &&& self.allocator.capacity is None
        &&& self.allocator.index == self.data.len()
        &&& self.occupied == self.allocator.index
        &&& self.max_usage == self.occupied
    }

    /// Constructs an empty block with the default reservation.
    pub fn new() -> (b: HeapStorageBlock)
        ensures
            b.wf(),
            b.data@.len() == 0,
            b.allocator.index == 0,
            b.occupied == 0,
            b.max_usage == 0,
    {
        HeapStorageBlock {
            data: Vec::with_capacity(DEFAULT_HEAPBLOCK_SIZE),
            occupied: 0,
            max_usage: 0,
            allocator: Allocator { index: 0, capacity: None },
        }
    }

    /// Advances the cursor, the occupancy and the high-water mark by one.
    fn bump(&mut self)
        requires
            old(self).allocator.index < usize::MAX,
            old(self).occupied == old(self).allocator.index,
            old(self).max_usage == old(self).occupied,
        ensures
            final(self).allocator.index == old(self).allocator.index + 1,
            final(self).occupied == old(self).occupied + 1,
            final(self).max_usage == old(self).max_usage + 1,
            final(self).data == old(self).data,
            final(self).allocator.capacity == old(self).allocator.capacity,
    {
        self.allocator.index = self.allocator.index + 1;
        self.occupied = self.occupied + 1;
        self.max_usage = self.max_usage + 1;
    }

    /// Appends one byte and returns its offset as the allocation's address.
    /// Fails only when the buffer cannot reserve room for it; the block is
    /// then left untouched.
    pub fn add_byte(&mut self, data_being_added: &u8) -> (r: Result<usize, CoreError>)
        requires
            old(self).wf(),
        ensures
            final(self).wf(),
            r matches Ok(addr) ==> heap_store_success(*old(self), *final(self), seq![
                *data_being_added,
            ], addr),
            r matches Err(e) ==> e == CoreError::ResourceExhausted && heap_store_unchanged(
                *old(self),
                *final(self),
            ),
    {
        match self.data.try_reserve(1) {
            Ok(_) => {},
            Err(_) => {
                return Err(CoreError::ResourceExhausted);
            },
        }
        let data_at_index = self.allocator.index;
        self.data.push(*data_being_added);
        proof {
            assert(self.data.len() == self.data@.len());
            assert(self.data@ =~= old(self).data@ + seq![*data_being_added]);
        }
        self.bump();
        Ok(data_at_index)
    }

    /// Appends a whole run contiguously and returns the address of its first
    /// byte. The needed room is reserved up front, so the call is atomic:
    /// either the whole run is stored or, when the reservation is refused,
    /// the block is left untouched and the caller gets `ResourceExhausted`.
    pub fn add_byte_vec(&mut self, data_being_added: &Vec<u8>) -> (r: Result<usize, CoreError>)
        requires
            old(self).wf(),
        ensures
            final(self).wf(),
            r matches Ok(addr) ==> heap_store_success(
                *old(self),
                *final(self),
                data_being_added@,
                addr,
            ),
            r matches Err(e) ==> e == CoreError::ResourceExhausted && heap_store_unchanged(
                *old(self),
                *final(self),
            ),
    {
        let n = data_being_added.len();
        match self.data.try_reserve(n) {
            Ok(_) => {},
            Err(_) => {
                return Err(CoreError::ResourceExhausted);
            },
        }
        let data_at_index = self.allocator.index;
        let mut i: usize = 0;
        while i < n
            invariant
                n == data_being_added@.len(),
                i <= n,
                self.wf(),
                data_at_index == old(self).allocator.index,
                self.data@ == old(self).data@ + data_being_added@.take(i as int),
            decreases n - i,
        {
            self.data.push(data_being_added[i]);
            proof {
                assert(self.data.len() == self.data@.len());
                assert(self.data@ =~= old(self).data@ + data_being_added@.take(i + 1));
            }
            self.bump();
            i = i + 1;
        }
        proof {
            assert(data_being_added@.take(n as int) =~= data_being_added@);
        }
        Ok(data_at_index)
    }
}

/// Exactly what a successful append of `bytes` at address `addr` does to a
/// growable block: the address is the old cursor offset, the run lands at the
/// end of the buffer, and cursor, occupancy and high-water mark advance
/// together by the run's length.
pub open spec fn heap_store_success(
    pre: HeapStorageBlock,
    post: HeapStorageBlock,
    bytes: Seq<u8>,
    addr: usize,
) -> bool {
    &&& addr == pre.allocator.index
    &&& post.data@ == pre.data@ + bytes
    &&& post.allocator.index == pre.allocator.index + bytes.len()
    &&& post.occupied == post.allocator.index
    &&& post.max_usage == post.occupied
    &&& post.allocator.capacity == pre.allocator.capacity
}

/// A refused append leaves every observable field of the block as it was.
pub open spec fn heap_store_unchanged(pre: HeapStorageBlock, post: HeapStorageBlock) -> bool {
    &&& post.data@ == pre.data@
    &&& post.occupied == pre.occupied
    &&& post.max_usage == pre.max_usage
    &&& post.allocator.index == pre.allocator.index
    &&& post.allocator.capacity == pre.allocator.capacity
}

/// Exactly what a successful allocation of `bytes` at address `addr` does to
/// a fixed arena: the address is the old cursor offset, the cursor and the
/// occupancy advance by the run's length, the high-water mark rises to the
/// new occupancy where needed, the run sits at `addr`, and every byte outside
/// the run is untouched.
pub open spec fn store_success(
    pre: TemporaryStorage,
    post: TemporaryStorage,
    bytes: Seq<u8>,
    addr: usize,
) -> bool {
    &&& addr == pre.allocator.index
    &&& post.allocator.index == pre.allocator.index + bytes.len()
    &&& post.occupied == post.allocator.index
    &&& post.max_usage == (if pre.max_usage >= post.occupied {
        pre.max_usage
    } else {
        post.occupied
    })
    &&& post.allocator.capacity == pre.allocator.capacity
    &&& post.data@.len() == pre.data@.len()
    &&& (forall|j: int| 0 <= j < pre.allocator.index ==> post.data@[j] == pre.data@[j])
    &&& (forall|j: int| 0 <= j < bytes.len() ==> post.data@[pre.allocator.index + j] == bytes[j])
    &&& (forall|j: int|
        pre.allocator.index + bytes.len() <= j < pre.data@.len() ==> post.data@[j]
            == pre.data@[j])
}

/// A refused or empty allocation leaves every observable field as it was.
pub open spec fn store_unchanged(pre: TemporaryStorage, post: TemporaryStorage) -> bool {
    &&& post.data@ == pre.data@
    &&& post.occupied == pre.occupied
    &&& post.max_usage == pre.max_usage
    &&& post.allocator.index == pre.allocator.index
    &&& post.allocator.capacity == pre.allocator.capacity
}

/// Exactly what a bulk reset does: cursor and occupancy return to zero while
/// the buffer contents, the capacity and the high-water mark stay put.
pub open spec fn reset_post(pre: TemporaryStorage, post: TemporaryStorage) -> bool {
    &&& post.allocator.index == 0
    &&& post.occupied == 0
    &&& post.max_usage == pre.max_usage
    &&& post.data@ == pre.data@
    &&& post.allocator.capacity == pre.allocator.capacity
}

/// Sum of the lengths of the byte runs in `chunks`.
pub open spec fn total_len(chunks: Seq<Seq<u8>>) -> int
    decreases chunks.len(),
{
    if chunks.len() == 0 {
        0
    } else {
        total_len(chunks.drop_last()) + chunks.last().len()
    }
}

proof fn lemma_total_len_take_step(chunks: Seq<Seq<u8>>, k: int)
    requires
        0 < k <= chunks.len(),
    ensures
        total_len(chunks.take(k)) == total_len(chunks.take(k - 1)) + chunks[k - 1].len(),
{
    assert(chunks.take(k).drop_last() =~= chunks.take(k - 1));
    assert(chunks.take(k).last() == chunks[k - 1]);
}

proof fn lemma_total_len_take_monotone(chunks: Seq<Seq<u8>>, a: int, b: int)
    requires
        0 <= a <= b <= chunks.len(),
    ensures
        total_len(chunks.take(a)) <= total_len(chunks.take(b)),
    decreases b - a,
{
    if a < b {
        lemma_total_len_take_monotone(chunks, a, b - 1);
        lemma_total_len_take_step(chunks, b);
    }
}

proof fn lemma_address_is_cumulative(
    states: Seq<TemporaryStorage>,
    chunks: Seq<Seq<u8>>,
    addrs: Seq<usize>,
    k: int,
)
    requires
        states.len() == chunks.len() + 1,
        addrs.len() == chunks.len(),
        forall|m: int|
            0 <= m < chunks.len() ==> store_success(states[m], states[m + 1], chunks[m], addrs[m]),
        0 <= k < chunks.len(),
    ensures
        addrs[k] == states[0].allocator.index + total_len(chunks.take(k)),
    decreases k,
{
    if k == 0 {
        assert(store_success(states[0], states[1], chunks[0], addrs[0]));
        assert(chunks.take(0) =~= Seq::<Seq<u8>>::empty());
    } else {
        lemma_address_is_cumulative(states, chunks, addrs, k - 1);
        lemma_total_len_take_step(chunks, k);
        assert(store_success(states[k - 1], states[k], chunks[k - 1], addrs[k - 1]));
        assert(store_success(states[k], states[k + 1], chunks[k], addrs[k]));
    }
}

/// Law: across any run of successful allocations on a fixed arena — single
/// bytes count as runs of length one — each returned address equals the
/// cumulative byte count stored before that call, the stored runs occupy
/// pairwise disjoint byte ranges, and as long as no run is empty the
/// addresses are strictly increasing.
pub proof fn lemma_allocation_run_is_sequential(
    states: Seq<TemporaryStorage>,
    chunks: Seq<Seq<u8>>,
    addrs: Seq<usize>,
)
    requires
        states.len() == chunks.len() + 1,
        addrs.len() == chunks.len(),
        forall|m: int|
            0 <= m < chunks.len() ==> store_success(states[m], states[m + 1], chunks[m], addrs[m]),
    ensures
        forall|m: int|
            0 <= m < chunks.len() ==> addrs[m] == states[0].allocator.index + total_len(
                chunks.take(m),
            ),
        forall|j: int, m: int|
            0 <= j < m < chunks.len() ==> addrs[j] + chunks[j].len() <= addrs[m],
        forall|j: int, m: int|
            0 <= j < m < chunks.len() && chunks[j].len() > 0 ==> addrs[j] < addrs[m],
{
    assert forall|m: int| 0 <= m < chunks.len() implies addrs[m] == states[0].allocator.index
        + total_len(chunks.take(m)) by {
        lemma_address_is_cumulative(states, chunks, addrs, m);
    }
    assert forall|j: int, m: int| 0 <= j < m < chunks.len() implies addrs[j] + chunks[j].len()
        <= addrs[m] by {
        lemma_address_is_cumulative(states, chunks, addrs, j);
        lemma_address_is_cumulative(states, chunks, addrs, m);
        lemma_total_len_take_step(chunks, j + 1);
        lemma_total_len_take_monotone(chunks, j + 1, m);
    }
}

/// Law: a bulk reset always yields a zero occupancy and a zero cursor,
/// whatever the prior state, and doing it twice is the same as doing it
/// once — the second reset changes nothing observable.
pub proof fn lemma_reset_idempotent(
    s0: TemporaryStorage,
    s1: TemporaryStorage,
    s2: TemporaryStorage,
)
    requires
        reset_post(s0, s1),
        reset_post(s1, s2),
    ensures
        s1.occupied == 0 && s2.occupied == 0,
        s1.allocator.index == 0 && s2.allocator.index == 0,
        s2.data@ == s1.data@,
        s2.max_usage == s1.max_usage,
        s2.allocator.capacity == s1.allocator.capacity,
{
}

/// Law: immediately after a bulk reset, the next successful allocation is
/// placed at address zero.
pub proof fn lemma_reset_then_allocate_at_zero(
    s0: TemporaryStorage,
    s1: TemporaryStorage,
    s2: TemporaryStorage,
    bytes: Seq<u8>,
    addr: usize,
)
    requires
        reset_post(s0, s1),
        store_success(s1, s2, bytes, addr),
    ensures
        addr == 0,
{
}

} // verus!
