//! `AtomicSlice<T>` is a fixed-length container of arbitrary data that is as
//! fast as possible to read while still being writable: a write replaces the
//! whole array at once, and a read leases a fully written generation without
//! ever observing a partial update.
//!
//! Internally the container owns two equal-length generations of storage.
//! During typical usage one of these is being read while the other is
//! available for writing. After a write the two generations switch roles:
//! new readers see the freshly written data immediately, while existing
//! leases guard the stale generation until they are released.
//!
//! A packed status word tracks which generation is current and how many
//! leases are outstanding against each; the write gate serializes writers.
//! This crate verifies the protocol over a single thread of execution: every
//! status-word transition, the generation bookkeeping, and the data each
//! operation exposes are stated in contracts and proved.

use vstd::prelude::*;

pub mod constants;
pub mod model;
pub mod status;

use crate::model::SliceModel;
use crate::status::{
    current_slice, decrement_use_count, flip_current_slice, increment_all_use_counts,
    slice_use_count, spec_current_slice, spec_slice_1_use_count, spec_slice_2_use_count,
    spec_valid_status,
};

verus! {

/// Error returned by a failed [`AtomicSlice::write`].
#[derive(Clone, Copy, Debug, PartialEq, Eq)]
pub enum AtomicSliceError {
    /// The data handed to `write` does not have the slice's length.
    LengthMismatch,
}

/// A fixed-length slice of data optimized for many concurrent reads and
/// occasional whole-array writes.
///
/// The container owns two generations of storage, each holding exactly
/// [`AtomicSlice::len`] elements. A read leases whichever generation the
/// status word marks as current; a write fills the inactive generation and
/// republishes it as current by flipping a single bit, so a reader never
/// sees a partially updated array.
///
/// The abstract state is a [`SliceModel`], reached through `@`; every
/// operation's contract states its effect as a step on that model.
pub struct AtomicSlice<T> {
    slice_1: Vec<T>,
    slice_2: Vec<T>,
    stride: usize,
    status: u64,
    currently_writing: bool,
}

/// A lease representing read-only access to one generation of an
/// [`AtomicSlice`]. It must be handed back exactly once, to
/// [`AtomicSlice::release`]; while it is outstanding, the generation it is
/// bound to is never overwritten. In situations of high load where write
/// throughput matters, a lease should not be held for long.
pub struct AtomicSliceReadGuard<T> {
    current_slice: u8,
    contents: Ghost<Seq<T>>,
}

impl<T> AtomicSliceReadGuard<T> {
    /// Index of the generation this lease is bound to.
    pub closed spec fn slice_index(self) -> int {
        self.current_slice as int
    }

    /// The elements the lease was taken over.
    pub closed spec fn contents(self) -> Seq<T> {
        self.contents@
    }
}

impl<T> View for AtomicSlice<T> {
    type V = SliceModel<T>;

    closed spec fn view(&self) -> SliceModel<T> {
        SliceModel {
            slice_1: self.slice_1@,
            slice_2: self.slice_2@,
            stride: self.stride as nat,
            current: spec_current_slice(self.status) as int,
            count_1: spec_slice_1_use_count(self.status) as nat,
            count_2: spec_slice_2_use_count(self.status) as nat,
            writing: self.currently_writing,
        }
    }
}

impl<T> AtomicSlice<T> {
    /// Structural invariant: the status word has no undefined bit set, both
    /// generations hold exactly `stride` elements, and — the container being
    /// driven by one thread of execution at a time — the write gate is free
    /// between calls.
    pub closed spec fn inv(self) -> bool {
        &&& spec_valid_status(self.status)
        &&& self.slice_1@.len() == self.stride
        &&& self.slice_2@.len() == self.stride
        &&& !self.currently_writing
    }

    /// The structural invariant bounds the abstract state: a container that
    /// satisfies [`AtomicSlice::inv`] denotes a well-formed model with a
    /// free write gate.
    pub proof fn lemma_inv_implies_wf(self)
        requires
            self.inv(),
        ensures
            self@.wf(),
            self@.gate_free(),
    {
        let status = self.status;
        assert(status & !0x00_FFFF_00_FFFF_00_01u64 == 0 ==> {
            &&& status & 0x1 <= 1
            &&& (status >> 16) & 0xFFFF <= 0xFFFF
            &&& (status >> 40) & 0xFFFF <= 0xFFFF
        }) by (bit_vector);
    }
}

impl<T: Default + Copy> AtomicSlice<T> {
    /// Create a new `AtomicSlice` from a vector of data. The `AtomicSlice`
    /// will have the length of this vector for its entire lifetime: the
    /// vector seeds the first generation, and the mirror generation is
    /// filled with default-constructed elements. The status word starts at
    /// zero — generation 0 current, no outstanding leases — and the write
    /// gate starts free.
    pub fn new(data: Vec<T>) -> (result: AtomicSlice<T>)
        ensures
            result.inv(),
            result@.stride == data@.len(),
            result@.slice_1 == data@,
            result@.slice_2.len() == data@.len(),
            result@.current == 0,
            result@.count_1 == 0,
            result@.count_2 == 0,
            result@.gate_free(),
    {
        let stride = data.len();
        let mut mirror: Vec<T> = Vec::new();
        while mirror.len() < stride
            invariant
                mirror@.len() <= stride,
            decreases stride - mirror@.len(),
        {
            mirror.push(T::default());
        }
        proof {
            assert(0u64 & !0x00_FFFF_00_FFFF_00_01u64 == 0 && 0u64 & 0x1 == 0
                && (0u64 >> 16) & 0xFFFF == 0 && (0u64 >> 40) & 0xFFFF == 0) by (bit_vector);
        }
        AtomicSlice {
            slice_1: data,
            slice_2: mirror,
            stride,
            status: 0,
            currently_writing: false,
        }
    }

    /// Get the number of elements in each generation.
    pub fn len(&self) -> (length: usize)
        ensures
            length == self@.stride,
    {
        self.stride
    }

    /// Acquire a read lease on the slice. Never blocks and never fails: the
    /// lease is bound to whichever generation is current at the moment of
    /// the call, and that generation's use count rises by one — nothing else
    /// changes. The lease must be handed back to [`AtomicSlice::release`]
    /// exactly once.
    ///
    /// The protocol increments both use counts in a single operation while
    /// taking the pre-increment snapshot, so there is no gap between
    /// observing the current generation and registering interest in it; the
    /// speculative claim on the other generation is then undone. Each use
    /// count is a 16-bit field, so the caller may not hold more than 65535
    /// leases over one generation at a time.
    pub fn read(&mut self) -> (guard: AtomicSliceReadGuard<T>)
        requires
            old(self).inv(),
            old(self)@.count_1 < 0xFFFF,
            old(self)@.count_2 < 0xFFFF,
        ensures
            final(self).inv(),
            final(self)@ == old(self)@.lease_acquired(),
            guard.slice_index() == old(self)@.current,
            guard.contents() == old(self)@.current_data(),
    {
        proof {
            old(self).lemma_inv_implies_wf();
        }
        // Get the current slice index while also marking all slices as in use.
        let snapshot = self.status;
        self.status = increment_all_use_counts(snapshot);

        let current = current_slice(snapshot);

        // Now that the current slice is known, undo the claim on the other.
        let other: u8 = if current == 0 { 1 } else { 0 };
        self.status = decrement_use_count(self.status, other);

        let ghost contents = if current == 0 { self.slice_1@ } else { self.slice_2@ };
        AtomicSliceReadGuard { current_slice: current, contents: Ghost(contents) }
    }

    /// Borrow the elements a lease is bound to: exactly `len` elements, all
    /// belonging to the one generation the lease was taken over.
    pub fn leased<'a>(&'a self, guard: &AtomicSliceReadGuard<T>) -> (data: &'a [T])
        requires
            self.inv(),
            guard.slice_index() == 0 || guard.slice_index() == 1,
        ensures
            data@ == self@.generation(guard.slice_index()),
            data@.len() == self@.stride,
    {
        if guard.current_slice == 0 {
            self.slice_1.as_slice()
        } else {
            self.slice_2.as_slice()
        }
    }

    /// Release a read lease, decrementing the use count of the generation
    /// it is bound to; nothing else changes. Taking the lease by value makes
    /// the release happen at most once per lease; a lease that is leaked
    /// instead merely keeps its generation's count raised and corrupts
    /// nothing.
    pub fn release(&mut self, guard: AtomicSliceReadGuard<T>)
        requires
            old(self).inv(),
            guard.slice_index() == 0 || guard.slice_index() == 1,
            old(self)@.use_count(guard.slice_index()) > 0,
        ensures
            final(self).inv(),
            final(self)@ == old(self)@.lease_released(guard.slice_index()),
    {
        self.status = decrement_use_count(self.status, guard.current_slice);
    }

    /// One attempt at the write gate, the model of a compare-and-swap from
    /// unlocked to locked: it succeeds exactly when the write gate is free, and on
    /// success the caller holds it.
    fn try_acquire_write_gate(&mut self) -> (acquired: bool)
        ensures
            acquired == old(self)@.gate_free(),
            acquired ==> final(self)@ == old(self)@.gate_acquired(),
            !acquired ==> *final(self) == *old(self),
            final(self).status == old(self).status,
            final(self).slice_1 == old(self).slice_1,
            final(self).slice_2 == old(self).slice_2,
            final(self).stride == old(self).stride,
    {
        if !self.currently_writing {
            self.currently_writing = true;
            true
        } else {
            false
        }
    }

    /// Hand the write gate back. Only its holder does this.
    fn release_write_gate(&mut self)
        requires
            old(self)@.writing,
        ensures
            final(self)@ == old(self)@.gate_released(),
            final(self).status == old(self).status,
            final(self).slice_1 == old(self).slice_1,
            final(self).slice_2 == old(self).slice_2,
            final(self).stride == old(self).stride,
            !final(self).currently_writing,
    {
        self.currently_writing = false;
    }

    /// Write a whole array of new data. The data must have the same length
    /// as the `AtomicSlice` itself; otherwise the call is rejected with
    /// [`AtomicSliceError::LengthMismatch`] and nothing is mutated, leaving
    /// the structure usable.
    ///
    /// The write fills the inactive generation and then republishes it as
    /// current in a single status-word flip, so the data is never partially
    /// applied: use counts and the previously current generation's contents
    /// are untouched. Against concurrent gate holders and readers still
    /// leasing the inactive generation, the protocol busy-waits; under a
    /// single thread of execution no such wait can end, so a write of
    /// matching length demands that the inactive generation has already
    /// drained (the write gate is free between calls by the invariant).
    pub fn write(&mut self, data: &[T]) -> (result: Result<(), AtomicSliceError>)
        requires
            old(self).inv(),
            data@.len() == old(self)@.stride ==> old(self)@.use_count(old(self)@.inactive())
                == 0,
        ensures
            final(self).inv(),
            result is Ok <==> data@.len() == old(self)@.stride,
            data@.len() == old(self)@.stride ==> final(self)@ == old(self)@.written(data@),
            data@.len() != old(self)@.stride ==> result == Err::<(), AtomicSliceError>(
                AtomicSliceError::LengthMismatch,
            ) && *final(self) == *old(self),
    {
        let stride = self.stride;
        if data.len() != stride {
            return Err(AtomicSliceError::LengthMismatch);
        }

        proof {
            old(self).lemma_inv_implies_wf();
        }

        // Wait for exclusive access to the write portion. Concurrent
        // writers would busy-wait here; the write gate being free, the first
        // attempt succeeds.
        let acquired = self.try_acquire_write_gate();
        assert(acquired);

        // Load the current status and compute the inactive slice index.
        let snapshot = self.status;
        let current = current_slice(snapshot);
        let next: u8 = if current == 0 { 1 } else { 0 };

        // The inactive slice may only be overwritten once it has drained of
        // readers. Concurrent readers holding stale leases would be
        // busy-waited out here; the count is already zero.
        let in_use = slice_use_count(next, self.status);
        assert(in_use == 0);

        // Copy the data into the inactive slice.
        if next == 0 {
            copy_into(&mut self.slice_1, data);
        } else {
            copy_into(&mut self.slice_2, data);
        }

        // Point all new readers to the freshly written slice: the single
        // publication point.
        self.status = flip_current_slice(self.status);

        // Release exclusive access to the write portion.
        self.release_write_gate();

        Ok(())
    }
}

/// Overwrite `target` element by element with the contents of `data`.
fn copy_into<T: Copy>(target: &mut Vec<T>, data: &[T])
    requires
        old(target)@.len() == data@.len(),
    ensures
        final(target)@ == data@,
{
    let count = data.len();
    let mut index: usize = 0;
    while index < count
        invariant
            index <= count,
            count == data@.len(),
            target@.len() == data@.len(),
            forall|j: int| 0 <= j < index ==> target@[j] == data@[j],
        decreases count - index,
    {
        let value = *vstd::slice::slice_index_get(data, index);
        target.set(index, value);
        index = index + 1;
    }
    proof {
        assert(target@ =~= data@);
    }
}

} // verus!
