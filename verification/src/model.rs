//! Mathematical model of the container and its protocol.
//!
//! [`SliceModel`] is the abstract state an [`crate::AtomicSlice`] denotes:
//! the two generations' contents, the stride, the decoded status-word fields
//! and the write gate. The spec functions here are the protocol's steps at
//! that level, and the proof functions state the laws the protocol obeys.

use vstd::prelude::*;

verus! {

/// Abstract state of an atomic slice: two generations of `stride` elements,
/// the decoded status-word fields, and the write gate.
pub struct SliceModel<T> {
    /// Contents of the slice with index 0.
    pub slice_1: Seq<T>,
    /// Contents of the slice with index 1.
    pub slice_2: Seq<T>,
    /// Element count of each generation, fixed at construction.
    pub stride: nat,
    /// Index of the generation new reads lease: 0 or 1.
    pub current: int,
    /// Outstanding leases against the slice with index 0.
    pub count_1: nat,
    /// Outstanding leases against the slice with index 1.
    pub count_2: nat,
    /// Whether a writer holds the write gate.
    pub writing: bool,
}

impl<T> SliceModel<T> {
    /// Contents of the generation with index `slice`.
    pub open spec fn generation(self, slice: int) -> Seq<T> {
        if slice == 0 {
            self.slice_1
        } else {
            self.slice_2
        }
    }

    /// Outstanding-lease count of the generation with index `slice`.
    pub open spec fn use_count(self, slice: int) -> nat {
        if slice == 0 {
            self.count_1
        } else {
            self.count_2
        }
    }

    /// Index of the inactive generation, the complement of the current one.
    pub open spec fn inactive(self) -> int {
        1 - self.current
    }

    /// Contents of the generation a read beginning now would lease.
    pub open spec fn current_data(self) -> Seq<T> {
        self.generation(self.current)
    }

    /// Well-formedness: both generations hold exactly `stride` elements,
    /// exactly one generation is current, and each use count fits its
    /// 16-bit status-word field.
    pub open spec fn wf(self) -> bool {
        &&& self.slice_1.len() == self.stride
        &&& self.slice_2.len() == self.stride
        &&& self.current == 0 || self.current == 1
        &&& self.count_1 <= 0xFFFF
        &&& self.count_2 <= 0xFFFF
    }

    /// State after a read acquires its lease: the current generation's use
    /// count rises by one and nothing else changes. The protocol reaches
    /// this by incrementing both counts at once and then undoing the claim
    /// on the inactive generation.
    pub open spec fn lease_acquired(self) -> SliceModel<T> {
        if self.current == 0 {
            SliceModel { count_1: self.count_1 + 1, ..self }
        } else {
            SliceModel { count_2: self.count_2 + 1, ..self }
        }
    }

    /// State after the lease bound to the generation with index `slice` is
    /// released: that use count falls by one and nothing else changes.
    pub open spec fn lease_released(self, slice: int) -> SliceModel<T> {
        if slice == 0 {
            SliceModel { count_1: (self.count_1 - 1) as nat, ..self }
        } else {
            SliceModel { count_2: (self.count_2 - 1) as nat, ..self }
        }
    }

    /// State after a completed write of `data`: the inactive generation is
    /// overwritten with `data` and republished as current in one step; use
    /// counts are untouched and the write gate is free again.
    pub open spec fn written(self, data: Seq<T>) -> SliceModel<T> {
        if self.current == 0 {
            SliceModel { slice_2: data, current: 1, ..self }
        } else {
            SliceModel { slice_1: data, current: 0, ..self }
        }
    }

    /// Whether the write gate can be acquired now.
    pub open spec fn gate_free(self) -> bool {
        !self.writing
    }

    /// State after a writer acquires the write gate.
    pub open spec fn gate_acquired(self) -> SliceModel<T> {
        SliceModel { writing: true, ..self }
    }

    /// State after the holder releases the write gate.
    pub open spec fn gate_released(self) -> SliceModel<T> {
        SliceModel { writing: false, ..self }
    }
}

/// A write publishes its data whole: immediately after `written(data)`, the
/// current generation — the one every later read leases — is exactly `data`,
/// and the previously current generation is untouched, so a lease taken
/// before the write still sees that older data unchanged. A read therefore
/// never observes a mixture of two writes' contents.
pub proof fn law_publication_is_whole<T>(m: SliceModel<T>, data: Seq<T>)
    requires
        m.wf(),
        data.len() == m.stride,
    ensures
        m.written(data).current == m.inactive(),
        m.written(data).current_data() == data,
        m.written(data).generation(m.current) == m.generation(m.current),
        m.written(data).wf(),
{
}

/// Round trip: a write of `data` followed by a read with no write in
/// between yields exactly `data`, since reads lease the current generation
/// and change no generation's contents.
pub proof fn law_write_read_round_trip<T>(m: SliceModel<T>, data: Seq<T>)
    requires
        m.wf(),
        data.len() == m.stride,
    ensures
        m.written(data).current_data() == data,
        m.written(data).lease_acquired().current_data() == data,
{
}

/// Mutual exclusion of writers: once one writer has acquired the write
/// gate, no second acquisition can succeed until that writer releases it,
/// so at most one write proceeds past gate acquisition at any instant.
pub proof fn law_gate_is_exclusive<T>(m: SliceModel<T>)
    requires
        m.gate_free(),
    ensures
        !m.gate_acquired().gate_free(),
        m.gate_acquired().gate_released().gate_free(),
{
}

/// No generation is overwritten while a lease over it is outstanding: a
/// write completes only once the inactive generation has drained, so a
/// generation with a positive use count must be the current one, which a
/// write never touches.
pub proof fn law_no_overwrite_while_leased<T>(m: SliceModel<T>, data: Seq<T>, slice: int)
    requires
        m.wf(),
        slice == 0 || slice == 1,
        m.use_count(slice) > 0,
        m.use_count(m.inactive()) == 0,
        data.len() == m.stride,
    ensures
        m.written(data).generation(slice) == m.generation(slice),
{
}

/// Lease bookkeeping is harmless to everything else: acquiring or releasing
/// a lease changes only the affected use count. The generations' contents,
/// the current-generation selector and the write gate are untouched, and the
/// state stays well-formed — so leaked leases (never released) cannot
/// corrupt the status word for unrelated later reads and writes, and a
/// release never disturbs the other generation's accounting.
pub proof fn law_lease_ops_touch_only_counts<T>(m: SliceModel<T>, slice: int)
    requires
        m.wf(),
        slice == 0 || slice == 1,
    ensures
        m.use_count(m.current) < 0xFFFF ==> m.lease_acquired().wf(),
        m.lease_acquired().slice_1 == m.slice_1,
        m.lease_acquired().slice_2 == m.slice_2,
        m.lease_acquired().current == m.current,
        m.lease_acquired().writing == m.writing,
        m.lease_acquired().use_count(m.inactive()) == m.use_count(m.inactive()),
        m.use_count(slice) > 0 ==> {
            &&& m.lease_released(slice).wf()
            &&& m.lease_released(slice).slice_1 == m.slice_1
            &&& m.lease_released(slice).slice_2 == m.slice_2
            &&& m.lease_released(slice).current == m.current
            &&& m.lease_released(slice).writing == m.writing
            &&& m.lease_released(slice).use_count(1 - slice) == m.use_count(1 - slice)
        },
{
}

} // verus!
