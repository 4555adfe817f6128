//! Decoding of and transitions on the packed status word.
//!
//! The status word is a single 64-bit integer holding three fields: the
//! current-slice selector bit and one bounded use count per slice (see
//! [`crate::constants`] for the exact layout). Each function here is the
//! pure effect of one step of the read/write protocols on that word.

use vstd::prelude::*;

use crate::constants::{
    CURRENT_SLICE_MASK, INC_ALL_SLICES, MAX_USE_COUNT, SLICE_1_INC, SLICE_2_INC, VALID_STATUS_MASK,
};

verus! {

/// Use count of slice 1 (the slice with index 0), as encoded in `status`.
pub open spec fn spec_slice_1_use_count(status: u64) -> u64 {
    (status >> 16) & 0xFFFF
}

/// Use count of slice 2 (the slice with index 1), as encoded in `status`.
pub open spec fn spec_slice_2_use_count(status: u64) -> u64 {
    (status >> 40) & 0xFFFF
}

/// Use count of the slice with index `slice`, as encoded in `status`.
pub open spec fn spec_slice_use_count(slice: u8, status: u64) -> u64 {
    if slice == 0 {
        spec_slice_1_use_count(status)
    } else {
        spec_slice_2_use_count(status)
    }
}

/// Index of the slice that `status` marks as current: 0 or 1.
pub open spec fn spec_current_slice(status: u64) -> u64 {
    status & CURRENT_SLICE_MASK
}

/// A status word is valid when no bit outside the defined fields is set.
pub open spec fn spec_valid_status(status: u64) -> bool {
    status & !VALID_STATUS_MASK == 0
}

/// Extract slice 1's use count from a status snapshot.
pub fn slice_1_use_count(status: u64) -> (count: u16)
    ensures
        count == spec_slice_1_use_count(status),
{
    proof {
        assert((((status >> 16) & 0xFFFF) as u16) as u64 == (status >> 16) & 0xFFFF)
            by (bit_vector);
    }
    ((status >> 16) & 0xFFFF) as u16
}

/// Extract slice 2's use count from a status snapshot.
pub fn slice_2_use_count(status: u64) -> (count: u16)
    ensures
        count == spec_slice_2_use_count(status),
{
    proof {
        assert((((status >> 40) & 0xFFFF) as u16) as u64 == (status >> 40) & 0xFFFF)
            by (bit_vector);
    }
    ((status >> 40) & 0xFFFF) as u16
}

/// Extract the use count of the slice with the given index.
pub fn slice_use_count(slice: u8, status: u64) -> (count: u16)
    requires
        slice == 0 || slice == 1,
    ensures
        count == spec_slice_use_count(slice, status),
{
    match slice {
        0 => slice_1_use_count(status),
        _ => slice_2_use_count(status),
    }
}

/// Extract the current-slice index from a status snapshot.
pub fn current_slice(status: u64) -> (slice: u8)
    ensures
        slice == spec_current_slice(status),
        slice == 0 || slice == 1,
{
    proof {
        assert(((status & 0x1) as u8) as u64 == status & 0x1 && status & 0x1 <= 1)
            by (bit_vector);
    }
    (status & CURRENT_SLICE_MASK) as u8
}

/// Diagnostic validity check: no undefined bit of the status word is set.
pub fn valid_status(status: u64) -> (valid: bool)
    ensures
        valid == spec_valid_status(status),
{
    (status & !VALID_STATUS_MASK) == 0
}

/// Effect of the read protocol's first step: increment both slices' use
/// counts in one operation. Valid in, valid out; the current slice is
/// unchanged.
pub fn increment_all_use_counts(status: u64) -> (updated: u64)
    requires
        spec_valid_status(status),
        spec_slice_1_use_count(status) < MAX_USE_COUNT,
        spec_slice_2_use_count(status) < MAX_USE_COUNT,
    ensures
        spec_valid_status(updated),
        spec_slice_1_use_count(updated) == spec_slice_1_use_count(status) + 1,
        spec_slice_2_use_count(updated) == spec_slice_2_use_count(status) + 1,
        spec_current_slice(updated) == spec_current_slice(status),
{
    proof {
        assert(status & !0x00_FFFF_00_FFFF_00_01u64 == 0 && (status >> 16) & 0xFFFF < 0xFFFF
            && (status >> 40) & 0xFFFF < 0xFFFF ==> {
            let updated = (status + 0x00_0001_00_0001_00_00u64) as u64;
            &&& status + 0x00_0001_00_0001_00_00u64 <= u64::MAX
            &&& updated & !0x00_FFFF_00_FFFF_00_01u64 == 0
            &&& (updated >> 16) & 0xFFFF == ((status >> 16) & 0xFFFF) + 1
            &&& (updated >> 40) & 0xFFFF == ((status >> 40) & 0xFFFF) + 1
            &&& updated & 0x1 == status & 0x1
        }) by (bit_vector);
        assert(INC_ALL_SLICES == 0x00_0001_00_0001_00_00u64) by (bit_vector);
    }
    status + INC_ALL_SLICES
}

/// Effect of decrementing one slice's use count, as the read protocol does
/// when it releases its speculative claim on the non-current slice and when
/// a lease is released. Valid in, valid out; the other fields are unchanged.
pub fn decrement_use_count(status: u64, slice: u8) -> (updated: u64)
    requires
        slice == 0 || slice == 1,
        spec_valid_status(status),
        spec_slice_use_count(slice, status) > 0,
    ensures
        spec_valid_status(updated),
        spec_slice_use_count(slice, updated) == spec_slice_use_count(slice, status) - 1,
        spec_slice_use_count((1 - slice) as u8, updated) == spec_slice_use_count(
            (1 - slice) as u8,
            status,
        ),
        spec_current_slice(updated) == spec_current_slice(status),
{
    if slice == 0 {
        proof {
            assert(status & !0x00_FFFF_00_FFFF_00_01u64 == 0 && (status >> 16) & 0xFFFF > 0 ==> {
                let updated = (status - 0x00_0000_00_0001_00_00u64) as u64;
                &&& status >= 0x00_0000_00_0001_00_00u64
                &&& updated & !0x00_FFFF_00_FFFF_00_01u64 == 0
                &&& (updated >> 16) & 0xFFFF == ((status >> 16) & 0xFFFF) - 1
                &&& (updated >> 40) & 0xFFFF == (status >> 40) & 0xFFFF
                &&& updated & 0x1 == status & 0x1
            }) by (bit_vector);
        }
        status - SLICE_1_INC
    } else {
        proof {
            assert(status & !0x00_FFFF_00_FFFF_00_01u64 == 0 && (status >> 40) & 0xFFFF > 0 ==> {
                let updated = (status - 0x00_0001_00_0000_00_00u64) as u64;
                &&& status >= 0x00_0001_00_0000_00_00u64
                &&& updated & !0x00_FFFF_00_FFFF_00_01u64 == 0
                &&& (updated >> 40) & 0xFFFF == ((status >> 40) & 0xFFFF) - 1
                &&& (updated >> 16) & 0xFFFF == (status >> 16) & 0xFFFF
                &&& updated & 0x1 == status & 0x1
            }) by (bit_vector);
        }
        status - SLICE_2_INC
    }
}

/// Effect of the write protocol's publication step: flip the current-slice
/// bit. Valid in, valid out; both use counts are unchanged.
pub fn flip_current_slice(status: u64) -> (updated: u64)
    requires
        spec_valid_status(status),
    ensures
        spec_valid_status(updated),
        spec_current_slice(updated) == 1 - spec_current_slice(status),
        spec_slice_1_use_count(updated) == spec_slice_1_use_count(status),
        spec_slice_2_use_count(updated) == spec_slice_2_use_count(status),
{
    proof {
        assert(status & !0x00_FFFF_00_FFFF_00_01u64 == 0 ==> {
            let updated = status ^ 0x1;
            &&& updated & !0x00_FFFF_00_FFFF_00_01u64 == 0
            &&& updated & 0x1 == 1 - (status & 0x1)
            &&& (updated >> 16) & 0xFFFF == (status >> 16) & 0xFFFF
            &&& (updated >> 40) & 0xFFFF == (status >> 40) & 0xFFFF
        }) by (bit_vector);
    }
    status ^ CURRENT_SLICE_MASK
}

} // verus!
