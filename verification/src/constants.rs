//! Bit layout of the 64-bit status word.
//!
//! Byte 0 : current slice index (one bit used)
//! Byte 1 : unused padding
//! Bytes 2-3 : slice 1 use count
//! Byte 4 : unused padding
//! Bytes 5-6 : slice 2 use count
//! Byte 7 : unused padding
//!
//! This provides 1 byte for the current slice and 2 bytes for each slice's
//! use count. More slices could be accommodated by trading off the maximum
//! number of simultaneous reads and the amount of padding.

use vstd::prelude::*;

verus! {

/// Mask selecting the current-slice bit.
pub const CURRENT_SLICE_MASK: u64 = 0x1;

/// One unit of slice 1's use count.
pub const SLICE_1_INC: u64 = 0x00_0000_00_0001_00_00;

/// One unit of slice 2's use count.
pub const SLICE_2_INC: u64 = 0x00_0001_00_0000_00_00;

/// Every bit that a well-formed status word may have set.
pub const VALID_STATUS_MASK: u64 = 0x00_FFFF_00_FFFF_00_01;

/// One unit of each slice's use count, added in a single operation.
pub const INC_ALL_SLICES: u64 = SLICE_1_INC | SLICE_2_INC;

/// Largest value either use count may take: the counts are 16-bit fields.
pub const MAX_USE_COUNT: u64 = 0xFFFF;

} // verus!
