//! Scenario tests of the read/write protocol: round trips, boundary sizes,
//! rejected writes, leases held across writes, leaked leases, and long
//! interleaved runs.

use atomic_slice::{AtomicSlice, AtomicSliceError};

#[test]
fn construction_and_len() {
    let slice = AtomicSlice::new(vec![7u8, 8, 9]);
    assert_eq!(slice.len(), 3);

    let empty = AtomicSlice::new(Vec::<u32>::new());
    assert_eq!(empty.len(), 0);
}

#[test]
fn read_returns_initial_data() {
    let mut slice = AtomicSlice::new(vec![10u32, 20, 30]);
    let guard = slice.read();
    assert_eq!(slice.leased(&guard), &[10, 20, 30]);
    slice.release(guard);
}

#[test]
fn write_read_round_trip() {
    let mut slice = AtomicSlice::new(vec![0u16; 4]);
    slice.write(&[4, 3, 2, 1]).unwrap();
    let guard = slice.read();
    assert_eq!(slice.leased(&guard), &[4, 3, 2, 1]);
    slice.release(guard);

    slice.write(&[9, 9, 8, 8]).unwrap();
    let guard = slice.read();
    assert_eq!(slice.leased(&guard), &[9, 9, 8, 8]);
    slice.release(guard);
}

#[test]
fn lease_survives_a_write_unchanged() {
    // A lease taken before a write keeps seeing the generation it was bound
    // to, unmodified; a lease taken after the write sees the new data.
    let mut slice = AtomicSlice::new(vec![1u8, 1, 1]);
    let old_guard = slice.read();
    slice.write(&[2, 2, 2]).unwrap();
    assert_eq!(slice.leased(&old_guard), &[1, 1, 1]);
    let new_guard = slice.read();
    assert_eq!(slice.leased(&new_guard), &[2, 2, 2]);
    assert_eq!(slice.leased(&old_guard), &[1, 1, 1]);
    slice.release(new_guard);
    slice.release(old_guard);

    // With the stale lease released, the next write may recycle its
    // generation, and reads move on to the newest data.
    slice.write(&[3, 3, 3]).unwrap();
    let guard = slice.read();
    assert_eq!(slice.leased(&guard), &[3, 3, 3]);
    slice.release(guard);
}

#[test]
fn overlapping_leases_on_one_generation() {
    let mut slice = AtomicSlice::new(vec![5u64, 6]);
    let first = slice.read();
    let second = slice.read();
    let third = slice.read();
    assert_eq!(slice.leased(&first), &[5, 6]);
    assert_eq!(slice.leased(&second), &[5, 6]);
    assert_eq!(slice.leased(&third), &[5, 6]);
    slice.release(second);
    slice.release(first);
    slice.release(third);
}

#[test]
fn leaked_lease_does_not_corrupt_later_calls() {
    // A lease that is never released only keeps its generation's use count
    // raised: later reads, and writes to the drained generation, behave
    // exactly as before.
    let mut slice = AtomicSlice::new(vec![1u8, 2]);
    let leaked = slice.read();
    drop(leaked);

    slice.write(&[3, 4]).unwrap();
    for _ in 0..100 {
        let guard = slice.read();
        assert_eq!(slice.leased(&guard), &[3, 4]);
        slice.release(guard);
    }
    assert_eq!(slice.len(), 2);
}

#[test]
fn wrong_length_write_is_rejected_without_mutation() {
    let mut slice = AtomicSlice::new(vec![1u8, 2, 3]);

    let too_short = slice.write(&[9, 9]);
    assert_eq!(too_short, Err(AtomicSliceError::LengthMismatch));
    let too_long = slice.write(&[9, 9, 9, 9]);
    assert_eq!(too_long, Err(AtomicSliceError::LengthMismatch));

    // Nothing was mutated and the structure remains usable.
    let guard = slice.read();
    assert_eq!(slice.leased(&guard), &[1, 2, 3]);
    slice.release(guard);
    slice.write(&[7, 8, 9]).unwrap();
    let guard = slice.read();
    assert_eq!(slice.leased(&guard), &[7, 8, 9]);
    slice.release(guard);
}

fn uniform_protocol_run(length: usize, iterations: usize) {
    let mut slice = AtomicSlice::new(vec![0u8; length]);
    let mut value: u8 = 0;
    for _ in 0..iterations {
        let buffer = vec![value; length];
        slice.write(&buffer).unwrap();
        let guard = slice.read();
        let data = slice.leased(&guard);
        assert_eq!(data.len(), length);
        for element in data {
            assert_eq!(*element, value);
        }
        slice.release(guard);
        value = value.wrapping_add(1);
    }
}

#[test]
fn boundary_single_element() {
    uniform_protocol_run(1, 1_000);
}

#[test]
fn boundary_large_stride() {
    uniform_protocol_run(256, 1_000);
}

#[test]
fn interleaved_readers_and_writers_long_run() {
    // Two writer roles and two reader roles, a million iterations each, over
    // sixteen single-byte elements. Each write fills all sixteen slots with
    // one monotonically increasing byte value; every read must observe all
    // sixteen bytes identical to each other.
    let length = 16;
    let iterations = 1_000_000;
    let mut slice = AtomicSlice::new(vec![0u8; length]);
    let mut next_value: u8 = 0;
    let mut buffer = vec![0u8; length];
    for _ in 0..iterations {
        for _writer in 0..2 {
            buffer.fill(next_value);
            next_value = next_value.wrapping_add(1);
            slice.write(&buffer).unwrap();
        }
        for _reader in 0..2 {
            let guard = slice.read();
            let data = slice.leased(&guard);
            assert_eq!(data.len(), length);
            let first = data[0];
            for element in data {
                assert_eq!(first, *element);
            }
            slice.release(guard);
        }
    }
}

fn uniformity_grid<T>()
where
    T: Default + Copy + From<u8> + PartialEq + std::fmt::Debug,
{
    for length in [1usize, 3, 16] {
        for num_readers in 1..=4 {
            for num_writers in 1..=4 {
                let mut slice = AtomicSlice::new(vec![T::default(); length]);
                let mut next_value: u8 = 0;
                let mut buffer = vec![T::default(); length];
                for _ in 0..10_000 {
                    for _writer in 0..num_writers {
                        buffer.fill(next_value.into());
                        next_value = next_value.wrapping_add(1);
                        slice.write(&buffer).unwrap();
                    }
                    for _reader in 0..num_readers {
                        let guard = slice.read();
                        let data = slice.leased(&guard);
                        assert_eq!(data.len(), length);
                        let first = data[0];
                        for element in data {
                            assert_eq!(first, *element);
                        }
                        slice.release(guard);
                    }
                }
            }
        }
    }
}

#[derive(Clone, Copy, PartialEq, Debug, Default)]
struct WidePayload {
    tag: u8,
    count: u32,
    offset: usize,
}

impl From<u8> for WidePayload {
    fn from(value: u8) -> WidePayload {
        WidePayload {
            tag: value,
            count: value.into(),
            offset: value.into(),
        }
    }
}

#[test]
fn uniformity_grid_single_byte() {
    uniformity_grid::<u8>();
}

#[test]
fn uniformity_grid_wide_integer() {
    uniformity_grid::<u64>();
}

#[test]
fn uniformity_grid_float() {
    uniformity_grid::<f64>();
}

#[test]
fn uniformity_grid_record() {
    uniformity_grid::<WidePayload>();
}
