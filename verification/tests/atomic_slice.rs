//! Grid tests over element types: for every combination of slice length and
//! reader/writer multiplicity, every write fills the slice with one value,
//! so every read must observe a slice whose elements are all identical.

use atomic_slice::AtomicSlice;

struct TestConfig {
    length: usize,
    num_readers: usize,
    num_writers: usize,
    num_iterations: usize,
}

fn single_test_helper<T>(config: TestConfig)
where
    T: Default + Copy + From<u8> + PartialEq + std::fmt::Debug,
{
    let mut next_value_to_write: u8 = 0;

    let mut data = Vec::<T>::new();
    data.resize(config.length, T::default());
    let mut atomic_slice = AtomicSlice::new(data);

    let mut buffer = Vec::<T>::new();
    buffer.resize(config.length, T::default());

    for _iter in 0..config.num_iterations {
        for _writer in 0..config.num_writers {
            // Write an array of identical values to the slice. This should
            // appear to be atomic, so no reader should ever be able to
            // observe a slice containing unequal values.
            buffer.fill(next_value_to_write.into());
            next_value_to_write = next_value_to_write.wrapping_add(1);
            atomic_slice.write(&buffer).unwrap();
        }
        for _reader in 0..config.num_readers {
            // Read the slice and assert that its length is as expected and
            // that all values are the same.
            let guard = atomic_slice.read();
            let slice: &[T] = atomic_slice.leased(&guard);
            assert_eq!(slice.len(), config.length);
            let first_value = slice[0];
            for other_value in slice[1..].iter() {
                assert_eq!(first_value, *other_value);
            }
            atomic_slice.release(guard);
        }
    }
}

fn test_grid_helper<T>()
where
    T: Default + Copy + From<u8> + PartialEq + std::fmt::Debug,
{
    for length_bits in 0..=8 {
        for num_readers in 1..=4 {
            for num_writers in 1..=4 {
                single_test_helper::<T>(TestConfig {
                    length: 1 << length_bits,
                    num_readers,
                    num_writers,
                    num_iterations: 1_000,
                })
            }
        }
    }
}

#[test]
fn test_atomic_slice_u8() {
    test_grid_helper::<u8>()
}

#[test]
fn test_atomic_slice_u16() {
    test_grid_helper::<u16>()
}

#[test]
fn test_atomic_slice_u32() {
    test_grid_helper::<u32>()
}

#[test]
fn test_atomic_slice_u64() {
    test_grid_helper::<u64>()
}

#[test]
fn test_atomic_slice_f32() {
    test_grid_helper::<f32>()
}

#[test]
fn test_atomic_slice_f64() {
    test_grid_helper::<f64>()
}

#[derive(Clone, Copy, Eq, PartialEq, Debug, Default)]
struct ExampleStruct {
    x: u32,
    y: usize,
    z: u8,
}

impl From<u8> for ExampleStruct {
    fn from(value: u8) -> ExampleStruct {
        ExampleStruct {
            x: value.into(),
            y: value.into(),
            z: value,
        }
    }
}

#[test]
fn test_atomic_slice_example_struct() {
    test_grid_helper::<ExampleStruct>();
}
