use elega_core::CoreError;
use elega_core::HeapStorageBlock;
use elega_core::TemporaryStorage;

#[test]
fn scenario_bulk_store_then_follow_on() {
    let mut storage = TemporaryStorage::new();
    let greeting: Vec<u8> = vec![0x41, 0x77, 0x2C, 0x79, 0x65, 0x61, 0x68, 0x21];
    assert_eq!(storage.add_byte_vec(&greeting), Ok(0));
    let forty: Vec<u8> = vec![0xAB; 40];
    assert_eq!(storage.add_byte_vec(&forty), Ok(8));
    assert_eq!(storage.occupied, 48);
    assert_eq!(storage.max_usage, 48);
}

#[test]
fn fresh_arena_buffer_is_zeroed() {
    let storage = TemporaryStorage::with_capacity(4);
    assert_eq!(&storage.data[..], &[0, 0, 0, 0]);
    let default_storage = TemporaryStorage::new();
    assert_eq!(default_storage.data.len(), 40960);
    assert!(default_storage.data.iter().all(|&byte| byte == 0));
}

#[test]
fn stored_bytes_land_at_their_address() {
    let mut storage = TemporaryStorage::with_capacity(16);
    assert_eq!(storage.add_byte_vec(&vec![9, 8, 7]), Ok(0));
    assert_eq!(storage.add_byte(&42), Ok(3));
    assert_eq!(&storage.data[0..4], &[9, 8, 7, 42]);
}

#[test]
fn addresses_are_cumulative_byte_counts() {
    let mut storage = TemporaryStorage::with_capacity(64);
    assert_eq!(storage.add_byte(&1), Ok(0));
    assert_eq!(storage.add_byte_vec(&vec![2, 3, 4]), Ok(1));
    assert_eq!(storage.add_byte_vec(&vec![5, 6]), Ok(4));
    assert_eq!(storage.add_byte(&7), Ok(6));
    assert_eq!(storage.occupied, 7);
}

#[test]
fn empty_run_changes_nothing() {
    let mut storage = TemporaryStorage::with_capacity(8);
    assert_eq!(storage.add_byte_vec(&vec![1, 2, 3]), Ok(0));
    let empty: Vec<u8> = Vec::new();
    assert_eq!(storage.add_byte_vec(&empty), Ok(3));
    assert_eq!(storage.occupied, 3);
    assert_eq!(storage.allocator.index, 3);
    assert_eq!(storage.max_usage, 3);
}

#[test]
fn oversized_run_is_rejected_atomically() {
    let mut storage = TemporaryStorage::with_capacity(4);
    assert_eq!(storage.add_byte_vec(&vec![1, 2]), Ok(0));
    let too_big: Vec<u8> = vec![9, 9, 9];
    assert_eq!(storage.add_byte_vec(&too_big), Err(CoreError::CapacityExceeded));
    assert_eq!(storage.occupied, 2);
    assert_eq!(storage.allocator.index, 2);
    assert_eq!(&storage.data[0..2], &[1, 2]);
    assert_eq!(storage.add_byte_vec(&vec![3, 4]), Ok(2));
    assert_eq!(&storage.data[0..4], &[1, 2, 3, 4]);
}

#[test]
fn single_byte_store_refused_when_full() {
    let mut storage = TemporaryStorage::with_capacity(1);
    assert_eq!(storage.add_byte(&5), Ok(0));
    assert_eq!(storage.add_byte(&6), Err(CoreError::CapacityExceeded));
    assert_eq!(storage.occupied, 1);
}

#[test]
fn reset_returns_to_empty_and_address_zero() {
    let mut storage = TemporaryStorage::with_capacity(8);
    assert_eq!(storage.add_byte_vec(&vec![1, 2, 3, 4, 5]), Ok(0));
    storage.reset_storage();
    assert_eq!(storage.occupied, 0);
    assert_eq!(storage.allocator.index, 0);
    assert_eq!(storage.add_byte(&9), Ok(0));
}

#[test]
fn reset_is_idempotent_and_keeps_high_water_mark() {
    let mut storage = TemporaryStorage::with_capacity(8);
    assert_eq!(storage.add_byte_vec(&vec![1, 2, 3, 4, 5]), Ok(0));
    storage.reset_storage();
    assert_eq!(storage.max_usage, 5);
    storage.reset_storage();
    assert_eq!(storage.occupied, 0);
    assert_eq!(storage.allocator.index, 0);
    assert_eq!(storage.max_usage, 5);
    assert_eq!(storage.add_byte_vec(&vec![7, 7]), Ok(0));
    assert_eq!(storage.max_usage, 5);
}

#[test]
fn heap_block_addresses_accumulate() {
    let mut block = HeapStorageBlock::new();
    assert_eq!(block.add_byte(&5), Ok(0));
    assert_eq!(block.add_byte_vec(&vec![1, 2, 3]), Ok(1));
    assert_eq!(block.occupied, 4);
    assert_eq!(block.max_usage, 4);
    assert_eq!(block.allocator.index, 4);
    assert_eq!(&block.data[..], &[5, 1, 2, 3]);
}

#[test]
fn heap_block_accepts_empty_run() {
    let mut block = HeapStorageBlock::new();
    assert_eq!(block.add_byte_vec(&vec![8]), Ok(0));
    let empty: Vec<u8> = Vec::new();
    assert_eq!(block.add_byte_vec(&empty), Ok(1));
    assert_eq!(block.occupied, 1);
}

#[test]
fn heap_block_takes_overflow_from_fixed_arena() {
    let mut storage = TemporaryStorage::with_capacity(4);
    let mut block = HeapStorageBlock::new();
    let run: Vec<u8> = vec![1, 2, 3, 4, 5, 6];
    let result = storage.add_byte_vec(&run);
    assert_eq!(result, Err(CoreError::CapacityExceeded));
    assert_eq!(block.add_byte_vec(&run), Ok(0));
    assert_eq!(&block.data[..], &[1, 2, 3, 4, 5, 6]);
    assert_eq!(storage.occupied, 0);
}
