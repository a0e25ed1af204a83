use safemem::{BufferError, ByteStore};

#[test]
fn store_starts_empty() {
    let store = ByteStore::with_capacity(6);
    assert_eq!(store.len(), 0);
    assert_eq!(store.capacity(), 6);
    assert_eq!(store.available(), 6);
    assert!(store.is_empty());
    assert_eq!(store.as_slice(), b"");
}

#[test]
fn store_of_capacity_zero_takes_nothing_but_the_empty_chunk() {
    let mut store = ByteStore::with_capacity(0);
    assert_eq!(store.append(b""), Ok(()));
    assert_eq!(
        store.append(b"a"),
        Err(BufferError::CapacityExceeded { requested: 1, available: 0 })
    );
    assert!(store.is_empty());
}

#[test]
fn reserved_store_is_empty_and_of_the_capacity() {
    let store = ByteStore::try_with_capacity(32).expect("32 bytes are granted");
    assert_eq!(store.len(), 0);
    assert_eq!(store.capacity(), 32);
    assert_eq!(store.as_slice(), b"");
}

#[test]
fn reservation_of_nothing_is_never_refused() {
    let mut store = ByteStore::try_with_capacity(0).expect("no memory is needed");
    assert_eq!(store.capacity(), 0);
    assert_eq!(store.len(), 0);
    assert_eq!(store.as_slice(), b"");
    assert_eq!(
        store.append(b"a"),
        Err(BufferError::CapacityExceeded { requested: 1, available: 0 })
    );
}

#[test]
fn reservation_of_the_whole_address_space_is_not_granted() {
    assert!(ByteStore::try_with_capacity(usize::MAX).is_none());
}

#[test]
fn reservation_above_the_largest_allocation_is_not_granted() {
    assert!(ByteStore::try_with_capacity(isize::MAX as usize + 1).is_none());
    assert!(ByteStore::try_with_capacity(usize::MAX - 1).is_none());
}

#[test]
fn unreserved_store_of_the_largest_capacity_still_works() {
    let mut store = ByteStore::with_capacity(usize::MAX);
    assert_eq!(store.append(b"abc"), Ok(()));
    assert_eq!(store.as_slice(), b"abc");
    assert_eq!(store.available(), usize::MAX - 3);
}

#[test]
fn bounded_append_writes_all_or_nothing() {
    let mut store = ByteStore::with_capacity(5);
    assert_eq!(store.append(b"abc"), Ok(()));
    assert_eq!(store.as_slice(), b"abc");
    assert_eq!(store.available(), 2);
    assert_eq!(
        store.append(b"def"),
        Err(BufferError::CapacityExceeded { requested: 3, available: 2 })
    );
    assert_eq!(store.as_slice(), b"abc");
    assert_eq!(store.len(), 3);
    assert_eq!(store.capacity(), 5);
    assert_eq!(store.append(b"de"), Ok(()));
    assert_eq!(store.as_slice(), b"abcde");
    assert_eq!(store.available(), 0);
}

#[test]
fn growing_append_raises_the_capacity_by_doubling() {
    let mut store = ByteStore::with_capacity(2);
    store.append_growing(b"a");
    assert_eq!(store.capacity(), 2);
    store.append_growing(b"bcdef");
    assert_eq!(store.as_slice(), b"abcdef");
    assert_eq!(store.capacity(), 8);
    store.append_growing(b"gh");
    assert_eq!(store.capacity(), 8);
    store.append_growing(b"i");
    assert_eq!(store.capacity(), 16);
    assert_eq!(store.as_slice(), b"abcdefghi");
    assert_eq!(store.len(), 9);
}

#[test]
fn both_appends_work_on_one_store() {
    let mut store = ByteStore::with_capacity(1);
    store.append_growing(b"abc");
    assert_eq!(store.capacity(), 4);
    assert_eq!(store.append(b"d"), Ok(()));
    assert_eq!(
        store.append(b"e"),
        Err(BufferError::CapacityExceeded { requested: 1, available: 0 })
    );
    assert_eq!(store.as_slice(), b"abcd");
}
