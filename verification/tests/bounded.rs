use safemem::{BoundedBuffer, BufferError};

#[test]
fn create_refuses_zero_capacity() {
    assert_eq!(BoundedBuffer::create(0).unwrap_err(), BufferError::InvalidCapacity);
}

#[test]
fn create_gives_an_empty_buffer_of_the_capacity() {
    let buffer = BoundedBuffer::create(7).unwrap();
    assert_eq!(buffer.capacity(), 7);
    assert_eq!(buffer.length(), 0);
    assert_eq!(buffer.available(), 7);
    assert!(buffer.is_empty());
    assert_eq!(buffer.contents(), b"");
}

#[test]
fn create_takes_the_largest_capacity() {
    let mut buffer = BoundedBuffer::create(usize::MAX).unwrap();
    assert_eq!(buffer.capacity(), usize::MAX);
    assert_eq!(buffer.append(b"abc"), Ok(()));
    assert_eq!(buffer.contents(), b"abc");
    assert_eq!(buffer.available(), usize::MAX - 3);
}

#[test]
fn chunk_within_capacity_is_held_exactly() {
    for capacity in 1..=16usize {
        for len in 0..=capacity {
            let chunk: Vec<u8> = (0..len).map(|i| (i * 7 + capacity) as u8).collect();
            let mut buffer = BoundedBuffer::create(capacity).unwrap();
            assert_eq!(buffer.append(&chunk), Ok(()));
            assert_eq!(buffer.contents(), chunk.as_slice());
            assert_eq!(buffer.length(), len);
            assert_eq!(buffer.available(), capacity - len);
        }
    }
}

#[test]
fn chunk_beyond_capacity_is_rejected_by_a_fresh_buffer() {
    for capacity in 1..=16usize {
        for excess in 1..=4usize {
            let chunk = vec![0x5a_u8; capacity + excess];
            let mut buffer = BoundedBuffer::create(capacity).unwrap();
            assert_eq!(
                buffer.append(&chunk),
                Err(BufferError::CapacityExceeded { requested: capacity + excess, available: capacity })
            );
            assert_eq!(buffer.length(), 0);
            assert!(buffer.is_empty());
            assert_eq!(buffer.capacity(), capacity);
        }
    }
}

#[test]
fn hello_does_not_fit_into_four_bytes() {
    let mut buffer = BoundedBuffer::create(4).unwrap();
    assert_eq!(
        buffer.append(b"Hello"),
        Err(BufferError::CapacityExceeded { requested: 5, available: 4 })
    );
    assert!(buffer.is_empty());
    assert_eq!(buffer.contents(), b"");
}

#[test]
fn rejected_append_writes_nothing() {
    let mut buffer = BoundedBuffer::create(4).unwrap();
    assert_eq!(buffer.append(b"ab"), Ok(()));
    assert_eq!(
        buffer.append(b"cde"),
        Err(BufferError::CapacityExceeded { requested: 3, available: 2 })
    );
    assert_eq!(buffer.contents(), b"ab");
    assert_eq!(buffer.length(), 2);
    assert_eq!(buffer.available(), 2);
    assert_eq!(buffer.append(b"cd"), Ok(()));
    assert_eq!(buffer.contents(), b"abcd");
}

#[test]
fn full_buffer_takes_only_the_empty_chunk() {
    let mut buffer = BoundedBuffer::create(3).unwrap();
    assert_eq!(buffer.append(b"xyz"), Ok(()));
    assert_eq!(buffer.available(), 0);
    assert_eq!(buffer.append(b""), Ok(()));
    assert_eq!(
        buffer.append(b"!"),
        Err(BufferError::CapacityExceeded { requested: 1, available: 0 })
    );
    assert_eq!(buffer.contents(), b"xyz");
    assert_eq!(buffer.length(), 3);
    assert!(!buffer.is_empty());
}

#[test]
fn appends_keep_their_order() {
    let mut buffer = BoundedBuffer::create(12).unwrap();
    assert_eq!(buffer.append(b"one"), Ok(()));
    assert_eq!(buffer.append(b"two"), Ok(()));
    assert_eq!(buffer.append(b"three"), Ok(()));
    assert_eq!(buffer.contents(), b"onetwothree");
    assert_eq!(buffer.length(), 11);
    assert_eq!(buffer.capacity(), 12);
}

#[test]
fn length_never_exceeds_capacity() {
    let mut buffer = BoundedBuffer::create(10).unwrap();
    for round in 0..20u8 {
        let chunk = vec![round; (round % 4) as usize];
        let before = buffer.contents().to_vec();
        match buffer.append(&chunk) {
            Ok(()) => {
                let mut expected = before.clone();
                expected.extend_from_slice(&chunk);
                assert_eq!(buffer.contents(), expected.as_slice());
            }
            Err(error) => {
                assert_eq!(
                    error,
                    BufferError::CapacityExceeded { requested: chunk.len(), available: 10 - before.len() }
                );
                assert_eq!(buffer.contents(), before.as_slice());
            }
        }
        assert!(buffer.length() <= buffer.capacity());
        assert_eq!(buffer.capacity(), 10);
    }
}
