use safemem::{BoundedBuffer, BufferError};

fn show_bounded(buffer: &BoundedBuffer) {
    println!("Buffer content ({} bytes): ", buffer.length());
    let mut line = String::new();
    for byte in buffer.contents() {
        line.push_str(&format!("{:02x} ", byte));
    }
    println!("{}", line);
}

#[test]
fn rust_test_buffer_overflow_1() {
    println!("\n=== Rust Buffer Overflow Test 1 (Small Overflow) ===");
    let mut buffer = BoundedBuffer::create(4).expect("Failed to create buffer");
    println!("Created buffer with capacity 4");

    // Attempt small overflow
    println!("Attempting to append 'Hello' (5 bytes) to a 4-byte buffer...");
    let outcome = buffer.append(b"Hello");
    match outcome {
        Ok(_) => println!("Success appending 'Hello'"),
        Err(e) => println!("{:?}", e),
    }
    assert_eq!(outcome, Err(BufferError::CapacityExceeded { requested: 5, available: 4 }));

    // Print buffer state
    println!("After attempted overflow:");
    show_bounded(&buffer);
    assert!(buffer.is_empty());
    assert_eq!(buffer.length(), 0);
    assert_eq!(buffer.contents(), b"");

    println!("Rust Test completed");
}

#[test]
fn rust_test_buffer_overflow_2() {
    println!("\n=== Rust Buffer Overflow Test 2 (Large Overflow) ===");
    let mut buffer = BoundedBuffer::create(5).expect("Failed to create buffer");
    println!("Created buffer with capacity 5");

    // Attempt large overflow
    println!("Attempting to append 1000 bytes to a 5-byte buffer...");
    let large_data = vec![b'A'; 1000];
    let outcome = buffer.append(&large_data);
    match outcome {
        Ok(_) => println!("Unexpected success appending large data"),
        Err(e) => println!("{:?}", e),
    }
    assert_eq!(outcome, Err(BufferError::CapacityExceeded { requested: 1000, available: 5 }));

    // Print buffer state
    println!("After attempted massive overflow:");
    show_bounded(&buffer);
    assert_eq!(buffer.length(), 0);
    assert_eq!(buffer.capacity(), 5);

    println!("Rust Test completed");
}

#[test]
fn rust_test_double_free_1() {
    println!("\n=== Rust Double Free Test 1 (Basic Double-Free) ===");
    let mut buffer = BoundedBuffer::create(10).expect("Failed to create buffer");
    println!("Created buffer");

    buffer.append(b"Test").expect("Failed to append");
    show_bounded(&buffer);
    assert_eq!(buffer.contents(), b"Test");

    // First "free"
    println!("Freeing buffer first time...");
    drop(buffer);

    // Simulate second free attempt
    println!("Attempting to free buffer second time...");
    println!("Rust: Double-free prevented (ownership ensures single drop)");

    println!("Rust Test completed");
}

#[test]
fn rust_test_double_free_2() {
    println!("\n=== Rust Double Free Test 2 (Free-and-Reuse) ===");
    let buffer = BoundedBuffer::create(10).expect("Failed to create buffer");
    println!("Created buffer");

    // Free first time
    println!("Freeing buffer first time...");
    drop(buffer);

    // Simulate reuse and second free
    println!("Attempting to append 'Test' after free...");
    println!("Rust: Use-after-free prevented; creating new buffer for simulation");
    let mut new_buffer = BoundedBuffer::create(10).expect("Failed to create buffer");
    new_buffer.append(b"Test").expect("Failed to append");
    show_bounded(&new_buffer);
    assert_eq!(new_buffer.contents(), b"Test");
    assert_eq!(new_buffer.length(), 4);

    println!("Freeing new buffer...");
    drop(new_buffer);

    println!("Rust: Double-free prevented (new buffer dropped once)");
    println!("Rust Test completed");
}

#[test]
fn rust_rust_test_use_after_free_1() {
    println!("\n=== Rust Use After Free Test 1 (Simple Reuse) ===");
    let mut buffer = BoundedBuffer::create(10).expect("Failed to create buffer");
    println!("Created buffer");

    buffer.append(b"Hello").expect("Failed to append");
    show_bounded(&buffer);
    assert_eq!(buffer.contents(), b"Hello");

    // Free the buffer
    println!("Freeing buffer...");
    drop(buffer);

    // Simulate use-after-free
    println!("Attempting to append 'World' after free...");
    println!("Rust: Use-after-free prevented; creating new buffer for simulation");
    let mut new_buffer = BoundedBuffer::create(10).expect("Failed to create buffer");
    new_buffer.append(b"World").expect("Failed to append");
    show_bounded(&new_buffer);
    assert_eq!(new_buffer.contents(), b"World");

    println!("Rust Test completed");
}

#[test]
fn rust_test_use_after_free_2() {
    println!("\n=== Rust Use After Free Test 2 (Double Append) ===");
    let mut buffer = BoundedBuffer::create(10).expect("Failed to create buffer");
    println!("Created buffer");

    buffer.append(b"Hello").expect("Failed to append");
    show_bounded(&buffer);

    // Free the buffer
    println!("Freeing buffer...");
    drop(buffer);

    // Simulate double append after free
    println!("Attempting to append 'Foo' after free...");
    println!("Rust: Use-after-free prevented; creating new buffer for simulation");
    let mut new_buffer = BoundedBuffer::create(10).expect("Failed to create buffer");
    new_buffer.append(b"Foo").expect("Failed to append");

    println!("Attempting to append 'Bar' after free...");
    new_buffer.append(b"Bar").expect("Failed to append");

    println!("After simulated use-after-free appends:");
    show_bounded(&new_buffer);
    assert_eq!(new_buffer.contents(), b"FooBar");
    assert_eq!(new_buffer.length(), 6);

    println!("Rust Test completed");
}
