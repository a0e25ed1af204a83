use safemem::BufferR;

fn show_bytes(buffer: &BufferR) {
    println!("Buffer content ({} bytes): ", buffer.get_size());
    let mut line = String::new();
    for byte in buffer.get_data() {
        line.push_str(&format!("{:02x} ", byte));
    }
    println!("{}", line);
}

#[test]
fn overflow_test_rust_test_buffer_overflow() {
    println!("\n=== Buffer Overflow Test (Rust Implementation) ===");

    // Create a small buffer
    let mut buffer = BufferR::new(10);
    println!("Created buffer with capacity 10");

    // Add data within capacity
    buffer.append(b"Hello");
    println!("Added 5 bytes");
    show_bytes(&buffer);

    // Try to add data exceeding capacity
    println!("Attempting to add 59 more bytes (exceeds initial capacity)...");
    buffer.append(b"This is a longer string I want to input to Rust buffer data");

    // The buffer grows on demand - no overflow
    println!("Rust safely handled the potential overflow by resizing the buffer");
    show_bytes(&buffer);

    assert!(buffer.get_size() == 64);
    println!("Test passed: Buffer correctly contains all 64 bytes");
}
