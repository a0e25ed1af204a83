use safemem::BufferR;

fn show_growable(buffer: &BufferR) {
    println!("Buffer content ({} bytes): ", buffer.get_size());
    let mut line = String::new();
    for byte in buffer.get_data() {
        line.push_str(&format!("{:02x} ", byte));
    }
    println!("{}", line);
}

#[test]
fn lib_rust_test_buffer_overflow() {
    println!("\n=== Buffer Overflow Test (Rust Implementation) ===");

    // Create a small buffer
    let mut buffer = BufferR::new(10);
    println!("Created buffer with capacity 10");

    // Add data within capacity
    buffer.append(b"Hello");
    println!("Added 5 bytes");
    show_growable(&buffer);

    // Try to add data exceeding capacity
    println!("Attempting to add 59 more bytes (exceeds initial capacity)...");
    buffer.append(b"This is a longer string I want to input to Rust buffer data");

    // The buffer grows on demand - no overflow
    println!("Rust safely handled the potential overflow by resizing the buffer");
    show_growable(&buffer);

    assert!(buffer.get_size() == 64);
    println!("Test passed: Buffer correctly contains all 64 bytes");
    println!("Rust drops buffer memory once it goes out of scope")
}

#[test]
#[should_panic]
fn rust_test_over_read() {
    println!("\n=== Over-Read Test (Unsafe Rust Implementation) ===");
    let mut buffer = BufferR::new(10);
    println!("Created buffer with capacity 10");
    buffer.append(b"Hello"); // 5 bytes
    println!("Added 5 bytes");
    show_growable(&buffer);
    println!("\nAttempting to read at index 5 or more (out of bounds)");
    // Intentional buffer over-read
    for i in 0..15 {
        let byte = buffer.get_data()[i];
        let c = byte as u8;
        println!(
            "Byte at position {}: {} ({})",
            i,
            if c >= 32 && c <= 126 { c as char } else { '.' },
            c
        );
    }
}
