use guest_shim::log;
use guest_shim::ptr_to_string;
use guest_shim::store_string;
use guest_shim::string_to_ptr;
use guest_shim::DecodeError;
use guest_shim::HostLog;
use guest_shim::LinearMemory;

#[test]
fn round_trip_ascii() {
    let mut m = LinearMemory::new();
    let off = m.allocate(5);
    let g = store_string(&mut m, off, &String::from("hello"));
    assert_eq!(g.offset, off);
    assert_eq!(g.len, 5);
    let decoded = ptr_to_string(&m, off, 5);
    assert_eq!(decoded, Ok(String::from("hello")));
}

#[test]
fn round_trip_multibyte() {
    let text = String::from("gr\u{fc}\u{df}e \u{2200}x");
    let byte_len = text.len() as u32;
    assert!(byte_len > text.chars().count() as u32);
    let mut m = LinearMemory::new();
    let off = m.allocate(byte_len);
    let g = store_string(&mut m, off, &text);
    assert_eq!(g.len, byte_len);
    let decoded = ptr_to_string(&m, off, byte_len);
    assert_eq!(decoded, Ok(text));
}

#[test]
fn round_trip_empty_string() {
    let mut m = LinearMemory::new();
    let off = m.allocate(0);
    let g = store_string(&mut m, off, &String::new());
    assert_eq!(g.len, 0);
    let decoded = ptr_to_string(&m, off, 0);
    assert_eq!(decoded, Ok(String::new()));
}

#[test]
fn allocations_do_not_overlap() {
    let mut m = LinearMemory::new();
    let sizes: Vec<u32> = vec![4, 1, 16, 3, 8];
    let mut handles: Vec<(u32, u32)> = Vec::new();
    for &n in sizes.iter() {
        let off = m.allocate(n);
        handles.push((off, n));
    }
    for i in 0..handles.len() {
        for j in 0..handles.len() {
            if i != j {
                let (o1, s1) = handles[i];
                let (o2, s2) = handles[j];
                assert!(o1 + s1 <= o2 || o2 + s2 <= o1);
            }
        }
    }
}

#[test]
fn allocate_zero_is_nonnull_and_freeable() {
    let mut m = LinearMemory::new();
    let off = m.allocate(0);
    assert_ne!(off, 0);
    m.deallocate(off, 0);
    let off2 = m.allocate(0);
    assert_ne!(off2, 0);
}

#[test]
fn zero_size_allocations_are_distinct() {
    let mut m = LinearMemory::new();
    let a = m.allocate(0);
    let b = m.allocate(0);
    assert_ne!(a, b);
}

#[test]
fn alloc_dealloc_cycle_leaves_allocator_usable() {
    let mut m = LinearMemory::new();
    let off = m.allocate(8);
    m.deallocate(off, 8);
    let off2 = m.allocate(8);
    assert_ne!(off2, 0);
}

#[test]
fn log_borrows_without_mutating() {
    let mut m = LinearMemory::new();
    let mut h = HostLog::new();
    let off = m.allocate(2);
    let g = store_string(&mut m, off, &String::from("hi"));
    let before = m.read_bytes(off, 2);
    log(&mut m, &g, &mut h);
    let after = m.read_bytes(off, 2);
    assert_eq!(before, after);
    assert_eq!(ptr_to_string(&m, off, 2), Ok(String::from("hi")));
    assert_eq!(h.calls, vec![(off, 2)]);
}

#[test]
fn host_log_records_calls_in_order() {
    let mut m = LinearMemory::new();
    let mut h = HostLog::new();
    let o1 = m.allocate(1);
    let g1 = store_string(&mut m, o1, &String::from("a"));
    let o2 = m.allocate(2);
    let g2 = store_string(&mut m, o2, &String::from("bc"));
    log(&mut m, &g1, &mut h);
    log(&mut m, &g2, &mut h);
    log(&mut m, &g1, &mut h);
    assert_eq!(h.calls, vec![(o1, 1), (o2, 2), (o1, 1)]);
}

#[test]
fn scenario_hello() {
    let mut m = LinearMemory::new();
    let mut h = HostLog::new();
    let ptr = m.allocate(5);
    m.write_bytes(ptr, &vec![0x68, 0x65, 0x6c, 0x6c, 0x6f]);
    let decoded = ptr_to_string(&m, ptr, 5).unwrap();
    assert_eq!(decoded, String::from("hello"));
    let g = store_string(&mut m, ptr, &decoded);
    log(&mut m, &g, &mut h);
    assert_eq!(h.calls, vec![(ptr, 5)]);
    let read_back = ptr_to_string(&m, h.calls[0].0, h.calls[0].1).unwrap();
    assert_eq!(read_back, String::from("hello"));
    m.deallocate(ptr, 5);
    let again = m.allocate(5);
    assert_ne!(again, 0);
}

#[test]
fn invalid_utf8_is_rejected() {
    let mut m = LinearMemory::new();
    let off = m.allocate(2);
    m.write_bytes(off, &vec![0xff, 0xfe]);
    assert_eq!(ptr_to_string(&m, off, 2), Err(DecodeError::InvalidUtf8));
}

#[test]
fn truncated_multibyte_is_rejected() {
    let mut m = LinearMemory::new();
    let text = String::from("\u{fc}");
    let off = m.allocate(2);
    store_string(&mut m, off, &text);
    assert_eq!(ptr_to_string(&m, off, 1), Err(DecodeError::InvalidUtf8));
}

#[test]
fn string_to_ptr_reports_offset_and_byte_length() {
    let mut m = LinearMemory::new();
    let off = m.allocate(3);
    let g = store_string(&mut m, off, &String::from("abc"));
    assert_eq!(string_to_ptr(&g), (off, 3));
}

#[test]
fn write_then_read_bytes() {
    let mut m = LinearMemory::new();
    let off = m.allocate(4);
    let payload: Vec<u8> = vec![9, 8, 7, 6];
    m.write_bytes(off, &payload);
    assert_eq!(m.read_bytes(off, 4), payload);
}

#[test]
fn write_leaves_other_regions_untouched() {
    let mut m = LinearMemory::new();
    let a = m.allocate(3);
    let b = m.allocate(3);
    m.write_bytes(a, &vec![1, 2, 3]);
    m.write_bytes(b, &vec![4, 5, 6]);
    m.write_bytes(a, &vec![7, 8, 9]);
    assert_eq!(m.read_bytes(b, 3), vec![4, 5, 6]);
    assert_eq!(m.read_bytes(a, 3), vec![7, 8, 9]);
}
