use starry_ipc::allocator::{AllocError, BumpAllocator, HeapUsage};

#[test]
fn bump_allocates_from_the_cursor() {
    let mut a = BumpAllocator::new();
    assert_eq!(0, a.total_bytes());
    a.init(0x1000, 0x100);
    assert_eq!(0x100, a.total_bytes());
    assert_eq!(Ok(0x1000), a.alloc_bytes(0x10));
    assert_eq!(Ok(0x1010), a.alloc_bytes(0x20));
    assert_eq!(0x30, a.used_bytes());
    assert_eq!(0xd0, a.available_bytes());
}

#[test]
fn bump_fails_when_too_little_is_left() {
    let mut a = BumpAllocator::new();
    a.init(0x1000, 0x10);
    assert_eq!(Err(AllocError::NoMemory), a.alloc_bytes(0x11));
    assert_eq!(Ok(0x1000), a.alloc_bytes(0x10));
    assert_eq!(Err(AllocError::NoMemory), a.alloc_bytes(1));
    assert_eq!(0, a.available_bytes());
}

#[test]
fn bump_resets_after_last_dealloc() {
    let mut a = BumpAllocator::new();
    a.init(0x2000, 0x40);
    let p = a.alloc_bytes(8).unwrap();
    let q = a.alloc_bytes(8).unwrap();
    a.dealloc_bytes(p, 8);
    assert_eq!(16, a.used_bytes());
    a.dealloc_bytes(q, 8);
    assert_eq!(0, a.used_bytes());
    assert_eq!(Ok(0x2000), a.alloc_bytes(4));
}

#[test]
fn bump_add_memory_replaces_region() {
    let mut a = BumpAllocator::new();
    a.init(0x1000, 0x10);
    assert!(a.add_memory(0x8000, 0x80).is_ok());
    assert_eq!(0x80, a.total_bytes());
    assert_eq!(Ok(0x8000), a.alloc_bytes(1));
}

#[test]
fn heap_usage_counts_bytes() {
    let mut u = HeapUsage::new();
    u.add_region(100);
    u.add_region(28);
    assert_eq!(128, u.total_bytes());
    u.record_alloc(40);
    assert_eq!(40, u.used_bytes());
    assert_eq!(88, u.available_bytes());
    u.record_free(15);
    assert_eq!(25, u.used_bytes());
    assert_eq!(103, u.available_bytes());
}

#[test]
fn bump_new_is_empty() {
    let mut a = BumpAllocator::new();
    assert_eq!(0, a.used_bytes());
    assert_eq!(0, a.available_bytes());
    assert_eq!(Err(AllocError::NoMemory), a.alloc_bytes(1));
    assert_eq!(Ok(0), a.alloc_bytes(0));
}
