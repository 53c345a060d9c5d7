use starry_ipc::eventfd::{EventFd, FdError, EFD_NONBLOCK, EFD_SEMAPHORE};

fn read_u64(fd: &mut EventFd) -> Result<Option<u64>, FdError> {
    let mut buf = 0u64.to_ne_bytes().to_vec();
    match fd.read(&mut buf)? {
        Some(len) => {
            assert_eq!(8, len);
            Ok(Some(u64::from_ne_bytes(buf.as_slice().try_into().unwrap())))
        }
        None => Ok(None),
    }
}

#[test]
fn test_read() {
    let mut event_fd = EventFd::new(42, 0);
    let mut buf = 0u64.to_ne_bytes().to_vec();
    let len = event_fd.read(&mut buf).unwrap().unwrap();
    let event_fd_val = u64::from_ne_bytes(buf.as_slice().try_into().unwrap());

    assert_eq!(42, event_fd_val);
    assert_eq!(8, len);
}

#[test]
fn test_read_with_bad_input() {
    let mut event_fd = EventFd::new(42, 0);
    let mut buf = 0u32.to_ne_bytes().to_vec();
    let result = event_fd.read(&mut buf);
    assert_eq!(Err(FdError::InvalidArgument), result);
}

#[test]
fn test_write() {
    let mut event_fd = EventFd::new(42, 0);
    let val = 12u64;
    event_fd.write(&val.to_ne_bytes()[0..core::mem::size_of::<u64>()]).unwrap();

    let event_fd_val = read_u64(&mut event_fd).unwrap().unwrap();
    assert_eq!(54, event_fd_val);
}

#[test]
fn counter_sums_writes_and_read_drains_it() {
    let mut fd = EventFd::new(0, 0);
    assert_eq!(Ok(8), fd.write(&5u64.to_ne_bytes()));
    assert_eq!(Ok(8), fd.write(&7u64.to_ne_bytes()));
    assert_eq!(Ok(Some(12)), read_u64(&mut fd));
    assert_eq!(0, fd.value());
}

#[test]
fn semaphore_read_takes_one_unit() {
    let mut fd = EventFd::new(0, EFD_SEMAPHORE);
    assert_eq!(Ok(8), fd.write(&3u64.to_ne_bytes()));
    assert_eq!(Ok(Some(1)), read_u64(&mut fd));
    assert_eq!(2, fd.value());
    assert_eq!(Ok(Some(1)), read_u64(&mut fd));
    assert_eq!(Ok(Some(1)), read_u64(&mut fd));
    assert_eq!(0, fd.value());
    assert_eq!(Ok(None), read_u64(&mut fd));
}

#[test]
fn semaphore_read_of_large_counter_returns_one() {
    let mut fd = EventFd::new(5, EFD_SEMAPHORE | EFD_NONBLOCK);
    let mut buf = vec![0u8; 8];
    assert_eq!(Ok(Some(8)), fd.read(&mut buf));
    assert_eq!(vec![1, 0, 0, 0, 0, 0, 0, 0], buf);
    assert_eq!(4, fd.value());
}

#[test]
fn non_blocking_read_of_zero_would_block() {
    let mut fd = EventFd::new(0, EFD_NONBLOCK);
    assert_eq!(Err(FdError::WouldBlock), read_u64(&mut fd));
    assert_eq!(Err(FdError::WouldBlock), fd.read_value());
    assert_eq!(0, fd.value());
}

#[test]
fn blocking_read_of_zero_asks_to_wait() {
    let mut fd = EventFd::new(0, 0);
    assert_eq!(Ok(None), fd.read_value());
    assert_eq!(Ok(None), read_u64(&mut fd));
}

#[test]
fn overflowing_write_fails_and_keeps_counter() {
    let mut fd = EventFd::new(u64::MAX - 1, 0);
    assert_eq!(Err(FdError::Overflow), fd.write(&2u64.to_ne_bytes()));
    assert_eq!(u64::MAX - 1, fd.value());
    assert_eq!(Ok(8), fd.write(&1u64.to_ne_bytes()));
    assert_eq!(u64::MAX, fd.value());
    assert_eq!(Err(FdError::Overflow), fd.write_value(1));
    assert_eq!(u64::MAX, fd.value());
}

#[test]
fn write_of_wrong_length_is_rejected() {
    let mut fd = EventFd::new(1, 0);
    assert_eq!(Err(FdError::InvalidArgument), fd.write(&[1, 2, 3]));
    assert_eq!(Err(FdError::InvalidArgument), fd.write(&[0; 9]));
    assert_eq!(1, fd.value());
    let mut long = vec![0u8; 16];
    assert_eq!(Err(FdError::InvalidArgument), fd.read(&mut long));
    assert_eq!(1, fd.value());
}

#[test]
fn bytes_are_little_endian() {
    let mut fd = EventFd::new(0, 0);
    assert_eq!(Ok(8), fd.write(&[1, 2, 0, 0, 0, 0, 0, 0]));
    assert_eq!(0x0201, fd.value());
    let mut buf = vec![9u8; 8];
    assert_eq!(Ok(Some(8)), fd.read(&mut buf));
    assert_eq!(vec![1, 2, 0, 0, 0, 0, 0, 0], buf);
}

#[test]
fn eventfd_capabilities() {
    let fd = EventFd::new(0, 0);
    assert!(fd.readable());
    assert!(fd.writable());
    assert!(!fd.executable());
    assert_eq!(starry_ipc::pipe::FileKind::Other, fd.get_type());
}
