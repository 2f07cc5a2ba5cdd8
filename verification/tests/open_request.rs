use posish::fs::{
    build_open_how, open_how_size, openat2_result, Mode, OFlags, OpenHow, ResolveFlags,
    OPEN_HOW_SIZE, O_CLOEXEC, O_CREAT, O_EXCL, O_RDWR, O_WRONLY, RESOLVE_BENEATH,
    RESOLVE_NO_SYMLINKS, SYS_OPENAT2,
};
use posish::io::ErrorKind;

#[test]
fn request_record_is_24_bytes() {
    // The ABI size invariant: three 8-byte fields, no padding.
    assert_eq!(std::mem::size_of::<OpenHow>(), 24);
    assert_eq!(std::mem::align_of::<OpenHow>(), 8);
    assert_eq!(open_how_size(), 24);
    assert_eq!(OPEN_HOW_SIZE, 24);
}

#[test]
fn entry_point_identifier() {
    assert_eq!(SYS_OPENAT2, 437);
}

#[test]
fn record_fields_carry_the_flag_sets() {
    let how = build_open_how(
        OFlags::from_bits(O_WRONLY | O_CREAT | O_EXCL),
        Mode::from_bits(0o644),
        ResolveFlags::from_bits(RESOLVE_NO_SYMLINKS | RESOLVE_BENEATH),
    );
    assert_eq!(how.oflag, (O_WRONLY | O_CREAT | O_EXCL) as u64);
    assert_eq!(how.mode, 0o644);
    assert_eq!(how.resolve, RESOLVE_NO_SYMLINKS | RESOLVE_BENEATH);
}

#[test]
fn widening_zero_extends_a_sign_bit_pattern() {
    // A pattern with the sign bit set in its 32-bit form must widen
    // with the upper 32 bits zero and the lower 32 bits unchanged.
    let how = build_open_how(
        OFlags::from_bits(i32::MIN),
        Mode::empty(),
        ResolveFlags::empty(),
    );
    assert_eq!(how.oflag, 0x8000_0000);
    assert_eq!(how.oflag >> 32, 0);

    let all = build_open_how(OFlags::from_bits(-1), Mode::empty(), ResolveFlags::empty());
    assert_eq!(all.oflag, 0xffff_ffff);
    assert_eq!(all.oflag as i32, -1);
}

#[test]
fn flag_sets_compose_by_union_and_intersection() {
    let rw = OFlags::from_bits(O_RDWR);
    let both = rw.union(OFlags::from_bits(O_CLOEXEC));
    assert_eq!(both.bits(), O_RDWR | O_CLOEXEC);
    assert_eq!(both.intersection(rw).bits(), O_RDWR);
    assert_eq!(OFlags::empty().bits(), 0);

    let m = Mode::from_bits(0o600).union(Mode::from_bits(0o044));
    assert_eq!(m.bits(), 0o644);
    assert_eq!(m.intersection(Mode::from_bits(0o700)).bits(), 0o600);
    assert_eq!(Mode::empty().bits(), 0);

    let r = ResolveFlags::from_bits(RESOLVE_NO_SYMLINKS).union(ResolveFlags::from_bits(
        RESOLVE_BENEATH,
    ));
    assert_eq!(r.bits(), RESOLVE_NO_SYMLINKS | RESOLVE_BENEATH);
    assert_eq!(
        r.intersection(ResolveFlags::from_bits(RESOLVE_BENEATH)).bits(),
        RESOLVE_BENEATH
    );
    assert_eq!(ResolveFlags::empty().bits(), 0);
}

#[test]
fn non_negative_raw_result_is_an_owned_handle() {
    match openat2_result(3) {
        Ok(fd) => assert_eq!(fd.as_raw_fd(), 3),
        Err(_) => panic!("a non-negative raw value must be a handle"),
    }
}

#[test]
fn negative_raw_result_is_the_sign_stripped_error() {
    // -17 is the sentinel for EEXIST: the deterministic outcome of a
    // second exclusive-creation request against the same path.
    match openat2_result(-17) {
        Ok(_) => panic!("a negative raw value must be an error"),
        Err(e) => {
            assert_eq!(e.raw_os_error(), 17);
            assert_eq!(e.kind(), ErrorKind::AlreadyExists);
        }
    }
}

#[test]
fn symlink_constraint_violation_error_classifies_as_loop() {
    // -40 is the sentinel for ELOOP, the code the OS reports when a
    // resolve constraint forbids following a symbolic link.
    match openat2_result(-40) {
        Ok(_) => panic!("a negative raw value must be an error"),
        Err(e) => {
            assert_eq!(e.raw_os_error(), 40);
            assert_eq!(e.kind(), ErrorKind::FilesystemLoop);
        }
    }
}

#[test]
fn extreme_raw_results() {
    match openat2_result(i32::MAX as i64) {
        Ok(fd) => assert_eq!(fd.as_raw_fd(), i32::MAX),
        Err(_) => panic!("a non-negative raw value must be a handle"),
    }
    match openat2_result(-(i32::MAX as i64)) {
        Ok(_) => panic!("a negative raw value must be an error"),
        Err(e) => assert_eq!(e.raw_os_error(), i32::MAX),
    }
}
