use shm_adapter::adapter::{create, open, unmap, close, destroy};
use shm_adapter::error::ShmError;
use shm_adapter::flow::Platform;
use shm_adapter::model::ModelOs;

#[test]
fn round_trip_scenario() {
    // create a segment, write a pattern, open it through a second handle,
    // read the pattern back, then destroy the name
    let mut os = ModelOs::new(Platform::Posix);
    let (addr, handle) = create(&mut os, 4096, "seg1").unwrap();
    os.write_byte(addr, 0, 1);
    os.write_byte(addr, 1, 2);
    os.write_byte(addr, 2, 3);

    let (addr2, handle2) = open(&mut os, 4096, "seg1").unwrap();
    assert_eq!(os.read_byte(addr2, 0), 1);
    assert_eq!(os.read_byte(addr2, 1), 2);
    assert_eq!(os.read_byte(addr2, 2), 3);

    assert_eq!(unmap(&mut os, addr2, 4096), Ok(()));
    assert_eq!(close(&mut os, handle2), Ok(()));
    assert_eq!(unmap(&mut os, addr, 4096), Ok(()));
    assert_eq!(close(&mut os, handle), Ok(()));

    assert_eq!(destroy(&mut os, "seg1"), Ok(()));
    let err = open(&mut os, 4096, "seg1").unwrap_err();
    assert!(matches!(err, ShmError::OpenError { code: 2 }));
    assert!(err.is_not_found());
}

#[test]
fn created_segment_starts_zeroed() {
    let mut os = ModelOs::new(Platform::Posix);
    let (addr, _handle) = create(&mut os, 64, "zeroed").unwrap();
    for off in 0..64 {
        assert_eq!(os.read_byte(addr, off), 0);
    }
}

#[test]
fn round_trip_after_unmap_and_close() {
    // the pattern survives unmapping and closing: a fresh open sees it
    let mut os = ModelOs::new(Platform::Posix);
    let (addr, handle) = create(&mut os, 128, "persist").unwrap();
    let pattern: Vec<u8> = vec![9, 8, 7, 6, 5];
    os.write_bytes(addr, &pattern);
    assert_eq!(unmap(&mut os, addr, 128), Ok(()));
    assert_eq!(close(&mut os, handle), Ok(()));

    let (addr2, _h2) = open(&mut os, 128, "persist").unwrap();
    for (i, expected) in pattern.iter().enumerate() {
        assert_eq!(os.read_byte(addr2, i), *expected);
    }
    assert_eq!(os.read_byte(addr2, 5), 0);
}

#[test]
fn failed_create_leaves_no_named_object() {
    // whichever internal call fails, a failed create of a fresh name
    // leaves the name unbound: the next open reports not-found
    for step in 0..3 {
        let mut os = ModelOs::new(Platform::Posix);
        os.arm_failure(step, 13);
        let err = create(&mut os, 4096, "ghost").unwrap_err();
        assert!(matches!(err, ShmError::CreationError { code: 13 }));
        let err = open(&mut os, 4096, "ghost").unwrap_err();
        assert!(err.is_not_found());
    }
}

#[test]
fn failed_create_leaves_no_named_object_on_windows() {
    for step in 0..2 {
        let mut os = ModelOs::new(Platform::Windows);
        os.arm_failure(step, 5);
        let err = create(&mut os, 4096, "ghost").unwrap_err();
        assert!(matches!(err, ShmError::CreationError { code: 5 }));
        let err = open(&mut os, 4096, "ghost").unwrap_err();
        assert!(err.is_not_found());
    }
}

#[test]
fn double_open_sees_writes_from_either_mapping() {
    let mut os = ModelOs::new(Platform::Posix);
    let (addr, handle) = create(&mut os, 32, "shared").unwrap();
    assert_eq!(unmap(&mut os, addr, 32), Ok(()));
    assert_eq!(close(&mut os, handle), Ok(()));

    let (a1, _h1) = open(&mut os, 32, "shared").unwrap();
    let (a2, _h2) = open(&mut os, 32, "shared").unwrap();
    os.write_byte(a1, 3, 42);
    assert_eq!(os.read_byte(a2, 3), 42);
    os.write_byte(a2, 4, 17);
    assert_eq!(os.read_byte(a1, 4), 17);
}

#[test]
fn cleanup_order_succeeds_and_destroy_twice_fails() {
    let mut os = ModelOs::new(Platform::Posix);
    let (addr, handle) = create(&mut os, 16, "once").unwrap();
    assert_eq!(unmap(&mut os, addr, 16), Ok(()));
    assert_eq!(close(&mut os, handle), Ok(()));
    assert_eq!(destroy(&mut os, "once"), Ok(()));
    assert_eq!(destroy(&mut os, "once"), Err(ShmError::DestroyError { code: 2 }));
}

#[test]
fn destroy_never_created_fails() {
    let mut os = ModelOs::new(Platform::Posix);
    assert_eq!(destroy(&mut os, "nobody"), Err(ShmError::DestroyError { code: 2 }));
}

#[test]
fn unmap_is_not_idempotent_and_close_is_not_either() {
    let mut os = ModelOs::new(Platform::Posix);
    let (addr, handle) = create(&mut os, 16, "twice").unwrap();
    assert_eq!(unmap(&mut os, addr, 16), Ok(()));
    assert_eq!(unmap(&mut os, addr, 16), Err(ShmError::UnmapError { code: 22 }));
    assert_eq!(close(&mut os, handle), Ok(()));
    assert_eq!(close(&mut os, handle), Err(ShmError::CloseError { code: 9 }));
}

#[test]
fn posix_name_survives_closing_all_handles() {
    let mut os = ModelOs::new(Platform::Posix);
    let (addr, handle) = create(&mut os, 16, "sticky").unwrap();
    assert_eq!(unmap(&mut os, addr, 16), Ok(()));
    assert_eq!(close(&mut os, handle), Ok(()));
    // the name persists until explicitly unlinked
    assert!(open(&mut os, 16, "sticky").is_ok());
}

#[test]
fn windows_name_dies_with_its_last_handle() {
    let mut os = ModelOs::new(Platform::Windows);
    let (addr, handle) = create(&mut os, 16, "fleeting").unwrap();
    assert_eq!(unmap(&mut os, addr, 16), Ok(()));
    assert_eq!(close(&mut os, handle), Ok(()));
    // the system reclaimed the object when its last handle closed
    let err = open(&mut os, 16, "fleeting").unwrap_err();
    assert!(err.is_not_found());
}

#[test]
fn windows_name_survives_while_another_handle_is_open() {
    let mut os = ModelOs::new(Platform::Windows);
    let (addr, handle) = create(&mut os, 16, "held").unwrap();
    let (addr2, handle2) = open(&mut os, 16, "held").unwrap();
    assert_eq!(unmap(&mut os, addr, 16), Ok(()));
    assert_eq!(close(&mut os, handle), Ok(()));
    // the second handle keeps the object alive
    assert!(open(&mut os, 16, "held").is_ok());
    assert_eq!(unmap(&mut os, addr2, 16), Ok(()));
    assert_eq!(close(&mut os, handle2), Ok(()));
}

#[test]
fn destroyed_name_keeps_existing_mappings_alive() {
    let mut os = ModelOs::new(Platform::Posix);
    let (addr, handle) = create(&mut os, 16, "lingering").unwrap();
    os.write_byte(addr, 0, 99);
    // unlink is immediate for future opens, but the mapping stays valid
    assert_eq!(destroy(&mut os, "lingering"), Ok(()));
    assert!(open(&mut os, 16, "lingering").unwrap_err().is_not_found());
    assert_eq!(os.read_byte(addr, 0), 99);
    assert_eq!(unmap(&mut os, addr, 16), Ok(()));
    assert_eq!(close(&mut os, handle), Ok(()));
}

#[test]
fn create_on_bound_name_opens_the_existing_object() {
    // creation without exclusivity opens the existing object, as the
    // native calls do
    let mut os = ModelOs::new(Platform::Posix);
    let (addr, _h) = create(&mut os, 16, "dup").unwrap();
    os.write_byte(addr, 0, 7);
    let (addr2, _h2) = create(&mut os, 16, "dup").unwrap();
    assert_eq!(os.read_byte(addr2, 0), 7);
}

#[test]
fn windows_destroy_waits_for_other_handles() {
    let mut os = ModelOs::new(Platform::Windows);
    let (addr, handle) = create(&mut os, 16, "refcounted").unwrap();
    // destroy while the creator's handle is still open: the close inside
    // destroy reclaims nothing, so the name survives for now
    assert_eq!(destroy(&mut os, "refcounted"), Ok(()));
    let (addr2, handle2) = open(&mut os, 16, "refcounted").unwrap();
    // once every handle is closed the system reclaims the object
    assert_eq!(unmap(&mut os, addr, 16), Ok(()));
    assert_eq!(close(&mut os, handle), Ok(()));
    assert_eq!(unmap(&mut os, addr2, 16), Ok(()));
    assert_eq!(close(&mut os, handle2), Ok(()));
    assert!(open(&mut os, 16, "refcounted").unwrap_err().is_not_found());
}
