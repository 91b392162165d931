use shm_adapter::error::ShmError;
use shm_adapter::name::{check_name, c_name_bytes};

#[test]
fn valid_names_are_accepted() {
    assert!(check_name("seg1"));
    assert!(check_name("my_shared_memory"));
    assert!(check_name("/with_leading_slash"));
    assert!(check_name("x"));
}

#[test]
fn empty_name_is_rejected() {
    assert!(!check_name(""));
}

#[test]
fn embedded_null_is_rejected() {
    assert!(!check_name("seg\0one"));
    assert!(!check_name("\0"));
    assert!(!check_name("trailing\0"));
}

#[test]
fn c_name_bytes_appends_exactly_one_null() {
    let bytes = c_name_bytes("abc");
    assert_eq!(bytes, vec![97u8, 98, 99, 0]);
}

#[test]
fn error_codes_are_kept_verbatim() {
    assert_eq!(ShmError::CreationError { code: 17 }.code(), 17);
    assert_eq!(ShmError::OpenError { code: 2 }.code(), 2);
    assert_eq!(ShmError::UnmapError { code: 22 }.code(), 22);
    assert_eq!(ShmError::CloseError { code: 9 }.code(), 9);
    assert_eq!(ShmError::DestroyError { code: 2 }.code(), 2);
}

#[test]
fn not_found_is_distinguished() {
    assert!(ShmError::OpenError { code: 2 }.is_not_found());
    assert!(!ShmError::OpenError { code: 13 }.is_not_found());
    assert!(ShmError::DestroyError { code: 2 }.is_not_found());
}

#[test]
fn errors_name_their_operation() {
    assert_eq!(ShmError::CreationError { code: 1 }.operation(), "create");
    assert_eq!(ShmError::OpenError { code: 1 }.operation(), "open");
    assert_eq!(ShmError::UnmapError { code: 1 }.operation(), "unmap");
    assert_eq!(ShmError::CloseError { code: 1 }.operation(), "close");
    assert_eq!(ShmError::DestroyError { code: 1 }.operation(), "destroy");
}

#[test]
fn utf16_names_are_encoded_with_a_terminator() {
    assert_eq!(shm_adapter::name::to_utf16("abc"), vec![97u16, 98, 99, 0]);
    assert_eq!(shm_adapter::name::to_utf16(""), vec![0u16]);
}

#[test]
fn utf16_supplementary_characters_become_surrogate_pairs() {
    // U+1F600 encodes as the pair 0xD83D 0xDE00
    assert_eq!(shm_adapter::name::to_utf16("\u{1F600}"), vec![0xD83Du16, 0xDE00, 0]);
    // U+00E9 is a single unit
    assert_eq!(shm_adapter::name::to_utf16("\u{00E9}"), vec![0x00E9u16, 0]);
}
