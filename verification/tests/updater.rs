use etch::updater::{backup_path, has_updater_arguments, verify_binary, BinaryError};

#[test]
fn the_updater_takes_three_arguments() {
    assert!(has_updater_arguments(3));
    assert!(!has_updater_arguments(2));
    assert!(!has_updater_arguments(4));
    assert!(!has_updater_arguments(0));
}

#[test]
fn a_download_must_be_an_elf_binary() {
    assert_eq!(verify_binary(100, &[0x7f, b'E', b'L', b'F']), Ok(()));
    assert_eq!(verify_binary(100, &[0x7f, b'E', b'L', b'F', 2, 1]), Ok(()));
    assert_eq!(verify_binary(0, &[0x7f, b'E', b'L', b'F']), Err(BinaryError::Empty));
    assert_eq!(verify_binary(0, &[]), Err(BinaryError::Empty));
    assert_eq!(verify_binary(3, &[0x7f, b'E', b'L']), Err(BinaryError::Truncated));
    assert_eq!(verify_binary(100, b"#!/bin/sh"), Err(BinaryError::NotElf));
    assert_eq!(verify_binary(100, &[0x7f, b'E', b'L', b'G']), Err(BinaryError::NotElf));
    assert_eq!(BinaryError::Empty.message(), "Downloaded file is empty");
    assert_eq!(BinaryError::NotElf.message(), "Not a valid ELF binary");
    assert_eq!(BinaryError::Truncated.message(), "failed to fill whole buffer");
}

#[test]
fn the_old_binary_is_kept_beside_the_new() {
    assert_eq!(backup_path("/usr/bin/etch"), "/usr/bin/etch.backup");
    assert_eq!(backup_path(""), ".backup");
}
