use etch::models::Progress;
use etch::verification::{compare_chunks, VerifyError, VerifyPass, VERIFY_CHUNK_SIZE};

#[test]
fn equal_chunks_give_nothing_to_report() {
    assert_eq!(compare_chunks(&[1, 2, 3], &[1, 2, 3], 0), Ok(()));
    assert_eq!(compare_chunks(&[], &[], 77), Ok(()));
}

#[test]
fn a_difference_is_cited_with_offset_and_both_bytes() {
    assert_eq!(
        compare_chunks(&[9, 8, 7, 6], &[9, 8, 0xff, 6], 1000),
        Err(VerifyError::DataMismatch { offset: 1002, source_byte: 7, target_byte: 0xff })
    );
    // Of several differences the first is cited.
    assert_eq!(
        compare_chunks(&[0, 0, 0], &[1, 0, 1], 0),
        Err(VerifyError::DataMismatch { offset: 0, source_byte: 0, target_byte: 1 })
    );
}

#[test]
fn a_short_read_is_a_size_mismatch_at_the_start_of_the_chunk() {
    assert_eq!(
        compare_chunks(&[1, 2, 3], &[1, 2], 4096),
        Err(VerifyError::SizeMismatch { offset: 4096, expected: 3, got: 2 })
    );
    assert_eq!(
        compare_chunks(&[1], &[], 0),
        Err(VerifyError::SizeMismatch { offset: 0, expected: 1, got: 0 })
    );
}

#[test]
fn mismatches_are_worded_with_offset_and_hexadecimal_bytes() {
    assert_eq!(
        VerifyError::DataMismatch { offset: 5242880, source_byte: 0, target_byte: 0xab }.message(),
        "Verification failed: data mismatch at byte offset 5242880. Source: 0x00, Target: 0xab"
    );
    assert_eq!(
        VerifyError::SizeMismatch { offset: 1048576, expected: 1048576, got: 512 }.message(),
        "Verification failed: size mismatch at offset 1048576. Expected 1048576 bytes, got 512 bytes"
    );
}

#[test]
fn a_pass_counts_what_it_verified_and_reports_on_the_interval() {
    let mut pass = VerifyPass::start(6, 0);
    assert_eq!(pass.check(&[1, 2], &[1, 2], 10), Ok(None));
    assert_eq!(pass.verified, 2);
    assert_eq!(
        pass.check(&[3, 4], &[3, 4], 100_000_000),
        Ok(Some(Progress { bytes_processed: 4, total_bytes: 6, bytes_per_second: 40 }))
    );
    assert_eq!(
        pass.check(&[5, 6], &[5, 6], 100_000_001),
        Ok(Some(Progress { bytes_processed: 6, total_bytes: 6, bytes_per_second: 59 }))
    );
    assert_eq!(
        pass.finish(2_000_000_000),
        Some(Progress { bytes_processed: 6, total_bytes: 6, bytes_per_second: 3 })
    );
    assert_eq!(VerifyPass::start(0, 0).finish(5), None);
}

#[test]
fn a_pass_stays_where_it_was_on_a_mismatch() {
    let mut pass = VerifyPass::start(4, 0);
    assert_eq!(pass.check(&[1, 2], &[1, 2], 1), Ok(None));
    let before = pass;
    assert_eq!(
        pass.check(&[3, 4], &[3, 5], 2),
        Err(VerifyError::DataMismatch { offset: 3, source_byte: 4, target_byte: 5 })
    );
    assert_eq!(pass, before);
}

fn verify_in_chunks(source: &[u8], target: &[u8], chunk: usize) -> Result<u64, VerifyError> {
    let mut pass = VerifyPass::start(source.len() as u64, 0);
    let mut at = 0usize;
    while at < source.len() {
        let end = (at + chunk).min(source.len());
        let target_end = end.min(target.len());
        let target_start = at.min(target_end);
        pass.check(&source[at..end], &target[target_start..target_end], at as u64)?;
        at = end;
    }
    Ok(pass.verified)
}

#[test]
fn a_pass_succeeds_exactly_when_the_target_holds_the_source() {
    let source: Vec<u8> = (0..10_000u32).map(|i| (i % 251) as u8).collect();
    for chunk in [1usize, 7, 4096, 10_000, 65_536] {
        assert_eq!(verify_in_chunks(&source, &source, chunk), Ok(10_000));
        // A larger target that starts with the source is good as well.
        let mut larger = source.clone();
        larger.extend_from_slice(&[0xee; 100]);
        assert_eq!(verify_in_chunks(&source, &larger, chunk), Ok(10_000));
        for k in [0usize, 1, 4095, 4096, 9_999] {
            let mut target = source.clone();
            target[k] ^= 0x40;
            assert_eq!(
                verify_in_chunks(&source, &target, chunk),
                Err(VerifyError::DataMismatch {
                    offset: k as u64,
                    source_byte: source[k],
                    target_byte: source[k] ^ 0x40,
                })
            );
        }
    }
}

#[test]
fn a_target_that_is_too_short_fails_by_size() {
    let source = vec![5u8; 3000];
    let target = vec![5u8; 2500];
    assert_eq!(
        verify_in_chunks(&source, &target, 1000),
        Err(VerifyError::SizeMismatch { offset: 2000, expected: 1000, got: 500 })
    );
}

#[test]
fn the_verify_chunk_is_one_mebibyte() {
    assert_eq!(VERIFY_CHUNK_SIZE, 1024 * 1024);
}
