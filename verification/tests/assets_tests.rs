use saga_stdlib::assets::{AssetError, AssetHandle, AssetResult, ReadStep};

#[test]
fn from_raw_rejects_non_positive_handles() {
    assert_eq!(AssetHandle::from_raw(0).unwrap_err(), AssetError::OpenFailed(0));
    assert_eq!(AssetHandle::from_raw(-3).unwrap_err(), AssetError::OpenFailed(-3));
    assert_eq!(AssetHandle::from_raw(i32::MIN).unwrap_err(), AssetError::OpenFailed(i32::MIN));
}

#[test]
fn from_raw_then_raw_gives_the_handle_back() {
    let h = AssetHandle::from_raw(7).unwrap();
    assert_eq!(h.raw(), 7);
    let h = AssetHandle::from_raw(i32::MAX).unwrap();
    assert_eq!(h.raw(), i32::MAX);
    let h = AssetHandle::from_raw(1).unwrap();
    assert_eq!(h.raw(), 1);
}

#[test]
fn error_kind_predicates() {
    let open = AssetError::OpenFailed(-1);
    let read = AssetError::ReadFailed(-1);
    let size = AssetError::SizeMismatch { expected: 1, actual: 2 };
    assert!(open.is_open_failure() && !open.is_read_failure());
    assert!(read.is_read_failure() && !read.is_open_failure());
    assert!(!size.is_open_failure() && !size.is_read_failure());
}

#[test]
fn read_outcome_maps_negative_answers_to_errors() {
    assert_eq!(AssetHandle::read_outcome(-1), Err(AssetError::ReadFailed(-1)));
    assert_eq!(AssetHandle::read_outcome(0), Ok(0));
    assert_eq!(AssetHandle::read_outcome(5), Ok(5));
    assert_eq!(AssetHandle::read_outcome(i32::MAX), Ok(i32::MAX as usize));
}

fn done(step: ReadStep) -> AssetResult<Vec<u8>> {
    match step {
        ReadStep::Done(r) => r,
        ReadStep::Again { .. } => panic!("expected the read to be over"),
    }
}

#[test]
fn read_to_end_finishes_when_the_buffer_is_full() {
    assert_eq!(done(AssetHandle::read_to_end(vec![1, 2, 3, 4], 0, 4)), Ok(vec![1, 2, 3, 4]));
    assert_eq!(done(AssetHandle::read_to_end(vec![1, 2, 3, 4], 3, 1)), Ok(vec![1, 2, 3, 4]));
}

#[test]
fn read_to_end_reads_again_after_a_short_read() {
    match AssetHandle::read_to_end(vec![1, 2, 3, 4], 0, 2) {
        ReadStep::Again { buf, filled } => {
            assert_eq!(buf, vec![1, 2, 3, 4]);
            assert_eq!(filled, 2);
        }
        ReadStep::Done(_) => panic!("expected another read"),
    }
}

#[test]
fn read_to_end_over_several_reads_gets_the_whole_asset() {
    // The host delivers a 5-byte asset 2, 2 and 1 bytes at a time.
    let asset = [10u8, 20, 30, 40, 50];
    let answers = [2, 2, 1];
    let mut buf = vec![0u8; asset.len()];
    let mut filled = 0;
    let mut reads = 0;
    let result = loop {
        let n = answers[reads];
        buf[filled..filled + n as usize].copy_from_slice(&asset[filled..filled + n as usize]);
        reads += 1;
        match AssetHandle::read_to_end(buf, filled, n) {
            ReadStep::Again { buf: b, filled: f } => {
                buf = b;
                filled = f;
            }
            ReadStep::Done(r) => break r,
        }
    };
    assert_eq!(reads, 3);
    assert_eq!(result, Ok(asset.to_vec()));
}

#[test]
fn read_to_end_stops_at_end_of_stream() {
    assert_eq!(done(AssetHandle::read_to_end(vec![1, 2, 3, 4], 2, 0)), Ok(vec![1, 2]));
    assert_eq!(done(AssetHandle::read_to_end(vec![1, 2, 3, 4], 0, 0)), Ok(vec![]));
    assert_eq!(done(AssetHandle::read_to_end(vec![], 0, 0)), Ok(vec![]));
}

#[test]
fn read_to_end_never_over_reports() {
    assert_eq!(done(AssetHandle::read_to_end(vec![9, 8, 7], 1, 10)), Ok(vec![9, 8, 7]));
}

#[test]
fn read_to_end_reports_read_failures() {
    assert_eq!(
        done(AssetHandle::read_to_end(vec![1, 2], 0, -1)),
        Err(AssetError::ReadFailed(-1))
    );
    assert_eq!(
        done(AssetHandle::read_to_end(vec![1, 2], 1, -9)),
        Err(AssetError::ReadFailed(-9))
    );
}

#[test]
fn check_exact_len_requires_matching_sizes() {
    assert_eq!(AssetHandle::check_exact_len(4, 4), Ok(()));
    assert_eq!(
        AssetHandle::check_exact_len(3, 4),
        Err(AssetError::SizeMismatch { expected: 3, actual: 4 })
    );
    assert_eq!(
        AssetHandle::check_exact_len(5, 0),
        Err(AssetError::SizeMismatch { expected: 5, actual: 0 })
    );
}

#[test]
fn read_exact_requires_all_bytes() {
    assert_eq!(AssetHandle::read_exact(4, 4), Ok(()));
    assert_eq!(AssetHandle::read_exact(0, 0), Ok(()));
    assert_eq!(
        AssetHandle::read_exact(4, 3),
        Err(AssetError::SizeMismatch { expected: 4, actual: 3 })
    );
    assert_eq!(
        AssetHandle::read_exact(4, 6),
        Err(AssetError::SizeMismatch { expected: 4, actual: 6 })
    );
    assert_eq!(AssetHandle::read_exact(4, -2), Err(AssetError::ReadFailed(-2)));
}

#[test]
fn asset_error_messages() {
    assert_eq!(
        AssetError::OpenFailed(-37).message(),
        "saga_asset_open failed (host code -37)"
    );
    assert_eq!(AssetError::OpenFailed(0).message(), "saga_asset_open failed (host code 0)");
    assert_eq!(
        AssetError::ReadFailed(i32::MIN).message(),
        "saga_asset_read failed (host code -2147483648)"
    );
    assert_eq!(
        AssetError::SizeMismatch { expected: 3, actual: 1024 }.message(),
        "asset size mismatch: caller buffer was 3 bytes, host-reported asset size was 1024 bytes"
    );
}
