use core::convert::Infallible;
use lgio::error::{BufferOverflow, ReadExactError, UnexpectedEnd};

#[test]
fn buffer_overflow_keeps_its_count() {
    assert_eq!(BufferOverflow::new(0).bytes_past_end(), 0);
    assert_eq!(BufferOverflow::new(17).bytes_past_end(), 17);
    assert_eq!(BufferOverflow::new(usize::MAX).bytes_past_end(), usize::MAX);
    assert_eq!(BufferOverflow::new(3), BufferOverflow::new(3));
    assert_ne!(BufferOverflow::new(3), BufferOverflow::new(4));
}

#[test]
fn unexpected_end_keeps_both_counts_apart() {
    let end = UnexpectedEnd::new(8, 3);
    assert_eq!(end.total_required(), 8);
    assert_eq!(end.available(), 3);
    assert_ne!(end, UnexpectedEnd::new(3, 8));
    assert_eq!(end.clone(), end);
}

#[test]
fn unexpected_end_shorthand_builds_the_early_end_variant() {
    let error: ReadExactError<u8> = ReadExactError::unexpected_end(10, 4);
    match error {
        ReadExactError::UnexpectedEnd(end) => assert_eq!(end, UnexpectedEnd::new(10, 4)),
        ReadExactError::ReadingFailed(_) => panic!("wrong variant"),
    }
}

#[test]
fn map_read_err_maps_a_failure() {
    let error: ReadExactError<u8> = ReadExactError::ReadingFailed(20);
    match error.map_read_err(|code| u32::from(code) * 2) {
        ReadExactError::ReadingFailed(code) => assert_eq!(code, 40u32),
        ReadExactError::UnexpectedEnd(_) => panic!("wrong variant"),
    }
}

#[test]
fn map_read_err_leaves_an_early_end_alone() {
    let error: ReadExactError<u8> = ReadExactError::unexpected_end(5, 2);
    let mut called = false;
    let mapped: ReadExactError<u32> = error.map_read_err(|code| {
        called = true;
        u32::from(code)
    });
    match mapped {
        ReadExactError::UnexpectedEnd(end) => assert_eq!(end, UnexpectedEnd::new(5, 2)),
        ReadExactError::ReadingFailed(_) => panic!("wrong variant"),
    }
    assert!(!called);
}

#[test]
fn into_unexpected_end_unwraps_the_early_end() {
    let error: ReadExactError<Infallible> = ReadExactError::unexpected_end(6, 1);
    assert_eq!(error.into_unexpected_end(), UnexpectedEnd::new(6, 1));
}

#[test]
fn early_end_converts_into_the_read_error() {
    let error: ReadExactError<u8> = UnexpectedEnd::new(9, 7).into();
    match error {
        ReadExactError::UnexpectedEnd(end) => assert_eq!(end, UnexpectedEnd::new(9, 7)),
        ReadExactError::ReadingFailed(_) => panic!("wrong variant"),
    }
    let same: ReadExactError<u8> = ReadExactError::from(UnexpectedEnd::new(9, 7));
    assert!(matches!(same, ReadExactError::UnexpectedEnd(end) if end.available() == 7));
}
