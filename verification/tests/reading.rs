use lgio::error::{ReadExactError, UnexpectedEnd};
use lgio::{BufRead, BufReadExt};

/// A reader that hands out its bytes at most `step` at a time and, once `fuse` views have
/// been handed out, fails.
struct Chunked {
    data: Vec<u8>,
    step: usize,
    fuse: usize,
}

impl BufRead for Chunked {
    type ReadError = &'static str;

    fn fill_buf(&mut self) -> Result<&[u8], &'static str> {
        if self.fuse == 0 {
            return Err("blown");
        }
        self.fuse -= 1;
        let shown = self.step.min(self.data.len());
        Ok(&self.data[..shown])
    }

    fn consume(&mut self, amount: usize) {
        self.data.drain(..amount);
    }
}

#[test]
fn read_byte_walks_the_stream() {
    let mut reader: &[u8] = &[10, 20];
    assert_eq!(reader.read_byte().unwrap_or_else(|infallible| match infallible {}), Some(10));
    assert_eq!(reader.read_byte().unwrap_or_else(|infallible| match infallible {}), Some(20));
    assert_eq!(reader.read_byte().unwrap_or_else(|infallible| match infallible {}), None);
    assert_eq!(reader.read_byte().unwrap_or_else(|infallible| match infallible {}), None);
}

#[test]
fn read_byte_passes_a_failure_on() {
    let mut reader = Chunked { data: vec![1], step: 1, fuse: 1 };
    assert_eq!(reader.read_byte(), Ok(Some(1)));
    assert_eq!(reader.read_byte(), Err("blown"));
}

#[test]
fn read_exact_fills_the_buffer_and_consumes_it() {
    let mut reader: &[u8] = &[1, 2, 3, 4, 5];
    let mut buf = [0u8; 3];
    assert!(reader.read_exact(&mut buf).is_ok());
    assert_eq!(buf, [1, 2, 3]);
    assert_eq!(reader, &[4, 5]);
    let mut none = [0u8; 0];
    assert!(reader.read_exact(&mut none).is_ok());
    assert_eq!(reader, &[4, 5]);
    let mut rest = [0u8; 2];
    assert!(reader.read_exact(&mut rest).is_ok());
    assert_eq!(rest, [4, 5]);
    assert_eq!(reader, &[] as &[u8]);
}

#[test]
fn read_exact_gathers_several_views() {
    let mut reader = Chunked { data: vec![1, 2, 3, 4, 5, 6, 7], step: 2, fuse: 100 };
    let mut buf = [0u8; 5];
    assert!(reader.read_exact(&mut buf).is_ok());
    assert_eq!(buf, [1, 2, 3, 4, 5]);
    assert_eq!(reader.data, vec![6, 7]);
}

#[test]
fn read_exact_reports_what_was_missing() {
    let mut reader: &[u8] = &[1, 2];
    let mut buf = [0u8; 5];
    let end = reader.read_exact(&mut buf).unwrap_err().into_unexpected_end();
    assert_eq!(end, UnexpectedEnd::new(5, 3));
    assert_eq!(&buf[..2], &[1, 2]);
    assert_eq!(reader, &[] as &[u8]);
}

#[test]
fn read_exact_passes_a_failure_on_without_reading_past_the_buffer() {
    let mut reader = Chunked { data: vec![1, 2, 3, 4, 5, 6], step: 2, fuse: 1 };
    let mut buf = [0u8; 4];
    match reader.read_exact(&mut buf) {
        Err(ReadExactError::ReadingFailed(error)) => assert_eq!(error, "blown"),
        _ => panic!("the reader should have failed"),
    }
    assert_eq!(&buf[..2], &[1, 2]);
    assert_eq!(reader.data, vec![3, 4, 5, 6]);
}

#[test]
fn read_to_end_counts_what_it_appends() {
    let mut reader = Chunked { data: vec![1, 2, 3, 4, 5], step: 2, fuse: 100 };
    let mut out = vec![0u8];
    assert_eq!(reader.read_to_end(&mut out), Ok(5));
    assert_eq!(out, vec![0, 1, 2, 3, 4, 5]);
    assert!(reader.data.is_empty());
}

#[test]
fn read_to_end_keeps_what_it_read_before_a_failure() {
    let mut reader = Chunked { data: vec![1, 2, 3, 4, 5], step: 2, fuse: 2 };
    let mut out = vec![0u8];
    assert_eq!(reader.read_to_end(&mut out), Err("blown"));
    assert_eq!(out, vec![0, 1, 2, 3, 4]);
    assert_eq!(reader.data, vec![5]);
}
