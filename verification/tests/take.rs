use lgio::adapters::min;
use lgio::error::UnexpectedEnd;
use lgio::{BufRead, BufReadExt};

#[test]
fn take_zero() {
    let mut reader = (&[1, 2, 3]).take(0);
    assert_eq!(reader.fill_buf().unwrap_or_else(|infallible| match infallible {}), &[]);
    let mut buf = [0; 1];

    assert!(reader.read_exact(&mut buf).is_err());
}

#[test]
fn take_one() {
    let mut reader = (&[1, 2, 3]).take(1);
    assert_eq!(reader.fill_buf().unwrap_or_else(|infallible| match infallible {}), &[1]);
    reader.consume(1);
    assert_eq!(reader.fill_buf().unwrap_or_else(|infallible| match infallible {}), &[]);
    let mut buf = [0; 1];
    assert!(reader.read_exact(&mut buf).is_err());
}

#[test]
fn take_zero_short_read_reports_both_counts() {
    let mut reader = (&[1u8, 2, 3] as &[u8]).take(0);
    assert_eq!(reader.fill_buf().unwrap_or_else(|infallible| match infallible {}), &[]);
    let mut buf = [0u8; 1];
    let end = reader.read_exact(&mut buf).unwrap_err().into_unexpected_end();
    assert_eq!(end.total_required(), 1);
    assert_eq!(end.available(), 1);
    assert_eq!(end, UnexpectedEnd::new(1, 1));
}

#[test]
fn take_yields_the_front_up_to_the_limit() {
    let data: &[u8] = &[1, 2, 3, 4, 5];
    for (limit, expected) in [
        (0u64, vec![]),
        (1, vec![1u8]),
        (4, vec![1, 2, 3, 4]),
        (5, vec![1, 2, 3, 4, 5]),
        (6, vec![1, 2, 3, 4, 5]),
        (u64::MAX, vec![1, 2, 3, 4, 5]),
    ] {
        let mut reader = data.take(limit);
        let mut out = Vec::new();
        let total = reader.read_to_end(&mut out).unwrap_or_else(|infallible| match infallible {});
        assert_eq!(total, expected.len());
        assert_eq!(out, expected);
        assert_eq!(reader.fill_buf().unwrap_or_else(|infallible| match infallible {}), &[]);
    }
}

#[test]
fn take_cuts_the_view_to_the_budget() {
    let data: &[u8] = &[1, 2, 3, 4, 5];
    let mut reader = data.take(3);
    assert_eq!(reader.fill_buf().unwrap_or_else(|infallible| match infallible {}), &[1, 2, 3]);
    reader.consume(2);
    assert_eq!(reader.fill_buf().unwrap_or_else(|infallible| match infallible {}), &[3]);
    reader.consume(1);
    assert_eq!(reader.fill_buf().unwrap_or_else(|infallible| match infallible {}), &[]);
}

/// A reader over `data` that counts how often it is asked for a view and fails while
/// `failures` is not zero.
struct Watched {
    data: Vec<u8>,
    fills: usize,
    failures: usize,
}

impl BufRead for Watched {
    type ReadError = &'static str;

    fn fill_buf(&mut self) -> Result<&[u8], &'static str> {
        self.fills += 1;
        if self.failures > 0 {
            self.failures -= 1;
            Err("not now")
        } else {
            Ok(&self.data)
        }
    }

    fn consume(&mut self, amount: usize) {
        self.data.drain(..amount);
    }
}

#[test]
fn take_with_no_budget_leaves_the_reader_alone() {
    let mut inner = Watched { data: vec![1, 2, 3], fills: 0, failures: 0 };
    {
        let mut reader = inner.by_ref().take(0);
        assert_eq!(reader.fill_buf(), Ok(&[][..]));
        assert_eq!(reader.fill_buf(), Ok(&[][..]));
    }
    assert_eq!(inner.fills, 0);
    {
        let mut reader = inner.by_ref().take(2);
        assert_eq!(reader.fill_buf(), Ok(&[1u8, 2][..]));
        reader.consume(2);
        assert_eq!(reader.fill_buf(), Ok(&[][..]));
        assert_eq!(reader.fill_buf(), Ok(&[][..]));
    }
    assert_eq!(inner.fills, 1);
    assert_eq!(inner.data, vec![3]);
}

#[test]
fn take_keeps_its_budget_when_the_reader_fails() {
    let inner = Watched { data: vec![1, 2, 3], fills: 0, failures: 1 };
    let mut reader = inner.take(2);
    assert_eq!(reader.fill_buf(), Err("not now"));
    assert_eq!(reader.fill_buf(), Ok(&[1u8, 2][..]));
    reader.consume(2);
    assert_eq!(reader.fill_buf(), Ok(&[][..]));
}

#[test]
fn min_picks_the_smaller_of_budget_and_length() {
    assert_eq!(min(0, 0), 0);
    assert_eq!(min(0, 5), 0);
    assert_eq!(min(3, 5), 3);
    assert_eq!(min(5, 5), 5);
    assert_eq!(min(7, 5), 5);
    assert_eq!(min(u64::MAX, 5), 5);
    assert_eq!(min(4, usize::MAX), 4);
}

#[test]
fn take_budget_does_not_wrap_when_too_much_is_consumed() {
    let inner = Watched { data: vec![1, 2, 3], fills: 0, failures: 0 };
    let mut reader = inner.take(1);
    assert_eq!(reader.fill_buf(), Ok(&[1u8][..]));
    reader.consume(2);
    assert_eq!(reader.fill_buf(), Ok(&[][..]));
    let mut out = Vec::new();
    assert_eq!(reader.read_to_end(&mut out), Ok(0));
}
