use lgio::adapters::{read_into, FillAttempt};
use lgio::{BufRead, BufReadExt, BufWrite, BufWriteExt};
use std::io::ErrorKind;

/// A reader and writer over two buffers whose views hold at most `step` bytes. A read
/// fails with `read_fault` and a write with `write_fault`, each as long as it is set.
struct Duplex {
    input: Vec<u8>,
    output: Vec<u8>,
    step: usize,
    flushes: usize,
    read_fault: Option<ErrorKind>,
    write_fault: Option<ErrorKind>,
}

impl Duplex {
    fn over(input: &[u8], step: usize) -> Self {
        Duplex {
            input: input.to_vec(),
            output: Vec::new(),
            step,
            flushes: 0,
            read_fault: None,
            write_fault: None,
        }
    }
}

impl BufRead for Duplex {
    type ReadError = ErrorKind;

    fn fill_buf(&mut self) -> Result<&[u8], ErrorKind> {
        match self.read_fault {
            Some(fault) => Err(fault),
            None => Ok(&self.input[..self.step.min(self.input.len())]),
        }
    }

    fn consume(&mut self, amount: usize) {
        self.input.drain(..amount);
    }
}

impl BufWrite for Duplex {
    type WriteError = ErrorKind;

    fn write_all(&mut self, bytes: &[u8]) -> Result<(), ErrorKind> {
        match self.write_fault {
            Some(fault) => Err(fault),
            None => {
                self.output.extend_from_slice(bytes);
                Ok(())
            },
        }
    }

    fn flush(&mut self) -> Result<(), ErrorKind> {
        match self.write_fault {
            Some(fault) => Err(fault),
            None => {
                self.flushes += 1;
                Ok(())
            },
        }
    }
}

#[test]
fn read_into_copies_what_fits_and_consumes_it() {
    let mut reader: &[u8] = &[1, 2, 3, 4, 5];
    let mut buf = [0u8; 3];
    assert_eq!(read_into(&mut reader, &mut buf).unwrap_or_else(|never| match never {}), 3);
    assert_eq!(buf, [1, 2, 3]);
    assert_eq!(reader, &[4, 5]);
    assert_eq!(read_into(&mut reader, &mut buf).unwrap_or_else(|never| match never {}), 2);
    assert_eq!(buf, [4, 5, 3]);
    assert_eq!(read_into(&mut reader, &mut buf).unwrap_or_else(|never| match never {}), 0);
    assert_eq!(buf, [4, 5, 3]);
}

#[test]
fn read_into_an_empty_buffer_consumes_nothing() {
    let mut reader: &[u8] = &[1, 2];
    let mut buf = [0u8; 0];
    assert_eq!(read_into(&mut reader, &mut buf).unwrap_or_else(|never| match never {}), 0);
    assert_eq!(reader, &[1, 2]);
}

#[test]
fn read_into_asks_for_one_view_only() {
    let mut reader = Duplex::over(&[1, 2, 3, 4, 5], 2);
    let mut buf = [0u8; 4];
    assert_eq!(read_into(&mut reader, &mut buf), Ok(2));
    assert_eq!(buf, [1, 2, 0, 0]);
    assert_eq!(reader.input, vec![3, 4, 5]);
}

#[test]
fn std_reader_reads_by_copying() {
    let mut reader = Duplex::over(&[1, 2, 3, 4, 5], 4).into_std_reader();
    let mut buf = [0u8; 3];
    assert_eq!(reader.read(&mut buf).unwrap(), 3);
    assert_eq!(buf, [1, 2, 3]);
    assert_eq!(reader.read(&mut buf).unwrap(), 2);
    assert_eq!(buf, [4, 5, 3]);
    assert_eq!(reader.read(&mut buf).unwrap(), 0);
    assert_eq!(reader.fill_buf().unwrap(), &[] as &[u8]);
}

#[test]
fn std_reader_shows_and_consumes_views() {
    let mut reader = Duplex::over(&[1, 2, 3], 2).into_std_reader();
    assert_eq!(reader.fill_buf().unwrap(), &[1, 2]);
    reader.consume(1);
    assert_eq!(reader.fill_buf().unwrap(), &[2, 3]);
    reader.consume(2);
    assert_eq!(reader.fill_buf().unwrap(), &[] as &[u8]);
}

#[test]
fn std_reader_converts_a_failure() {
    let mut inner = Duplex::over(&[1, 2, 3], 2);
    inner.read_fault = Some(ErrorKind::TimedOut);
    let mut reader = inner.into_std_reader();
    let mut buf = [7u8; 2];
    assert_eq!(reader.read(&mut buf).unwrap_err().kind(), ErrorKind::TimedOut);
    assert_eq!(buf, [7, 7]);
    assert_eq!(reader.fill_buf().unwrap_err().kind(), ErrorKind::TimedOut);
}

#[test]
fn std_adapter_reads_and_writes() {
    let mut both = Duplex::over(&[1, 2, 3], 2).into_std();
    let mut buf = [0u8; 5];
    assert_eq!(both.read(&mut buf).unwrap(), 2);
    assert_eq!(buf, [1, 2, 0, 0, 0]);
    assert_eq!(both.fill_buf().unwrap(), &[3]);
    both.consume(1);
    assert_eq!(both.read(&mut buf).unwrap(), 0);
    assert_eq!(both.write(&[4, 5, 6]).unwrap(), 3);
    assert_eq!(both.write(&[]).unwrap(), 0);
    assert!(both.write_all(&[7]).is_ok());
    assert!(both.flush().is_ok());
}

#[test]
fn std_adapter_converts_failures_of_both_kinds() {
    let mut inner = Duplex::over(&[1], 1);
    inner.read_fault = Some(ErrorKind::NotFound);
    inner.write_fault = Some(ErrorKind::BrokenPipe);
    let mut both = inner.into_std();
    let mut buf = [0u8; 1];
    assert_eq!(both.read(&mut buf).unwrap_err().kind(), ErrorKind::NotFound);
    assert_eq!(both.fill_buf().unwrap_err().kind(), ErrorKind::NotFound);
    assert_eq!(both.write(&[1]).unwrap_err().kind(), ErrorKind::BrokenPipe);
    assert_eq!(both.write_all(&[1]).unwrap_err().kind(), ErrorKind::BrokenPipe);
    assert_eq!(both.flush().unwrap_err().kind(), ErrorKind::BrokenPipe);
}

#[test]
fn std_writer_counts_what_it_writes() {
    let mut inner = Duplex::over(&[], 1);
    {
        let mut writer = BufWriteExt::by_ref(&mut inner).into_std_writer();
        assert_eq!(writer.write(&[1, 2, 3]).unwrap(), 3);
        assert_eq!(writer.write(&[]).unwrap(), 0);
        assert!(writer.write_all(&[4]).is_ok());
        assert!(writer.flush().is_ok());
    }
    assert_eq!(inner.output, vec![1, 2, 3, 4]);
    assert_eq!(inner.flushes, 1);
}

#[test]
fn std_writer_converts_a_failure() {
    let mut inner = Duplex::over(&[], 1);
    inner.write_fault = Some(ErrorKind::WriteZero);
    let mut writer = inner.into_std_writer();
    assert_eq!(writer.write(&[1]).unwrap_err().kind(), ErrorKind::WriteZero);
    assert_eq!(writer.write_all(&[1]).unwrap_err().kind(), ErrorKind::WriteZero);
    assert_eq!(writer.flush().unwrap_err().kind(), ErrorKind::WriteZero);
}

#[test]
fn only_an_interruption_is_retried() {
    assert!(FillAttempt::Interrupted.retries());
    assert!(!FillAttempt::Filled.retries());
    assert!(!FillAttempt::Failed.retries());
}
