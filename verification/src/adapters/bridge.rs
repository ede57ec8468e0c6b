use super::map_err::{converts, unifies_outcome, UnifyErr};
use crate::bytes::{copy_into, front_is_prefix};
use crate::{BufRead, BufReadExt, BufWrite};
use vstd::prelude::*;

verus! {

/// `std::io::Error`, of which nothing is known here but that values of it exist.
#[verifier::external_type_specification]
#[verifier::external_body]
pub struct ExIoError(std::io::Error);

/// The outcome of a write or a flush, as it is reported by a write that counts bytes.
pub open spec fn without_count<E>(counted: Result<usize, E>) -> Result<(), E> {
    match counted {
        Ok(_) => Ok(()),
        Err(error) => Err(error),
    }
}

/// What a copying read leaves behind, given the stream and the buffer it started from:
/// `count` bytes went from the front of the stream to the front of the buffer.
pub open spec fn copied_over(
    stream: Seq<u8>,
    buf: Seq<u8>,
    count: usize,
    stream_after: Seq<u8>,
    buf_after: Seq<u8>,
) -> bool {
    &&& count <= buf.len()
    &&& count <= stream.len()
    &&& (count == 0 <==> buf.len() == 0 || stream.len() == 0)
    &&& buf_after == stream.take(count as int) + buf.skip(count as int)
    &&& stream_after == stream.skip(count as int)
}

/// Asks `reader` for one view, copies as much of it as `buf` has room for to the front of
/// `buf`, and consumes what was copied. Returns the number of bytes copied: less than the
/// length of `buf` only where the view held no more.
pub fn read_into<R: BufRead>(reader: &mut R, buf: &mut [u8]) -> (r: Result<usize, R::ReadError>)
    requires
        (*old(reader)).readable(),
    ensures
        (*final(reader)).readable(),
        final(buf)@.len() == old(buf)@.len(),
        match r {
            Ok(count) => {
                &&& copied_over(
                    (*old(reader)).stream(),
                    old(buf)@,
                    count,
                    (*final(reader)).stream(),
                    final(buf)@,
                )
                &&& count == old(buf)@.len() || (*final(reader)).buffered().len() == 0
            },
            Err(error) => {
                &&& (*old(reader)).fails_with(error)
                &&& (*final(reader)).stream() == (*old(reader)).stream()
                &&& final(buf)@ == old(buf)@
            },
        },
{
    let to_copy: usize = match reader.fill_buf() {
        Ok(read) => {
            let to_copy: usize = if buf.len() < read.len() {
                buf.len()
            } else {
                read.len()
            };
            copy_into(buf, 0, read, to_copy);
            to_copy
        },
        Err(error) => {
            return Err(error);
        },
    };
    proof {
        front_is_prefix((*reader).stream(), (*reader).exposed());
        assert((*reader).buffered().take(to_copy as int) =~= (*reader).stream().take(
            to_copy as int,
        ));
        assert(old(buf)@.take(0) + reader.stream().take(to_copy as int) + old(buf)@.skip(
            to_copy as int,
        ) =~= reader.stream().take(to_copy as int) + old(buf)@.skip(to_copy as int));
    }
    reader.consume(to_copy);
    Ok(to_copy)
}

/// A reader and writer in the shape that `std::io` expects: reads that copy, writes that
/// count, and `std::io::Error` for every failure.
pub struct AsStd<Io>(UnifyErr<Io, std::io::Error>);

impl<Io> AsStd<Io> {
    /// The wrapped reader and writer, under the adapter that converts its errors.
    pub closed spec fn inner(&self) -> UnifyErr<Io, std::io::Error> {
        self.0
    }
}

impl<Io: BufRead + BufWrite> AsStd<Io> where
    Io::ReadError: Into<std::io::Error>,
    Io::WriteError: Into<std::io::Error>,
 {
    pub(crate) fn new(io: Io) -> (adapter: Self)
        ensures
            adapter.inner().inner() == io,
    {
        AsStd(UnifyErr::new(io))
    }

    /// Copies the front of the stream into `buf` and returns how many bytes that were. One
    /// view of the wrapped reader is asked for, and where it holds fewer bytes than `buf`,
    /// fewer are copied.
    pub fn read(&mut self, buf: &mut [u8]) -> (r: Result<usize, std::io::Error>)
        requires
            old(self).inner().readable(),
        ensures
            final(self).inner().readable(),
            final(buf)@.len() == old(buf)@.len(),
            match r {
                Ok(count) => {
                    &&& copied_over(
                        old(self).inner().stream(),
                        old(buf)@,
                        count,
                        final(self).inner().stream(),
                        final(buf)@,
                    )
                    &&& count == old(buf)@.len() || final(self).inner().buffered().len() == 0
                },
                Err(error) => {
                    &&& old(self).inner().fails_with(error)
                    &&& final(self).inner().stream() == old(self).inner().stream()
                    &&& final(buf)@ == old(buf)@
                },
            },
    {
        read_into(&mut self.0, buf)
    }

    /// The view of the wrapped reader, or its error converted.
    pub fn fill_buf(&mut self) -> (r: Result<&[u8], std::io::Error>)
        requires
            old(self).inner().readable(),
        ensures
            final(self).inner().readable(),
            final(self).inner().stream() == old(self).inner().stream(),
            old(self).inner().buffered().is_prefix_of(final(self).inner().buffered()),
            match r {
                Ok(buf) => {
                    &&& buf@ == final(self).inner().buffered()
                    &&& (buf@.len() == 0 <==> old(self).inner().stream().len() == 0)
                },
                Err(error) => old(self).inner().fails_with(error),
            },
    {
        self.0.fill_buf()
    }

    /// Removes `amount` bytes from the front of the stream. They must be exposed.
    pub fn consume(&mut self, amount: usize)
        requires
            old(self).inner().readable(),
            amount <= old(self).inner().buffered().len(),
        ensures
            final(self).inner().readable(),
            final(self).inner().stream() == old(self).inner().stream().skip(amount as int),
            final(self).inner().buffered() == old(self).inner().buffered().skip(amount as int),
    {
        self.0.consume(amount)
    }

    /// Writes all of `buf` and returns its length, or fails.
    pub fn write(&mut self, buf: &[u8]) -> (r: Result<usize, std::io::Error>)
        requires
            old(self).inner().writable(),
        ensures
            final(self).inner().writable(),
            old(self).inner().write_spec(buf@, final(self).inner(), without_count(r)),
            r matches Ok(count) ==> count == buf@.len(),
    {
        match self.0.write_all(buf) {
            Ok(_) => Ok(buf.len()),
            Err(error) => Err(error),
        }
    }

    /// Writes all of `buf`, or fails.
    pub fn write_all(&mut self, buf: &[u8]) -> (r: Result<(), std::io::Error>)
        requires
            old(self).inner().writable(),
        ensures
            final(self).inner().writable(),
            old(self).inner().write_spec(buf@, final(self).inner(), r),
    {
        self.0.write_all(buf)
    }

    /// Hands on whatever the wrapped writer still holds back.
    pub fn flush(&mut self) -> (r: Result<(), std::io::Error>)
        requires
            old(self).inner().writable(),
        ensures
            final(self).inner().writable(),
            old(self).inner().flush_spec(final(self).inner(), r),
    {
        self.0.flush()
    }
}

/// A reader in the shape that `std::io` expects: reads that copy, and `std::io::Error`
/// for every failure.
pub struct AsStdReader<Io>(Io);

impl<Io> AsStdReader<Io> {
    /// The wrapped reader.
    pub closed spec fn inner(&self) -> Io {
        self.0
    }

    pub(crate) fn new(io: Io) -> (adapter: Self)
        ensures
            adapter.inner() == io,
    {
        AsStdReader(io)
    }
}

impl<Io: BufRead> AsStdReader<Io> where Io::ReadError: Into<std::io::Error> {
    /// Whether a read in this state may fail with `error`: the wrapped reader fails, and
    /// `error` is what `Into` makes of its error.
    pub open spec fn fails_with(&self, error: std::io::Error) -> bool {
        exists|inner: Io::ReadError| #[trigger]
            self.inner().fails_with(inner) && converts(inner, error)
    }

    /// Copies the front of the stream into `buf` and returns how many bytes that were. One
    /// view of the wrapped reader is asked for, and where it holds fewer bytes than `buf`,
    /// fewer are copied.
    pub fn read(&mut self, buf: &mut [u8]) -> (r: Result<usize, std::io::Error>)
        requires
            old(self).inner().readable(),
        ensures
            final(self).inner().readable(),
            final(buf)@.len() == old(buf)@.len(),
            match r {
                Ok(count) => {
                    &&& copied_over(
                        old(self).inner().stream(),
                        old(buf)@,
                        count,
                        final(self).inner().stream(),
                        final(buf)@,
                    )
                    &&& count == old(buf)@.len() || final(self).inner().buffered().len() == 0
                },
                Err(error) => {
                    &&& old(self).fails_with(error)
                    &&& final(self).inner().stream() == old(self).inner().stream()
                    &&& final(buf)@ == old(buf)@
                },
            },
    {
        match read_into(&mut self.0, buf) {
            Ok(count) => Ok(count),
            Err(error) => Err(error.into()),
        }
    }

    /// The view of the wrapped reader, or its error converted.
    pub fn fill_buf(&mut self) -> (r: Result<&[u8], std::io::Error>)
        requires
            old(self).inner().readable(),
        ensures
            final(self).inner().readable(),
            final(self).inner().stream() == old(self).inner().stream(),
            old(self).inner().buffered().is_prefix_of(final(self).inner().buffered()),
            match r {
                Ok(buf) => {
                    &&& buf@ == final(self).inner().buffered()
                    &&& (buf@.len() == 0 <==> old(self).inner().stream().len() == 0)
                },
                Err(error) => old(self).fails_with(error),
            },
    {
        match self.0.fill_buf() {
            Ok(buf) => Ok(buf),
            Err(error) => Err(error.into()),
        }
    }

    /// Removes `amount` bytes from the front of the stream. They must be exposed.
    pub fn consume(&mut self, amount: usize)
        requires
            old(self).inner().readable(),
            amount <= old(self).inner().buffered().len(),
        ensures
            final(self).inner().readable(),
            final(self).inner().stream() == old(self).inner().stream().skip(amount as int),
            final(self).inner().buffered() == old(self).inner().buffered().skip(amount as int),
    {
        self.0.consume(amount)
    }
}

/// A writer in the shape that `std::io` expects: writes that count, and `std::io::Error`
/// for every failure.
pub struct AsStdWriter<Io>(Io);

impl<Io> AsStdWriter<Io> {
    /// The wrapped writer.
    pub closed spec fn inner(&self) -> Io {
        self.0
    }

    pub(crate) fn new(io: Io) -> (adapter: Self)
        ensures
            adapter.inner() == io,
    {
        AsStdWriter(io)
    }
}

impl<Io: BufWrite> AsStdWriter<Io> where Io::WriteError: Into<std::io::Error> {
    /// Whether writing `bytes` in this state may leave the adapter as `after` and report
    /// `outcome`: the wrapped writer does the writing, and `Into` converts its error.
    pub open spec fn write_spec(
        &self,
        bytes: Seq<u8>,
        after: Self,
        outcome: Result<(), std::io::Error>,
    ) -> bool {
        exists|inner: Result<(), Io::WriteError>| #[trigger]
            self.inner().write_spec(bytes, after.inner(), inner) && unifies_outcome(
                inner,
                outcome,
            )
    }

    /// Whether flushing in this state may leave the adapter as `after` and report
    /// `outcome`.
    pub open spec fn flush_spec(&self, after: Self, outcome: Result<(), std::io::Error>) -> bool {
        exists|inner: Result<(), Io::WriteError>| #[trigger]
            self.inner().flush_spec(after.inner(), inner) && unifies_outcome(inner, outcome)
    }

    /// Writes all of `buf` and returns its length, or fails.
    pub fn write(&mut self, buf: &[u8]) -> (r: Result<usize, std::io::Error>)
        requires
            old(self).inner().writable(),
        ensures
            final(self).inner().writable(),
            old(self).write_spec(buf@, *final(self), without_count(r)),
            r matches Ok(count) ==> count == buf@.len(),
    {
        let inner = self.0.write_all(buf);
        let ghost outcome = inner;
        let r = match inner {
            Ok(_) => Ok(buf.len()),
            Err(error) => Err(error.into()),
        };
        assert(old(self).inner().write_spec(buf@, self.inner(), outcome) && unifies_outcome(
            outcome,
            without_count(r),
        ));
        r
    }

    /// Writes all of `buf`, or fails.
    pub fn write_all(&mut self, buf: &[u8]) -> (r: Result<(), std::io::Error>)
        requires
            old(self).inner().writable(),
        ensures
            final(self).inner().writable(),
            old(self).write_spec(buf@, *final(self), r),
    {
        let inner = self.0.write_all(buf);
        let ghost outcome = inner;
        let r = match inner {
            Ok(done) => Ok(done),
            Err(error) => Err(error.into()),
        };
        assert(old(self).inner().write_spec(buf@, self.inner(), outcome) && unifies_outcome(
            outcome,
            r,
        ));
        r
    }

    /// Hands on whatever the wrapped writer still holds back.
    pub fn flush(&mut self) -> (r: Result<(), std::io::Error>)
        requires
            old(self).inner().writable(),
        ensures
            final(self).inner().writable(),
            old(self).flush_spec(*final(self), r),
    {
        let inner = self.0.flush();
        let ghost outcome = inner;
        let r = match inner {
            Ok(done) => Ok(done),
            Err(error) => Err(error.into()),
        };
        assert(old(self).inner().flush_spec(self.inner(), outcome) && unifies_outcome(
            outcome,
            r,
        ));
        r
    }
}

/// How one attempt to fill the buffer of a reader of `std::io` ended.
#[derive(Debug, Clone, Copy, PartialEq, Eq, Structural)]
pub enum FillAttempt {
    /// The reader handed out a view, empty or not.
    Filled,
    /// The reader reported that the attempt was interrupted.
    Interrupted,
    /// The reader failed in any other way.
    Failed,
}

impl FillAttempt {
    /// Whether the attempt is to be made again: after an interruption, and only then. A
    /// view and any other failure go to the caller as they are.
    pub fn retries(self) -> (again: bool)
        ensures
            again == (self is Interrupted),
    {
        match self {
            FillAttempt::Interrupted => true,
            FillAttempt::Filled => false,
            FillAttempt::Failed => false,
        }
    }
}

} // verus!
