//! Buffered byte readers and writers whose error type is chosen by the implementor.
//!
//! A reader ([`BufRead`]) hands out views into its own buffer and is told how much of a
//! view was used; a writer ([`BufWrite`]) takes whole slices or fails. Everything else is
//! built from these: the derived reads and the combinators of [`BufReadExt`] and
//! [`BufWriteExt`], and the adapters in [`adapters`] that the combinators return.
//!
//! In contracts a reader is the sequence of bytes it has yet to deliver
//! ([`BufRead::stream`]) together with the number of them that it currently exposes
//! ([`BufRead::exposed`]). An adapter states its own stream in terms of the streams of the
//! readers it wraps, so that what a composition delivers can be computed from its parts.
//! A writer is described by a relation between its state before and after a write
//! ([`BufWrite::write_spec`]), which an adapter states in terms of the writer it wraps.

use vstd::prelude::*;

pub mod adapters;
pub mod bytes;
pub mod error;
mod sync_impls;

pub use sync_impls::{slice_write_fits_or_overflows, written_bytes_read_back};

use adapters::{
    AsStd, AsStdReader, AsStdWriter, Chain, MapErr, MapReadErr, MapWriteErr, Take, UnifyErr,
};
use bytes::{copy_into, front, front_is_prefix};
use error::ReadExactError;

verus! {

/// A reader that has no bytes.
#[non_exhaustive]
pub struct Empty;

/// A writer that drops what it is given.
#[non_exhaustive]
pub struct Sink;

/// A reader that has no bytes and a writer that drops what it is given, in one.
#[non_exhaustive]
pub struct Null;

/// A reader that has no bytes.
pub fn empty() -> (reader: Empty)
    ensures
        reader.readable(),
        reader.stream() == Seq::<u8>::empty(),
{
    Empty
}

/// A writer that drops what it is given.
pub fn sink() -> (writer: Sink)
    ensures
        writer.writable(),
{
    Sink
}

/// A reader that has no bytes and a writer that drops what it is given, in one.
pub fn null() -> (both: Null)
    ensures
        both.readable(),
        both.writable(),
        both.stream() == Seq::<u8>::empty(),
{
    Null
}

/// A source of bytes that hands out views into its own buffer.
///
/// The contract takes the bytes that a reader will deliver as given from the start:
/// reading reveals them, it does not choose them, and a stream that has ended stays
/// ended. An implementation says what its bytes are by defining the functions
/// [`readable`](BufRead::readable), [`stream`](BufRead::stream),
/// [`exposed`](BufRead::exposed) and [`fails_with`](BufRead::fails_with). One that leaves
/// them as they are declared here is never `readable`: it can be run, but no contract
/// speaks of it.
pub trait BufRead: Sized {
    /// What a failed read reports.
    type ReadError;

    /// The invariant that every operation needs and keeps.
    open spec fn readable(&self) -> bool {
        false
    }

    /// Every byte that the reader has yet to deliver, in order.
    open spec fn stream(&self) -> Seq<u8> {
        Seq::empty()
    }

    /// How many bytes at the front of the stream the reader currently exposes: as many as
    /// the latest view held, less what has been consumed since. A number beyond the length
    /// of the stream stands for all of it.
    open spec fn exposed(&self) -> nat {
        0
    }

    /// Whether a read in this state may fail with `error`.
    open spec fn fails_with(&self, error: Self::ReadError) -> bool {
        false
    }

    /// Returns a view of the bytes at the front of the stream, without consuming any.
    /// The view is empty exactly when the stream has ended. Bytes that an earlier view
    /// exposed and that were not consumed stay exposed, whether the call succeeds or not.
    /// The view is to be used before the reader is called again.
    fn fill_buf(&mut self) -> (r: Result<&[u8], Self::ReadError>)
        requires
            (*old(self)).readable(),
        ensures
            (*final(self)).readable(),
            (*final(self)).stream() == (*old(self)).stream(),
            front((*old(self)).stream(), (*old(self)).exposed()).len() <= front(
                (*final(self)).stream(),
                (*final(self)).exposed(),
            ).len(),
            r matches Ok(buf) ==> {
                &&& buf@ == front((*final(self)).stream(), (*final(self)).exposed())
                &&& (buf@.len() == 0 <==> (*old(self)).stream().len() == 0)
            },
            r matches Err(error) ==> (*old(self)).fails_with(error),
    ;

    /// Removes `amount` bytes from the front of the stream. They must be exposed.
    fn consume(&mut self, amount: usize)
        requires
            (*old(self)).readable(),
            amount <= front((*old(self)).stream(), (*old(self)).exposed()).len(),
        ensures
            (*final(self)).readable(),
            (*final(self)).stream() == (*old(self)).stream().skip(amount as int),
            front((*final(self)).stream(), (*final(self)).exposed()) == front(
                (*old(self)).stream(),
                (*old(self)).exposed(),
            ).skip(amount as int),
    ;
}

/// A sink for bytes.
///
/// An implementation says what a write and a flush do by defining
/// [`writable`](BufWrite::writable), [`write_spec`](BufWrite::write_spec) and
/// [`flush_spec`](BufWrite::flush_spec). One that leaves them as they are declared here is
/// never `writable`: it can be run, but no contract speaks of it.
pub trait BufWrite: Sized {
    /// What a failed write reports.
    type WriteError;

    /// The invariant that every operation needs and keeps.
    open spec fn writable(&self) -> bool {
        false
    }

    /// Whether writing `bytes` in this state may leave the writer as `after` and report
    /// `outcome`.
    open spec fn write_spec(
        &self,
        bytes: Seq<u8>,
        after: Self,
        outcome: Result<(), Self::WriteError>,
    ) -> bool {
        true
    }

    /// Whether flushing in this state may leave the writer as `after` and report `outcome`.
    open spec fn flush_spec(&self, after: Self, outcome: Result<(), Self::WriteError>) -> bool {
        true
    }

    /// Writes all of `bytes`, or fails.
    fn write_all(&mut self, bytes: &[u8]) -> (r: Result<(), Self::WriteError>)
        requires
            (*old(self)).writable(),
        ensures
            (*final(self)).writable(),
            (*old(self)).write_spec(bytes@, *final(self), r),
    ;

    /// Hands on whatever the writer still holds back.
    fn flush(&mut self) -> (r: Result<(), Self::WriteError>)
        requires
            (*old(self)).writable(),
        ensures
            (*final(self)).writable(),
            (*old(self)).flush_spec(*final(self), r),
    ;
}

/// Whether a reader of type `R` that has `stream` left to deliver may fail with `error`.
pub open spec fn fails_at<R: BufRead>(error: R::ReadError, stream: Seq<u8>) -> bool {
    exists|state: R| #[trigger]
        state.fails_with(error) && state.readable() && state.stream() == stream
}

/// What every reader offers on top of [`BufRead::fill_buf`] and [`BufRead::consume`].
pub trait BufReadExt: BufRead {
    /// The bytes that the reader currently exposes: the front of the stream, as far as
    /// [`BufRead::exposed`] goes.
    spec fn buffered(&self) -> Seq<u8>;

    /// Reads one byte, or reports with `None` that the stream has ended.
    fn read_byte(&mut self) -> (r: Result<Option<u8>, Self::ReadError>)
        requires
            (*old(self)).readable(),
        ensures
            (*final(self)).readable(),
            match r {
                Ok(Some(byte)) => {
                    &&& (*old(self)).stream().len() > 0
                    &&& byte == (*old(self)).stream()[0]
                    &&& (*final(self)).stream() == (*old(self)).stream().skip(1)
                },
                Ok(None) => {
                    &&& (*old(self)).stream().len() == 0
                    &&& (*final(self)).stream() == (*old(self)).stream()
                },
                Err(error) => {
                    &&& (*old(self)).fails_with(error)
                    &&& (*final(self)).stream() == (*old(self)).stream()
                },
            },
    ;

    /// Fills `buf` with the next bytes of the stream and consumes them.
    ///
    /// Where the stream ends first, the error holds the length of `buf` and the number of
    /// bytes that were still missing, and the stream is left empty. Where the reader
    /// fails, no more has been consumed than `buf` could hold.
    fn read_exact(&mut self, buf: &mut [u8]) -> (r: Result<(), ReadExactError<Self::ReadError>>)
        requires
            (*old(self)).readable(),
        ensures
            (*final(self)).readable(),
            final(buf)@.len() == old(buf)@.len(),
            match r {
                Ok(_) => {
                    &&& old(buf)@.len() <= (*old(self)).stream().len()
                    &&& final(buf)@ == (*old(self)).stream().take(old(buf)@.len() as int)
                    &&& (*final(self)).stream() == (*old(self)).stream().skip(
                        old(buf)@.len() as int,
                    )
                },
                Err(ReadExactError::UnexpectedEnd(end)) => {
                    &&& (*old(self)).stream().len() < old(buf)@.len()
                    &&& end.total_required() == old(buf)@.len()
                    &&& end.available() == old(buf)@.len() - (*old(self)).stream().len()
                    &&& final(buf)@.take((*old(self)).stream().len() as int) == (*old(
                        self,
                    )).stream()
                    &&& (*final(self)).stream().len() == 0
                },
                Err(ReadExactError::ReadingFailed(error)) => {
                    let consumed = (*old(self)).stream().len() - (*final(self)).stream().len();
                    &&& fails_at::<Self>(error, (*final(self)).stream())
                    &&& 0 <= consumed <= old(buf)@.len()
                    &&& (*final(self)).stream() == (*old(self)).stream().skip(consumed)
                    &&& final(buf)@.take(consumed) == (*old(self)).stream().take(consumed)
                },
            },
    ;

    /// Appends the rest of the stream to `buf`, consumes it and returns its length.
    ///
    /// Where the reader fails, what was read until then has been appended and consumed.
    fn read_to_end(&mut self, buf: &mut Vec<u8>) -> (r: Result<usize, Self::ReadError>)
        requires
            (*old(self)).readable(),
        ensures
            (*final(self)).readable(),
            match r {
                Ok(total) => {
                    &&& total == (*old(self)).stream().len()
                    &&& final(buf)@ == old(buf)@ + (*old(self)).stream()
                    &&& (*final(self)).stream().len() == 0
                },
                Err(error) => {
                    let appended = final(buf)@.len() - old(buf)@.len();
                    &&& fails_at::<Self>(error, (*final(self)).stream())
                    &&& 0 <= appended <= (*old(self)).stream().len()
                    &&& final(buf)@ == old(buf)@ + (*old(self)).stream().take(appended)
                    &&& (*final(self)).stream() == (*old(self)).stream().skip(appended)
                },
            },
    ;

    /// A reader that delivers at most the first `limit` bytes of this one.
    fn take(self, limit: u64) -> (taken: Take<Self>)
        ensures
            taken.inner() == self,
            taken.limit() == limit,
    ;

    /// Lends the reader, so that an adapter can be built on it and dropped again.
    fn by_ref(&mut self) -> (lent: &mut Self)
        ensures
            *lent == *old(self),
            *final(self) == *final(lent),
    ;

    /// A reader that delivers the bytes of this one and then those of `other`.
    fn chain<R: BufRead<ReadError = Self::ReadError>>(self, other: R) -> (chained: Chain<Self, R>)
        ensures
            chained.left() == self,
            chained.right() == other,
            !chained.switched(),
    ;

    /// A reader and writer whose errors, of either kind, pass through `f`.
    fn map_err<E, F>(self, f: F) -> (adapter: MapErr<Self, F, E>) where
        Self: BufWrite<WriteError = <Self as BufRead>::ReadError>,
        F: FnMut(Self::ReadError) -> E,

        ensures
            adapter.inner() == self,
            adapter.mapper() == f,
            adapter.stream() == self.stream(),
            adapter.exposed() == self.exposed(),
            adapter.readable() <==> self.readable() && forall|error: Self::ReadError|
                call_requires(f, (error,)),
            adapter.writable() <==> self.writable() && forall|error: Self::ReadError|
                call_requires(f, (error,)),
    ;

    /// A reader whose errors pass through `f`.
    fn map_read_err<E, F>(self, f: F) -> (adapter: MapReadErr<Self, F, E>) where
        F: FnMut(Self::ReadError) -> E,

        ensures
            adapter.inner() == self,
            adapter.mapper() == f,
            adapter.stream() == self.stream(),
            adapter.exposed() == self.exposed(),
            adapter.readable() <==> self.readable() && forall|error: Self::ReadError|
                call_requires(f, (error,)),
    ;

    /// A reader and writer whose errors, of either kind, are converted by `Into` to `E`.
    fn unify_err<E>(self) -> (adapter: UnifyErr<Self, E>) where
        Self: BufWrite,
        Self::ReadError: Into<E>,
        <Self as BufWrite>::WriteError: Into<E>,

        ensures
            adapter.inner() == self,
            adapter.stream() == self.stream(),
            adapter.exposed() == self.exposed(),
            adapter.readable() <==> self.readable(),
            adapter.writable() <==> self.writable(),
    ;

    /// A reader and writer in the shape that `std::io` expects.
    fn into_std(self) -> (adapter: AsStd<Self>) where
        Self: BufWrite,
        Self::ReadError: Into<std::io::Error>,
        <Self as BufWrite>::WriteError: Into<std::io::Error>,

        ensures
            adapter.inner().inner() == self,
    ;

    /// A reader in the shape that `std::io` expects.
    fn into_std_reader(self) -> (adapter: AsStdReader<Self>) where
        Self::ReadError: Into<std::io::Error>,

        ensures
            adapter.inner() == self,
    ;
}

impl<T: BufRead> BufReadExt for T {
    open spec fn buffered(&self) -> Seq<u8> {
        front(self.stream(), self.exposed())
    }

    fn read_byte(&mut self) -> (r: Result<Option<u8>, Self::ReadError>)
    {
        let byte: u8 = match self.fill_buf() {
            Ok(buf) => {
                if buf.len() == 0 {
                    return Ok(None);
                }
                buf[0]
            },
            Err(error) => {
                return Err(error);
            },
        };
        self.consume(1);
        Ok(Some(byte))
    }

    fn read_exact(&mut self, buf: &mut [u8]) -> (r: Result<(), ReadExactError<Self::ReadError>>)
    {
        let ghost stream = self.stream();
        let required: usize = buf.len();
        let mut filled: usize = 0;
        while filled < required
            invariant
                self.readable(),
                stream == old(self).stream(),
                required == old(buf)@.len(),
                required == buf@.len(),
                filled <= required,
                filled <= stream.len(),
                buf@.take(filled as int) == stream.take(filled as int),
                self.stream() == stream.skip(filled as int),
            decreases required - filled,
        {
            let ghost before = buf@;
            let ghost state = *self;
            let to_copy: usize = match self.fill_buf() {
                Ok(read) => {
                    if read.len() == 0 {
                        proof {
                            assert(stream.take(filled as int) =~= stream);
                        }
                        return Err(ReadExactError::unexpected_end(required, required - filled));
                    }
                    let wanted: usize = required - filled;
                    let to_copy: usize = if read.len() < wanted {
                        read.len()
                    } else {
                        wanted
                    };
                    copy_into(buf, filled, read, to_copy);
                    to_copy
                },
                Err(error) => {
                    assert(state.fails_with(error) && state.readable() && state.stream()
                        == self.stream());
                    return Err(ReadExactError::ReadingFailed(error));
                },
            };
            proof {
                front_is_prefix((*self).stream(), (*self).exposed());
                assert(buf@.take(filled + to_copy) =~= stream.take(filled + to_copy)) by {
                    assert forall|i: int| 0 <= i < filled + to_copy implies buf@[i] == stream[i] by {
                        if i < filled {
                            assert(buf@[i] == before.take(filled as int)[i]);
                            assert(stream[i] == stream.take(filled as int)[i]);
                        } else {
                            assert(stream[i] == stream.skip(filled as int)[i - filled]);
                        }
                    }
                }
                assert(stream.skip(filled as int).skip(to_copy as int) =~= stream.skip(
                    filled + to_copy,
                ));
            }
            self.consume(to_copy);
            filled = filled + to_copy;
        }
        proof {
            assert(buf@.take(required as int) =~= buf@);
        }
        Ok(())
    }

    fn read_to_end(&mut self, buf: &mut Vec<u8>) -> (r: Result<usize, Self::ReadError>)
    {
        let ghost stream = self.stream();
        let ghost start = buf@;
        let mut total: usize = 0;
        loop
            invariant
                self.readable(),
                stream == old(self).stream(),
                start == old(buf)@,
                total <= stream.len(),
                buf@ == start + stream.take(total as int),
                self.stream() == stream.skip(total as int),
            decreases self.stream().len(),
        {
            let ghost state = *self;
            let len: usize = match self.fill_buf() {
                Ok(read) => {
                    if read.len() == 0 {
                        proof {
                            assert(stream.take(total as int) =~= stream);
                        }
                        return Ok(total);
                    }
                    buf.extend_from_slice(read);
                    let grown: usize = buf.len();
                    assert(total + read@.len() <= grown);
                    read.len()
                },
                Err(error) => {
                    assert(state.fails_with(error) && state.readable() && state.stream()
                        == self.stream());
                    return Err(error);
                },
            };
            proof {
                front_is_prefix((*self).stream(), (*self).exposed());
                assert(buf@ =~= start + stream.take(total + len)) by {
                    assert forall|i: int| 0 <= i < buf@.len() implies buf@[i] == (start
                        + stream.take(total + len))[i] by {
                        if i >= start.len() + total {
                            assert(stream[i - start.len()] == stream.skip(total as int)[i
                                - start.len() - total]);
                        } else {
                            assert(buf@[i] == (start + stream.take(total as int))[i]);
                        }
                    }
                }
                assert(stream.skip(total as int).skip(len as int) =~= stream.skip(total + len));
            }
            self.consume(len);
            total = total + len;
        }
    }

    fn take(self, limit: u64) -> (taken: Take<Self>)
    {
        Take::new(self, limit)
    }

    fn by_ref(&mut self) -> (lent: &mut Self)
    {
        self
    }

    fn chain<R: BufRead<ReadError = Self::ReadError>>(self, other: R) -> (chained: Chain<Self, R>) {
        Chain::new(self, other)
    }
    fn map_err<E, F>(self, f: F) -> (adapter: MapErr<Self, F, E>) where
        Self: BufWrite<WriteError = <Self as BufRead>::ReadError>,
        F: FnMut(Self::ReadError) -> E,
     {
        MapErr::new(self, f)
    }

    fn map_read_err<E, F>(self, f: F) -> (adapter: MapReadErr<Self, F, E>) where
        F: FnMut(Self::ReadError) -> E,
     {
        MapReadErr::new(self, f)
    }

    fn unify_err<E>(self) -> (adapter: UnifyErr<Self, E>) where
        Self: BufWrite,
        Self::ReadError: Into<E>,
        <Self as BufWrite>::WriteError: Into<E>,
     {
        UnifyErr::new(self)
    }

    fn into_std(self) -> (adapter: AsStd<Self>) where
        Self: BufWrite,
        Self::ReadError: Into<std::io::Error>,
        <Self as BufWrite>::WriteError: Into<std::io::Error>,
     {
        AsStd::new(self)
    }

    fn into_std_reader(self) -> (adapter: AsStdReader<Self>) where
        Self::ReadError: Into<std::io::Error>,
     {
        AsStdReader::new(self)
    }
}

/// What every writer offers on top of [`BufWrite::write_all`] and [`BufWrite::flush`].
pub trait BufWriteExt: BufWrite {
    /// A writer whose errors pass through `f`.
    fn map_write_err<E, F: FnMut(Self::WriteError) -> E>(self, f: F) -> (adapter: MapWriteErr<
        Self,
        F,
        E,
    >)
        ensures
            adapter.inner() == self,
            adapter.mapper() == f,
            adapter.writable() <==> self.writable() && forall|error: Self::WriteError|
                call_requires(f, (error,)),
    ;

    /// A writer in the shape that `std::io` expects.
    fn into_std_writer(self) -> (adapter: AsStdWriter<Self>) where
        Self::WriteError: Into<std::io::Error>,

        ensures
            adapter.inner() == self,
    ;

    /// Lends the writer, so that an adapter can be built on it and dropped again.
    fn by_ref(&mut self) -> (lent: &mut Self)
        ensures
            *lent == *old(self),
            *final(self) == *final(lent),
    ;
}

impl<T: BufWrite> BufWriteExt for T {
    fn map_write_err<E, F: FnMut(Self::WriteError) -> E>(self, f: F) -> (adapter: MapWriteErr<
        Self,
        F,
        E,
    >) {
        MapWriteErr::new(self, f)
    }

    fn into_std_writer(self) -> (adapter: AsStdWriter<Self>) where
        Self::WriteError: Into<std::io::Error>,
     {
        AsStdWriter::new(self)
    }

    fn by_ref(&mut self) -> (lent: &mut Self) {
        self
    }
}

} // verus!