//! Error values reported by readers and writers.

use core::convert::Infallible;
use vstd::prelude::*;

verus! {

/// A write did not fit into a buffer of fixed capacity.
#[derive(Debug, Clone, Copy, PartialEq, Eq, Structural)]
pub struct BufferOverflow {
    bytes_past_end: usize,
}

impl BufferOverflow {
    /// The number of bytes that found no room.
    pub closed spec fn spec_bytes_past_end(&self) -> usize {
        self.bytes_past_end
    }

    /// Records that `bytes_past_end` bytes found no room.
    pub fn new(bytes_past_end: usize) -> (error: Self)
        ensures
            error.spec_bytes_past_end() == bytes_past_end,
    {
        BufferOverflow { bytes_past_end }
    }

    /// The number of bytes that found no room.
    #[verifier::when_used_as_spec(spec_bytes_past_end)]
    pub fn bytes_past_end(&self) -> (count: usize)
        ensures
            count == self.spec_bytes_past_end(),
    {
        self.bytes_past_end
    }
}

/// A reader ended before a read of fixed size was complete. The error holds two counts:
/// the size of the read, and a second one that is the caller's to choose.
/// [`BufReadExt::read_exact`](crate::BufReadExt::read_exact) stores there how many bytes
/// were still missing when the reader ended.
#[derive(Debug, Clone, Copy, PartialEq, Eq, Structural)]
pub struct UnexpectedEnd {
    total_required: usize,
    available: usize,
}

impl UnexpectedEnd {
    /// The size of the read that was asked for.
    pub closed spec fn spec_total_required(&self) -> usize {
        self.total_required
    }

    /// The second count that the error carries.
    pub closed spec fn spec_available(&self) -> usize {
        self.available
    }

    /// Records a read of `total_required` bytes together with a second count.
    pub fn new(total_required: usize, available: usize) -> (error: Self)
        ensures
            error.spec_total_required() == total_required,
            error.spec_available() == available,
    {
        UnexpectedEnd { total_required, available }
    }

    /// The size of the read that was asked for.
    #[verifier::when_used_as_spec(spec_total_required)]
    pub fn total_required(&self) -> (count: usize)
        ensures
            count == self.spec_total_required(),
    {
        self.total_required
    }

    /// The second count that the error carries.
    #[verifier::when_used_as_spec(spec_available)]
    pub fn available(&self) -> (count: usize)
        ensures
            count == self.spec_available(),
    {
        self.available
    }
}

/// Why a read of fixed size failed.
#[derive(Debug, Clone)]
pub enum ReadExactError<E> {
    /// The reader ended too early.
    UnexpectedEnd(UnexpectedEnd),
    /// The reader itself failed.
    ReadingFailed(E),
}

impl<E> ReadExactError<E> {
    /// The early-end variant holding `UnexpectedEnd::new(total_required, available)`.
    pub fn unexpected_end(total_required: usize, available: usize) -> (error: Self)
        ensures
            error matches ReadExactError::UnexpectedEnd(end) && end.spec_total_required()
                == total_required && end.spec_available() == available,
    {
        ReadExactError::UnexpectedEnd(UnexpectedEnd::new(total_required, available))
    }

    /// Applies `f` to the reader's error and leaves an early end as it is.
    pub fn map_read_err<E2, F: FnOnce(E) -> E2>(self, f: F) -> (mapped: ReadExactError<E2>)
        requires
            self matches ReadExactError::ReadingFailed(inner) ==> call_requires(f, (inner,)),
        ensures
            match self {
                ReadExactError::UnexpectedEnd(end) => mapped == ReadExactError::<
                    E2,
                >::UnexpectedEnd(end),
                ReadExactError::ReadingFailed(inner) => mapped matches ReadExactError::ReadingFailed(
                    outer,
                ) && call_ensures(f, (inner,), outer),
            },
    {
        match self {
            ReadExactError::UnexpectedEnd(end) => ReadExactError::UnexpectedEnd(end),
            ReadExactError::ReadingFailed(inner) => ReadExactError::ReadingFailed(f(inner)),
        }
    }
}

impl<E> From<UnexpectedEnd> for ReadExactError<E> {
    /// An early end as the reason why a read of fixed size failed.
    fn from(end: UnexpectedEnd) -> (error: Self) {
        ReadExactError::UnexpectedEnd(end)
    }
}

impl<E> vstd::std_specs::convert::FromSpecImpl<UnexpectedEnd> for ReadExactError<E> {
    open spec fn obeys_from_spec() -> bool {
        true
    }

    open spec fn from_spec(end: UnexpectedEnd) -> Self {
        ReadExactError::UnexpectedEnd(end)
    }
}

/// Closes a branch that holds a value of `core::convert::Infallible`. That type has no
/// value, so no call of this function is ever made; the contract records exactly that,
/// by equating a failure that holds `never` with an early end.
#[verifier::external_body]
fn ruled_out(never: Infallible) -> (end: UnexpectedEnd)
    ensures
        ReadExactError::<Infallible>::UnexpectedEnd(end) == ReadExactError::ReadingFailed(never),
{
    match never {
    }
}

impl ReadExactError<Infallible> {
    /// The early end that this error must be, as the reader cannot fail.
    pub fn into_unexpected_end(self) -> (end: UnexpectedEnd)
        ensures
            self == ReadExactError::<Infallible>::UnexpectedEnd(end),
    {
        match self {
            ReadExactError::UnexpectedEnd(end) => end,
            ReadExactError::ReadingFailed(never) => ruled_out(never),
        }
    }
}

} // verus!
