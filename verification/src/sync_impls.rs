//! Readers and writers in memory: slices, growable buffers, references, boxes, and the
//! readers and writers that hold nothing.

use crate::bytes::copy_into;
use crate::error::BufferOverflow;
use crate::{BufRead, BufWrite, Empty, Null, Sink};
use core::convert::Infallible;
use vstd::prelude::*;
use vstd::slice::slice_subrange;

verus! {

/// A slice reads as its own bytes, all of them exposed, and shrinks from the front as they
/// are consumed.
impl<'a> BufRead for &'a [u8] {
    type ReadError = Infallible;

    open spec fn readable(&self) -> bool {
        true
    }

    open spec fn stream(&self) -> Seq<u8> {
        (*self)@
    }

    open spec fn exposed(&self) -> nat {
        (*self)@.len()
    }

    open spec fn fails_with(&self, error: Self::ReadError) -> bool {
        false
    }

    /// Never fails: the view is the whole slice.
    fn fill_buf(&mut self) -> (r: Result<&[u8], Self::ReadError>)
        ensures
            r is Ok,
            *final(self) == *old(self),
    {
        let whole: &'a [u8] = *self;
        Ok(whole)
    }

    fn consume(&mut self, amount: usize) {
        let whole: &'a [u8] = *self;
        let rest: &'a [u8] = slice_subrange(whole, amount, whole.len());
        *self = rest;
    }
}

/// A mutable slice reads as a slice does.
impl<'a> BufRead for &'a mut [u8] {
    type ReadError = Infallible;

    open spec fn readable(&self) -> bool {
        true
    }

    open spec fn stream(&self) -> Seq<u8> {
        self@
    }

    open spec fn exposed(&self) -> nat {
        self@.len()
    }

    open spec fn fails_with(&self, error: Self::ReadError) -> bool {
        false
    }

    /// Never fails: the view is the whole slice.
    fn fill_buf(&mut self) -> (r: Result<&[u8], Self::ReadError>)
        ensures
            r is Ok,
            *final(self) == *old(self),
    {
        Ok(&**self)
    }

    /// Keeps the rest of the slice. The bytes that are dropped stay as they are.
    fn consume(&mut self, amount: usize)
        ensures
            (*final(*old(self)))@ == (*old(self))@.take(amount as int) + (*final(*final(self)))@,
    {
        let mut this: &'a mut [u8] = &mut [];
        core::mem::swap(self, &mut this);
        let (_, rest) = this.split_at_mut(amount);
        *self = rest;
    }
}

/// A borrowed reader reads as the reader itself.
impl<T: BufRead> BufRead for &mut T {
    type ReadError = T::ReadError;

    open spec fn readable(&self) -> bool {
        (**self).readable()
    }

    open spec fn stream(&self) -> Seq<u8> {
        (**self).stream()
    }

    open spec fn exposed(&self) -> nat {
        (**self).exposed()
    }

    open spec fn fails_with(&self, error: Self::ReadError) -> bool {
        (**self).fails_with(error)
    }

    fn fill_buf(&mut self) -> (r: Result<&[u8], Self::ReadError>) {
        (**self).fill_buf()
    }

    fn consume(&mut self, amount: usize) {
        (**self).consume(amount)
    }
}

/// A boxed reader reads as the reader itself.
impl<T: BufRead> BufRead for Box<T> {
    type ReadError = T::ReadError;

    open spec fn readable(&self) -> bool {
        (**self).readable()
    }

    open spec fn stream(&self) -> Seq<u8> {
        (**self).stream()
    }

    open spec fn exposed(&self) -> nat {
        (**self).exposed()
    }

    open spec fn fails_with(&self, error: Self::ReadError) -> bool {
        (**self).fails_with(error)
    }

    fn fill_buf(&mut self) -> (r: Result<&[u8], Self::ReadError>) {
        (**self).fill_buf()
    }

    fn consume(&mut self, amount: usize) {
        (**self).consume(amount)
    }
}

/// Nothing to deliver, and no failure.
impl BufRead for Empty {
    type ReadError = Infallible;

    open spec fn readable(&self) -> bool {
        true
    }

    open spec fn stream(&self) -> Seq<u8> {
        Seq::empty()
    }

    open spec fn exposed(&self) -> nat {
        0
    }

    open spec fn fails_with(&self, error: Self::ReadError) -> bool {
        false
    }

    /// Never fails: the view is empty.
    fn fill_buf(&mut self) -> (r: Result<&[u8], Self::ReadError>)
        ensures
            r is Ok,
    {
        let nothing: &[u8] = &[];
        Ok(nothing)
    }

    fn consume(&mut self, amount: usize) {
    }
}

/// Nothing to deliver, and no failure.
impl BufRead for Null {
    type ReadError = Infallible;

    open spec fn readable(&self) -> bool {
        true
    }

    open spec fn stream(&self) -> Seq<u8> {
        Seq::empty()
    }

    open spec fn exposed(&self) -> nat {
        0
    }

    open spec fn fails_with(&self, error: Self::ReadError) -> bool {
        false
    }

    /// Never fails: the view is empty.
    fn fill_buf(&mut self) -> (r: Result<&[u8], Self::ReadError>)
        ensures
            r is Ok,
    {
        let nothing: &[u8] = &[];
        Ok(nothing)
    }

    fn consume(&mut self, amount: usize) {
    }
}

/// A borrowed writer writes as the writer itself.
impl<T: BufWrite> BufWrite for &mut T {
    type WriteError = T::WriteError;

    open spec fn writable(&self) -> bool {
        (**self).writable()
    }

    open spec fn write_spec(
        &self,
        bytes: Seq<u8>,
        after: Self,
        outcome: Result<(), Self::WriteError>,
    ) -> bool {
        (**self).write_spec(bytes, *after, outcome)
    }

    open spec fn flush_spec(&self, after: Self, outcome: Result<(), Self::WriteError>) -> bool {
        (**self).flush_spec(*after, outcome)
    }

    fn write_all(&mut self, bytes: &[u8]) -> (r: Result<(), Self::WriteError>) {
        (**self).write_all(bytes)
    }

    fn flush(&mut self) -> (r: Result<(), Self::WriteError>) {
        (**self).flush()
    }
}

/// A boxed writer writes as the writer itself.
impl<T: BufWrite> BufWrite for Box<T> {
    type WriteError = T::WriteError;

    open spec fn writable(&self) -> bool {
        (**self).writable()
    }

    open spec fn write_spec(
        &self,
        bytes: Seq<u8>,
        after: Self,
        outcome: Result<(), Self::WriteError>,
    ) -> bool {
        (**self).write_spec(bytes, *after, outcome)
    }

    open spec fn flush_spec(&self, after: Self, outcome: Result<(), Self::WriteError>) -> bool {
        (**self).flush_spec(*after, outcome)
    }

    fn write_all(&mut self, bytes: &[u8]) -> (r: Result<(), Self::WriteError>) {
        (**self).write_all(bytes)
    }

    fn flush(&mut self) -> (r: Result<(), Self::WriteError>) {
        (**self).flush()
    }
}

/// Every write and every flush succeeds, and nothing is kept.
impl BufWrite for Sink {
    type WriteError = Infallible;

    open spec fn writable(&self) -> bool {
        true
    }

    open spec fn write_spec(
        &self,
        bytes: Seq<u8>,
        after: Self,
        outcome: Result<(), Self::WriteError>,
    ) -> bool {
        outcome is Ok
    }

    open spec fn flush_spec(&self, after: Self, outcome: Result<(), Self::WriteError>) -> bool {
        outcome is Ok
    }

    fn write_all(&mut self, _bytes: &[u8]) -> (r: Result<(), Self::WriteError>) {
        Ok(())
    }

    fn flush(&mut self) -> (r: Result<(), Self::WriteError>) {
        Ok(())
    }
}

/// Every write and every flush succeeds, and nothing is kept.
impl BufWrite for Null {
    type WriteError = Infallible;

    open spec fn writable(&self) -> bool {
        true
    }

    open spec fn write_spec(
        &self,
        bytes: Seq<u8>,
        after: Self,
        outcome: Result<(), Self::WriteError>,
    ) -> bool {
        outcome is Ok
    }

    open spec fn flush_spec(&self, after: Self, outcome: Result<(), Self::WriteError>) -> bool {
        outcome is Ok
    }

    fn write_all(&mut self, _bytes: &[u8]) -> (r: Result<(), Self::WriteError>) {
        Ok(())
    }

    fn flush(&mut self) -> (r: Result<(), Self::WriteError>) {
        Ok(())
    }
}

/// A growable buffer takes every write at its end and never fails.
impl BufWrite for Vec<u8> {
    type WriteError = Infallible;

    open spec fn writable(&self) -> bool {
        true
    }

    open spec fn write_spec(
        &self,
        bytes: Seq<u8>,
        after: Self,
        outcome: Result<(), Self::WriteError>,
    ) -> bool {
        outcome is Ok && after@ == self@ + bytes
    }

    open spec fn flush_spec(&self, after: Self, outcome: Result<(), Self::WriteError>) -> bool {
        outcome is Ok && after@ == self@
    }

    fn write_all(&mut self, bytes: &[u8]) -> (r: Result<(), Self::WriteError>) {
        self.extend_from_slice(bytes);
        assert(self@ =~= old(self)@ + bytes@);
        Ok(())
    }

    fn flush(&mut self) -> (r: Result<(), Self::WriteError>) {
        Ok(())
    }
}

/// A mutable slice is a buffer of fixed capacity: the slice is the room that is left. A
/// write fills it from the front and fails, writing nothing, where the bytes do not fit.
impl<'a> BufWrite for &'a mut [u8] {
    type WriteError = BufferOverflow;

    open spec fn writable(&self) -> bool {
        true
    }

    open spec fn write_spec(
        &self,
        bytes: Seq<u8>,
        after: Self,
        outcome: Result<(), Self::WriteError>,
    ) -> bool {
        if bytes.len() > self@.len() {
            &&& outcome matches Err(overflow)
            &&& overflow.bytes_past_end() == bytes.len() - self@.len()
            &&& after == *self
        } else {
            &&& outcome is Ok
            &&& after@ == self@.skip(bytes.len() as int)
        }
    }

    open spec fn flush_spec(&self, after: Self, outcome: Result<(), Self::WriteError>) -> bool {
        outcome is Ok && after == *self
    }

    /// Copies `bytes` to the front of the slice and keeps the rest of it as the room that
    /// is left. Where `bytes` is longer than the slice, nothing is written.
    fn write_all(&mut self, bytes: &[u8]) -> (r: Result<(), Self::WriteError>)
        ensures
            r is Ok ==> (*final(*old(self)))@ == bytes@ + (*final(*final(self)))@,
    {
        if bytes.len() > self.len() {
            return Err(BufferOverflow::new(bytes.len() - self.len()));
        }
        let mut this: &'a mut [u8] = &mut [];
        core::mem::swap(self, &mut this);
        let (target, remaining) = this.split_at_mut(bytes.len());
        copy_into(target, 0, bytes, bytes.len());
        *self = remaining;
        Ok(())
    }

    fn flush(&mut self) -> (r: Result<(), Self::WriteError>) {
        Ok(())
    }
}

/// What a growable buffer holds after a write, read back through a slice, is what it held
/// before followed by the bytes written: a write into an empty buffer reads back as
/// itself.
pub proof fn written_bytes_read_back(
    before: Vec<u8>,
    bytes: Seq<u8>,
    after: Vec<u8>,
    outcome: Result<(), Infallible>,
    reader: &[u8],
)
    requires
        before.write_spec(bytes, after, outcome),
        reader@ == after@,
    ensures
        outcome is Ok,
        reader.readable(),
        reader.stream() == before@ + bytes,
        before@.len() == 0 ==> reader.stream() == bytes,
{
    assert(Seq::<u8>::empty() + bytes =~= bytes);
    if before@.len() == 0 {
        assert(before@ =~= Seq::<u8>::empty());
    }
}

/// A write into a slice that is too short fails with the number of bytes that found no
/// room and leaves the slice as it was; a write that fits succeeds and leaves the room
/// behind the bytes written.
pub proof fn slice_write_fits_or_overflows(room: Seq<u8>, bytes: Seq<u8>)
    ensures
        forall|writer: &mut [u8], after: &mut [u8], outcome: Result<(), BufferOverflow>|
            writer@ == room && #[trigger] writer.write_spec(bytes, after, outcome) ==> if bytes.len()
                > room.len() {
                &&& outcome matches Err(error)
                &&& error.bytes_past_end() == bytes.len() - room.len()
                &&& after == writer
            } else {
                &&& outcome is Ok
                &&& after@ == room.skip(bytes.len() as int)
            },
{
}

} // verus!
