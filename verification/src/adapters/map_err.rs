use crate::{fails_at, BufRead, BufWrite};
use core::marker::PhantomData;
use vstd::prelude::*;
use vstd::std_specs::convert::IntoSpec;

verus! {

/// Whether `f` may turn the outcome `inner` of a write or a flush into `outer`: success
/// stays success, and a failure holds what `f` makes of the error.
pub open spec fn maps_outcome<A, B, F: FnMut(A) -> B>(
    f: F,
    inner: Result<(), A>,
    outer: Result<(), B>,
) -> bool {
    match inner {
        Ok(_) => outer is Ok,
        Err(error) => outer matches Err(mapped) && call_ensures(f, (error,), mapped),
    }
}

/// Whether `Into` may turn `error` into `unified`.
pub open spec fn converts<A: Into<B>, B>(error: A, unified: B) -> bool {
    A::obeys_into_spec() ==> unified == error.into_spec()
}

/// Whether `Into` may turn the outcome `inner` of a write or a flush into `outer`.
pub open spec fn unifies_outcome<A: Into<B>, B>(inner: Result<(), A>, outer: Result<(), B>) -> bool {
    match inner {
        Ok(_) => outer is Ok,
        Err(error) => outer matches Err(unified) && converts(error, unified),
    }
}

/// A reader whose errors pass through a function.
pub struct MapReadErr<R, F, E> {
    reader: R,
    mapper: F,
    target: PhantomData<E>,
}

impl<R, F, E> MapReadErr<R, F, E> {
    /// The wrapped reader.
    pub closed spec fn inner(&self) -> R {
        self.reader
    }

    /// The function that errors pass through.
    pub closed spec fn mapper(&self) -> F {
        self.mapper
    }

    pub(crate) fn new(reader: R, mapper: F) -> (adapter: Self)
        ensures
            adapter.inner() == reader,
            adapter.mapper() == mapper,
    {
        MapReadErr { reader, mapper, target: PhantomData }
    }
}

impl<E, R: BufRead, F: FnMut(R::ReadError) -> E> BufRead for MapReadErr<R, F, E> {
    type ReadError = E;

    open spec fn readable(&self) -> bool {
        &&& self.inner().readable()
        &&& forall|error: R::ReadError| call_requires(self.mapper(), (error,))
    }

    open spec fn stream(&self) -> Seq<u8> {
        self.inner().stream()
    }

    open spec fn exposed(&self) -> nat {
        self.inner().exposed()
    }

    open spec fn fails_with(&self, error: Self::ReadError) -> bool {
        exists|inner: R::ReadError| #[trigger]
            self.inner().fails_with(inner) && call_ensures(self.mapper(), (inner,), error)
    }

    /// The view of the wrapped reader, or what the function makes of its error.
    fn fill_buf(&mut self) -> (r: Result<&[u8], Self::ReadError>)
        ensures
            (*final(self)).mapper() == (*old(self)).mapper(),
    {
        assert(self.mapper() == self.mapper);
        match self.reader.fill_buf() {
            Ok(buf) => Ok(buf),
            Err(error) => Err((self.mapper)(error)),
        }
    }

    fn consume(&mut self, amount: usize)
        ensures
            (*final(self)).mapper() == (*old(self)).mapper(),
    {
        self.reader.consume(amount);
        assert(self.mapper() == old(self).mapper());
    }
}

/// Mapping the errors of a reader changes nothing but the errors. The adapter is readable
/// where the wrapped reader is and the function takes every error; it has the bytes of
/// the wrapped reader left to deliver and exposes as many; and it may fail with exactly
/// what the function may make of an error that the wrapped reader may fail with.
pub proof fn map_read_err_changes_errors_only<E, R: BufRead, F: FnMut(R::ReadError) -> E>(
    adapter: MapReadErr<R, F, E>,
)
    ensures
        adapter.readable() <==> adapter.inner().readable() && forall|error: R::ReadError|
            call_requires(adapter.mapper(), (error,)),
        adapter.stream() == adapter.inner().stream(),
        adapter.exposed() == adapter.inner().exposed(),
        forall|outer: E| #[trigger]
            adapter.fails_with(outer) <==> exists|inner: R::ReadError| #[trigger]
                adapter.inner().fails_with(inner) && call_ensures(
                    adapter.mapper(),
                    (inner,),
                    outer,
                ),
{
}

/// A failure that a derived read reports through the adapter began as a failure of the
/// wrapped reader, in a state with the same bytes left to deliver. The adapter is passed
/// for the sake of its type alone.
pub proof fn map_read_err_fails_from_within<E, R: BufRead, F: FnMut(R::ReadError) -> E>(
    adapter: MapReadErr<R, F, E>,
    error: E,
    stream: Seq<u8>,
)
    requires
        fails_at::<MapReadErr<R, F, E>>(error, stream),
    ensures
        exists|inner: R::ReadError| #[trigger] fails_at::<R>(inner, stream),
{
    let state = choose|state: MapReadErr<R, F, E>| #[trigger]
        state.fails_with(error) && state.readable() && state.stream() == stream;
    let inner = choose|inner: R::ReadError| #[trigger]
        state.inner().fails_with(inner) && call_ensures(state.mapper(), (inner,), error);
    assert(state.inner().fails_with(inner) && state.inner().readable() && state.inner().stream()
        == stream);
    assert(fails_at::<R>(inner, stream));
}

/// A writer whose errors pass through a function.
pub struct MapWriteErr<W, F, E> {
    writer: W,
    mapper: F,
    target: PhantomData<E>,
}

impl<W, F, E> MapWriteErr<W, F, E> {
    /// The wrapped writer.
    pub closed spec fn inner(&self) -> W {
        self.writer
    }

    /// The function that errors pass through.
    pub closed spec fn mapper(&self) -> F {
        self.mapper
    }

    pub(crate) fn new(writer: W, mapper: F) -> (adapter: Self)
        ensures
            adapter.inner() == writer,
            adapter.mapper() == mapper,
    {
        MapWriteErr { writer, mapper, target: PhantomData }
    }
}

impl<E, W: BufWrite, F: FnMut(W::WriteError) -> E> BufWrite for MapWriteErr<W, F, E> {
    type WriteError = E;

    open spec fn writable(&self) -> bool {
        &&& self.inner().writable()
        &&& forall|error: W::WriteError| call_requires(self.mapper(), (error,))
    }

    open spec fn write_spec(
        &self,
        bytes: Seq<u8>,
        after: Self,
        outcome: Result<(), Self::WriteError>,
    ) -> bool {
        &&& after.mapper() == self.mapper()
        &&& exists|inner: Result<(), W::WriteError>| #[trigger]
            self.inner().write_spec(bytes, after.inner(), inner) && maps_outcome(
                self.mapper(),
                inner,
                outcome,
            )
    }

    open spec fn flush_spec(&self, after: Self, outcome: Result<(), Self::WriteError>) -> bool {
        &&& after.mapper() == self.mapper()
        &&& exists|inner: Result<(), W::WriteError>| #[trigger]
            self.inner().flush_spec(after.inner(), inner) && maps_outcome(
                self.mapper(),
                inner,
                outcome,
            )
    }

    /// The outcome of the wrapped writer, an error having passed through the function.
    fn write_all(&mut self, bytes: &[u8]) -> (r: Result<(), Self::WriteError>) {
        assert(self.mapper() == self.mapper);
        let inner = self.writer.write_all(bytes);
        let ghost outcome = inner;
        let r = match inner {
            Ok(done) => Ok(done),
            Err(error) => Err((self.mapper)(error)),
        };
        assert(old(self).inner().write_spec(bytes@, self.inner(), outcome) && maps_outcome(
            old(self).mapper(),
            outcome,
            r,
        ));
        r
    }

    /// The outcome of the wrapped writer, an error having passed through the function.
    fn flush(&mut self) -> (r: Result<(), Self::WriteError>) {
        assert(self.mapper() == self.mapper);
        let inner = self.writer.flush();
        let ghost outcome = inner;
        let r = match inner {
            Ok(done) => Ok(done),
            Err(error) => Err((self.mapper)(error)),
        };
        assert(old(self).inner().flush_spec(self.inner(), outcome) && maps_outcome(
            old(self).mapper(),
            outcome,
            r,
        ));
        r
    }
}

/// Mapping the errors of a writer changes nothing but the errors. The adapter is writable
/// where the wrapped writer is and the function takes every error. Whatever the wrapped
/// writer may do with `bytes` or on a flush, the adapter may do, reporting success for
/// success and what the function makes of the error for a failure; and it may do nothing
/// else.
pub proof fn map_write_err_changes_errors_only<E, W: BufWrite, F: FnMut(W::WriteError) -> E>(
    adapter: MapWriteErr<W, F, E>,
    bytes: Seq<u8>,
    after: MapWriteErr<W, F, E>,
    outcome: Result<(), E>,
)
    ensures
        adapter.writable() <==> adapter.inner().writable() && forall|error: W::WriteError|
            call_requires(adapter.mapper(), (error,)),
        adapter.write_spec(bytes, after, outcome) <==> after.mapper() == adapter.mapper() && (
        exists|inner: Result<(), W::WriteError>| #[trigger]
            adapter.inner().write_spec(bytes, after.inner(), inner) && maps_outcome(
                adapter.mapper(),
                inner,
                outcome,
            )),
        adapter.flush_spec(after, outcome) <==> after.mapper() == adapter.mapper() && (
        exists|inner: Result<(), W::WriteError>| #[trigger]
            adapter.inner().flush_spec(after.inner(), inner) && maps_outcome(
                adapter.mapper(),
                inner,
                outcome,
            )),
{
}

/// A reader and writer whose errors, of either kind, pass through one function.
pub struct MapErr<Io, F, E> {
    io: Io,
    mapper: F,
    target: PhantomData<E>,
}

impl<Io, F, E> MapErr<Io, F, E> {
    /// The wrapped reader and writer.
    pub closed spec fn inner(&self) -> Io {
        self.io
    }

    /// The function that errors pass through.
    pub closed spec fn mapper(&self) -> F {
        self.mapper
    }

    pub(crate) fn new(io: Io, mapper: F) -> (adapter: Self)
        ensures
            adapter.inner() == io,
            adapter.mapper() == mapper,
    {
        MapErr { io, mapper, target: PhantomData }
    }
}

impl<E, R: BufRead, F: FnMut(R::ReadError) -> E> BufRead for MapErr<R, F, E> {
    type ReadError = E;

    open spec fn readable(&self) -> bool {
        &&& self.inner().readable()
        &&& forall|error: R::ReadError| call_requires(self.mapper(), (error,))
    }

    open spec fn stream(&self) -> Seq<u8> {
        self.inner().stream()
    }

    open spec fn exposed(&self) -> nat {
        self.inner().exposed()
    }

    open spec fn fails_with(&self, error: Self::ReadError) -> bool {
        exists|inner: R::ReadError| #[trigger]
            self.inner().fails_with(inner) && call_ensures(self.mapper(), (inner,), error)
    }

    /// The view of the wrapped reader, or what the function makes of its error.
    fn fill_buf(&mut self) -> (r: Result<&[u8], Self::ReadError>)
        ensures
            (*final(self)).mapper() == (*old(self)).mapper(),
    {
        assert(self.mapper() == self.mapper);
        match self.io.fill_buf() {
            Ok(buf) => Ok(buf),
            Err(error) => Err((self.mapper)(error)),
        }
    }

    fn consume(&mut self, amount: usize)
        ensures
            (*final(self)).mapper() == (*old(self)).mapper(),
    {
        self.io.consume(amount);
        assert(self.mapper() == old(self).mapper());
    }
}

impl<E, W: BufWrite, F: FnMut(W::WriteError) -> E> BufWrite for MapErr<W, F, E> {
    type WriteError = E;

    open spec fn writable(&self) -> bool {
        &&& self.inner().writable()
        &&& forall|error: W::WriteError| call_requires(self.mapper(), (error,))
    }

    open spec fn write_spec(
        &self,
        bytes: Seq<u8>,
        after: Self,
        outcome: Result<(), Self::WriteError>,
    ) -> bool {
        &&& after.mapper() == self.mapper()
        &&& exists|inner: Result<(), W::WriteError>| #[trigger]
            self.inner().write_spec(bytes, after.inner(), inner) && maps_outcome(
                self.mapper(),
                inner,
                outcome,
            )
    }

    open spec fn flush_spec(&self, after: Self, outcome: Result<(), Self::WriteError>) -> bool {
        &&& after.mapper() == self.mapper()
        &&& exists|inner: Result<(), W::WriteError>| #[trigger]
            self.inner().flush_spec(after.inner(), inner) && maps_outcome(
                self.mapper(),
                inner,
                outcome,
            )
    }

    /// The outcome of the wrapped writer, an error having passed through the function.
    fn write_all(&mut self, bytes: &[u8]) -> (r: Result<(), Self::WriteError>) {
        assert(self.mapper() == self.mapper);
        let inner = self.io.write_all(bytes);
        let ghost outcome = inner;
        let r = match inner {
            Ok(done) => Ok(done),
            Err(error) => Err((self.mapper)(error)),
        };
        assert(old(self).inner().write_spec(bytes@, self.inner(), outcome) && maps_outcome(
            old(self).mapper(),
            outcome,
            r,
        ));
        r
    }

    /// The outcome of the wrapped writer, an error having passed through the function.
    fn flush(&mut self) -> (r: Result<(), Self::WriteError>) {
        assert(self.mapper() == self.mapper);
        let inner = self.io.flush();
        let ghost outcome = inner;
        let r = match inner {
            Ok(done) => Ok(done),
            Err(error) => Err((self.mapper)(error)),
        };
        assert(old(self).inner().flush_spec(self.inner(), outcome) && maps_outcome(
            old(self).mapper(),
            outcome,
            r,
        ));
        r
    }
}

/// What [`map_read_err_changes_errors_only`] says of a reader, said of the reading side
/// of [`MapErr`].
pub proof fn map_err_changes_read_errors_only<E, R: BufRead, F: FnMut(R::ReadError) -> E>(
    adapter: MapErr<R, F, E>,
)
    ensures
        adapter.readable() <==> adapter.inner().readable() && forall|error: R::ReadError|
            call_requires(adapter.mapper(), (error,)),
        adapter.stream() == adapter.inner().stream(),
        adapter.exposed() == adapter.inner().exposed(),
        forall|outer: E| #[trigger]
            adapter.fails_with(outer) <==> exists|inner: R::ReadError| #[trigger]
                adapter.inner().fails_with(inner) && call_ensures(
                    adapter.mapper(),
                    (inner,),
                    outer,
                ),
{
}

/// What [`map_read_err_fails_from_within`] says of a reader, said of the reading side of
/// [`MapErr`].
pub proof fn map_err_fails_from_within<E, R: BufRead, F: FnMut(R::ReadError) -> E>(
    adapter: MapErr<R, F, E>,
    error: E,
    stream: Seq<u8>,
)
    requires
        fails_at::<MapErr<R, F, E>>(error, stream),
    ensures
        exists|inner: R::ReadError| #[trigger] fails_at::<R>(inner, stream),
{
    let state = choose|state: MapErr<R, F, E>| #[trigger]
        state.fails_with(error) && state.readable() && state.stream() == stream;
    let inner = choose|inner: R::ReadError| #[trigger]
        state.inner().fails_with(inner) && call_ensures(state.mapper(), (inner,), error);
    assert(state.inner().fails_with(inner) && state.inner().readable() && state.inner().stream()
        == stream);
    assert(fails_at::<R>(inner, stream));
}

/// What [`map_write_err_changes_errors_only`] says of a writer, said of the writing side
/// of [`MapErr`].
pub proof fn map_err_changes_write_errors_only<E, W: BufWrite, F: FnMut(W::WriteError) -> E>(
    adapter: MapErr<W, F, E>,
    bytes: Seq<u8>,
    after: MapErr<W, F, E>,
    outcome: Result<(), E>,
)
    ensures
        adapter.writable() <==> adapter.inner().writable() && forall|error: W::WriteError|
            call_requires(adapter.mapper(), (error,)),
        adapter.write_spec(bytes, after, outcome) <==> after.mapper() == adapter.mapper() && (
        exists|inner: Result<(), W::WriteError>| #[trigger]
            adapter.inner().write_spec(bytes, after.inner(), inner) && maps_outcome(
                adapter.mapper(),
                inner,
                outcome,
            )),
        adapter.flush_spec(after, outcome) <==> after.mapper() == adapter.mapper() && (
        exists|inner: Result<(), W::WriteError>| #[trigger]
            adapter.inner().flush_spec(after.inner(), inner) && maps_outcome(
                adapter.mapper(),
                inner,
                outcome,
            )),
{
}

/// A reader and writer whose errors, of either kind, are converted by `Into` to one type.
pub struct UnifyErr<Io, E> {
    io: Io,
    target: PhantomData<E>,
}

impl<Io, E> UnifyErr<Io, E> {
    /// The wrapped reader and writer.
    pub closed spec fn inner(&self) -> Io {
        self.io
    }

    pub(crate) fn new(io: Io) -> (adapter: Self)
        ensures
            adapter.inner() == io,
    {
        UnifyErr { io, target: PhantomData }
    }
}

impl<Io, E> BufRead for UnifyErr<Io, E> where
    Io: BufRead + BufWrite,
    Io::ReadError: Into<E>,
    Io::WriteError: Into<E>,
 {
    type ReadError = E;

    open spec fn readable(&self) -> bool {
        self.inner().readable()
    }

    open spec fn stream(&self) -> Seq<u8> {
        self.inner().stream()
    }

    open spec fn exposed(&self) -> nat {
        self.inner().exposed()
    }

    open spec fn fails_with(&self, error: Self::ReadError) -> bool {
        exists|inner: Io::ReadError| #[trigger]
            self.inner().fails_with(inner) && converts(inner, error)
    }

    /// The view of the wrapped reader, or its error converted.
    fn fill_buf(&mut self) -> (r: Result<&[u8], Self::ReadError>) {
        match self.io.fill_buf() {
            Ok(buf) => Ok(buf),
            Err(error) => Err(error.into()),
        }
    }

    fn consume(&mut self, amount: usize) {
        self.io.consume(amount)
    }
}

impl<Io, E> BufWrite for UnifyErr<Io, E> where
    Io: BufRead + BufWrite,
    Io::ReadError: Into<E>,
    Io::WriteError: Into<E>,
 {
    type WriteError = E;

    open spec fn writable(&self) -> bool {
        self.inner().writable()
    }

    open spec fn write_spec(
        &self,
        bytes: Seq<u8>,
        after: Self,
        outcome: Result<(), Self::WriteError>,
    ) -> bool {
        exists|inner: Result<(), Io::WriteError>| #[trigger]
            self.inner().write_spec(bytes, after.inner(), inner) && unifies_outcome(
                inner,
                outcome,
            )
    }

    open spec fn flush_spec(&self, after: Self, outcome: Result<(), Self::WriteError>) -> bool {
        exists|inner: Result<(), Io::WriteError>| #[trigger]
            self.inner().flush_spec(after.inner(), inner) && unifies_outcome(inner, outcome)
    }

    /// The outcome of the wrapped writer, an error having been converted.
    fn write_all(&mut self, bytes: &[u8]) -> (r: Result<(), Self::WriteError>) {
        let inner = self.io.write_all(bytes);
        let ghost outcome = inner;
        let r = match inner {
            Ok(done) => Ok(done),
            Err(error) => Err(error.into()),
        };
        assert(old(self).inner().write_spec(bytes@, self.inner(), outcome) && unifies_outcome(
            outcome,
            r,
        ));
        r
    }

    /// The outcome of the wrapped writer, an error having been converted.
    fn flush(&mut self) -> (r: Result<(), Self::WriteError>) {
        let inner = self.io.flush();
        let ghost outcome = inner;
        let r = match inner {
            Ok(done) => Ok(done),
            Err(error) => Err(error.into()),
        };
        assert(old(self).inner().flush_spec(self.inner(), outcome) && unifies_outcome(
            outcome,
            r,
        ));
        r
    }
}

/// Unifying the errors of a reader and writer changes nothing but the errors: what is
/// said of [`MapReadErr`] and [`MapWriteErr`] holds with `Into` in place of the function.
pub proof fn unify_err_changes_errors_only<Io, E>(
    adapter: UnifyErr<Io, E>,
    bytes: Seq<u8>,
    after: UnifyErr<Io, E>,
    outcome: Result<(), E>,
) where Io: BufRead + BufWrite, Io::ReadError: Into<E>, Io::WriteError: Into<E>
    ensures
        adapter.readable() <==> adapter.inner().readable(),
        adapter.writable() <==> adapter.inner().writable(),
        adapter.stream() == adapter.inner().stream(),
        adapter.exposed() == adapter.inner().exposed(),
        forall|outer: E| #[trigger]
            adapter.fails_with(outer) <==> exists|inner: Io::ReadError| #[trigger]
                adapter.inner().fails_with(inner) && converts(inner, outer),
        adapter.write_spec(bytes, after, outcome) <==> exists|inner: Result<(), Io::WriteError>|
         #[trigger]
            adapter.inner().write_spec(bytes, after.inner(), inner) && unifies_outcome(
                inner,
                outcome,
            ),
        adapter.flush_spec(after, outcome) <==> exists|inner: Result<(), Io::WriteError>|
         #[trigger]
            adapter.inner().flush_spec(after.inner(), inner) && unifies_outcome(inner, outcome),
{
}

} // verus!
