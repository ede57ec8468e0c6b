use crate::bytes::{front, front_is_prefix, front_of_front, front_skip};
use crate::{BufRead, BufReadExt};
use vstd::prelude::*;
use vstd::slice::slice_subrange;

verus! {

/// The smaller of a byte budget and a length.
pub fn min(a: u64, b: usize) -> (least: usize)
    ensures
        least == if a < b {
            a as int
        } else {
            b as int
        },
{
    if a < b as u64 {
        a as usize
    } else {
        b
    }
}

/// Delivers at most a given number of bytes of the reader it wraps.
pub struct Take<R> {
    reader: R,
    limit: u64,
}

impl<R> Take<R> {
    /// The wrapped reader.
    pub closed spec fn inner(&self) -> R {
        self.reader
    }

    /// How many bytes may still be delivered.
    pub closed spec fn limit(&self) -> u64 {
        self.limit
    }

    pub(crate) fn new(reader: R, limit: u64) -> (taken: Self)
        ensures
            taken.inner() == reader,
            taken.limit() == limit,
    {
        Take { reader, limit }
    }
}

/// A limited reader has yet to deliver the front of what the wrapped reader has yet to
/// deliver: as many bytes as the budget allows, or all where there are fewer. With the
/// budget used up it has nothing to deliver and nothing exposed.
pub proof fn take_delivers_front<R: BufRead>(taken: Take<R>)
    ensures
        taken.stream().len() == if taken.limit() < taken.inner().stream().len() {
            taken.limit() as int
        } else {
            taken.inner().stream().len() as int
        },
        taken.stream() == taken.inner().stream().take(taken.stream().len() as int),
        taken.limit() == 0 ==> taken.stream().len() == 0 && taken.buffered().len() == 0,
{
    front_is_prefix(taken.inner().stream(), taken.limit() as nat);
}

impl<R: BufRead> BufRead for Take<R> {
    type ReadError = R::ReadError;

    open spec fn readable(&self) -> bool {
        self.inner().readable()
    }

    open spec fn stream(&self) -> Seq<u8> {
        front(self.inner().stream(), self.limit() as nat)
    }

    open spec fn exposed(&self) -> nat {
        self.inner().exposed()
    }

    open spec fn fails_with(&self, error: Self::ReadError) -> bool {
        self.limit() > 0 && self.inner().fails_with(error)
    }

    /// With nothing left of the budget the view is empty and the wrapped reader is not
    /// touched. Otherwise the view of the wrapped reader is cut to the budget. A failure
    /// of the wrapped reader leaves the budget as it was.
    fn fill_buf(&mut self) -> (r: Result<&[u8], Self::ReadError>)
        ensures
            (*final(self)).limit() == (*old(self)).limit(),
            (*old(self)).limit() == 0 ==> r is Ok && *final(self) == *old(self),
            (*final(self)).inner().stream() == (*old(self)).inner().stream(),
    {
        if self.limit == 0 {
            let nothing: &[u8] = &[];
            return Ok(nothing);
        }
        let ghost stream = self.reader.stream();
        let ghost limit = self.limit as nat;
        assert forall|count: nat| #[trigger]
            front(front(stream, limit), count) == front(front(stream, count), limit) by {
            front_of_front(stream, limit, count);
        }
        match self.reader.fill_buf() {
            Ok(buf) => {
                let kept: usize = min(self.limit, buf.len());
                Ok(slice_subrange(buf, 0, kept))
            },
            Err(error) => Err(error),
        }
    }

    /// Takes `amount` off the budget and off the wrapped reader.
    fn consume(&mut self, amount: usize)
        ensures
            (*final(self)).limit() == (*old(self)).limit() - amount,
            (*final(self)).inner().stream() == (*old(self)).inner().stream().skip(amount as int),
    {
        let ghost stream = self.reader.stream();
        let ghost exposed = self.reader.exposed();
        let ghost limit = self.limit as nat;
        proof {
            front_of_front(stream, limit, exposed);
            front_skip(stream, limit, amount as nat);
            front_skip(front(stream, exposed), limit, amount as nat);
        }
        // A caller that Verus has not seen may pass more than was exposed: the budget then
        // ends at zero and does not wrap round.
        self.limit = if amount as u64 <= self.limit {
            self.limit - amount as u64
        } else {
            0
        };
        self.reader.consume(amount);
        proof {
            front_of_front(
                (*self).reader.stream(),
                (limit - amount) as nat,
                (*self).reader.exposed(),
            );
        }
    }
}

} // verus!
