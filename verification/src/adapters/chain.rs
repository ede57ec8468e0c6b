use crate::bytes::{front, front_is_prefix, front_of_joined};
use crate::BufRead;
use vstd::prelude::*;

verus! {

/// Delivers the bytes of one reader and then those of another.
pub struct Chain<L, R> {
    left: L,
    right: R,
    is_right: bool,
}

impl<L, R> Chain<L, R> {
    /// The reader that is read first.
    pub closed spec fn left(&self) -> L {
        self.left
    }

    /// The reader that is read once the first has ended.
    pub closed spec fn right(&self) -> R {
        self.right
    }

    /// Whether the first reader has been seen to end.
    pub closed spec fn switched(&self) -> bool {
        self.is_right
    }

    pub(crate) fn new(left: L, right: R) -> (chained: Self)
        ensures
            chained.left() == left,
            chained.right() == right,
            !chained.switched(),
    {
        Chain { left, right, is_right: false }
    }
}

/// A chain has yet to deliver what its first reader has yet to deliver, followed by what
/// its second has. It is at its end exactly when both are, and once the first reader has
/// been seen to end, what is left is what the second has left.
pub proof fn chain_delivers_both<L: BufRead, R: BufRead<ReadError = L::ReadError>>(
    chained: Chain<L, R>,
)
    requires
        chained.readable(),
    ensures
        chained.stream() == chained.left().stream() + chained.right().stream(),
        chained.stream().len() == 0 <==> chained.left().stream().len() == 0
            && chained.right().stream().len() == 0,
        chained.switched() ==> chained.stream() == chained.right().stream(),
{
    if chained.switched() {
        assert(chained.left().stream() + chained.right().stream() =~= chained.right().stream());
    }
}

impl<L: BufRead, R: BufRead<ReadError = L::ReadError>> BufRead for Chain<L, R> {
    type ReadError = L::ReadError;

    open spec fn readable(&self) -> bool {
        &&& self.left().readable()
        &&& self.right().readable()
        &&& self.switched() ==> self.left().stream().len() == 0
    }

    open spec fn stream(&self) -> Seq<u8> {
        self.left().stream() + self.right().stream()
    }

    open spec fn exposed(&self) -> nat {
        if self.switched() {
            self.right().exposed()
        } else {
            front(self.left().stream(), self.left().exposed()).len()
        }
    }

    open spec fn fails_with(&self, error: Self::ReadError) -> bool {
        if self.switched() {
            self.right().fails_with(error)
        } else {
            self.left().fails_with(error) || (self.left().stream().len() == 0
                && self.right().fails_with(error))
        }
    }

    /// Reads from the first reader until it is seen to end, and from the second ever after.
    /// The first reader is seen to end by a view that is empty, and it is not asked again
    /// from then on.
    fn fill_buf(&mut self) -> (r: Result<&[u8], Self::ReadError>)
        ensures
            (*final(self)).left().stream() == (*old(self)).left().stream(),
            (*final(self)).right().stream() == (*old(self)).right().stream(),
            (*old(self)).switched() ==> {
                &&& (*final(self)).switched()
                &&& (*final(self)).left() == (*old(self)).left()
            },
            !(*final(self)).switched() ==> (*final(self)).right() == (*old(self)).right(),
            (*final(self)).switched() ==> {
                ||| (*old(self)).switched()
                ||| (*old(self)).left().stream().len() == 0
            },
            r is Ok && (*old(self)).left().stream().len() == 0 ==> (*final(self)).switched(),
    {
        let ghost left = self.left.stream();
        let ghost right = self.right.stream();
        proof {
            front_is_prefix(left, self.left.exposed());
            assert forall|count: nat| #[trigger]
                front(left + right, front(left, count).len()) == front(left, count) by {
                front_is_prefix(left, count);
                front_of_joined(left, right, front(left, count).len());
                front_is_prefix(left, front(left, count).len());
            }
            if left.len() == 0 {
                assert(left + right =~= right);
            }
        }
        if self.is_right {
            self.right.fill_buf()
        } else {
            let mut buf = self.left.fill_buf()?;
            if buf.len() == 0 {
                self.is_right = true;
                buf = self.right.fill_buf()?;
            }
            Ok(buf)
        }
    }

    /// Consumes from the reader that the latest view came from.
    fn consume(&mut self, amount: usize)
        ensures
            (*final(self)).switched() == (*old(self)).switched(),
            (*old(self)).switched() ==> {
                &&& (*final(self)).left() == (*old(self)).left()
                &&& (*final(self)).right().stream() == (*old(self)).right().stream().skip(
                    amount as int,
                )
            },
            !(*old(self)).switched() ==> {
                &&& (*final(self)).right() == (*old(self)).right()
                &&& (*final(self)).left().stream() == (*old(self)).left().stream().skip(
                    amount as int,
                )
            },
    {
        let ghost left = self.left.stream();
        let ghost right = self.right.stream();
        proof {
            front_is_prefix(left, self.left.exposed());
            front_of_joined(left, right, front(left, self.left.exposed()).len());
        }
        if self.is_right {
            assert(left + right =~= right);
            self.right.consume(amount);
            assert((*self).left.stream() + (*self).right.stream() =~= (*self).right.stream());
        } else {
            self.left.consume(amount);
            proof {
                front_is_prefix((*self).left.stream(), (*self).left.exposed());
                front_of_joined(
                    (*self).left.stream(),
                    right,
                    front((*self).left.stream(), (*self).left.exposed()).len(),
                );
            }
        }
        assert((*self).stream() =~= (*old(self)).stream().skip(amount as int));
    }
}

} // verus!
