//! Sequences of bytes as the contracts of this crate speak of them.

use vstd::prelude::*;

verus! {

/// The first `count` items of `bytes`, or all of them where there are fewer.
pub open spec fn front(bytes: Seq<u8>, count: nat) -> Seq<u8> {
    if count < bytes.len() {
        bytes.take(count as int)
    } else {
        bytes
    }
}

/// The front of a sequence is as long as the smaller of the count and its length, and the
/// sequence starts with it.
pub proof fn front_is_prefix(bytes: Seq<u8>, count: nat)
    ensures
        front(bytes, count).len() == if count < bytes.len() {
            count
        } else {
            bytes.len()
        },
        front(bytes, count) == bytes.take(front(bytes, count).len() as int),
        front(bytes, count).is_prefix_of(bytes),
{
    assert(front(bytes, count) =~= bytes.take(front(bytes, count).len() as int));
}

/// Dropping `amount` items of the front drops them from the sequence and from the count.
pub proof fn front_skip(bytes: Seq<u8>, count: nat, amount: nat)
    requires
        amount <= front(bytes, count).len(),
    ensures
        front(bytes, count).skip(amount as int) == front(
            bytes.skip(amount as int),
            (count - amount) as nat,
        ),
{
    assert(front(bytes, count).skip(amount as int) =~= front(
        bytes.skip(amount as int),
        (count - amount) as nat,
    ));
}

/// The front of a front is the front up to the smaller count.
pub proof fn front_of_front(bytes: Seq<u8>, first: nat, second: nat)
    ensures
        front(front(bytes, first), second) == front(
            bytes,
            if first < second {
                first
            } else {
                second
            },
        ),
        front(front(bytes, first), second) == front(front(bytes, second), first),
{
    let least = if first < second {
        first
    } else {
        second
    };
    assert(front(front(bytes, first), second) =~= front(bytes, least));
    assert(front(front(bytes, second), first) =~= front(bytes, least));
}

/// A front that ends within the first of two sequences is a front of that one.
pub proof fn front_of_joined(first: Seq<u8>, second: Seq<u8>, count: nat)
    requires
        count <= first.len(),
    ensures
        front(first + second, count) == front(first, count),
{
    assert(front(first + second, count) =~= front(first, count));
}

/// Overwrites `count` bytes of `buf`, from position `at` on, with the first `count` bytes
/// of `src`.
pub fn copy_into(buf: &mut [u8], at: usize, src: &[u8], count: usize)
    requires
        at + count <= old(buf)@.len(),
        count <= src@.len(),
    ensures
        final(buf)@ == old(buf)@.take(at as int) + src@.take(count as int) + old(buf)@.skip(
            at + count,
        ),
{
    let len: usize = buf.len();
    let mut done: usize = 0;
    assert(buf@ =~= old(buf)@.take(at as int) + src@.take(0) + old(buf)@.skip(at as int));
    while done < count
        invariant
            done <= count,
            count <= src@.len(),
            at + count <= len,
            len == old(buf)@.len(),
            buf@ == old(buf)@.take(at as int) + src@.take(done as int) + old(buf)@.skip(
                at + done,
            ),
        decreases count - done,
    {
        buf[at + done] = src[done];
        done = done + 1;
        assert(buf@ =~= old(buf)@.take(at as int) + src@.take(done as int) + old(buf)@.skip(
            at + done,
        ));
    }
}

} // verus!
