//! What streams that choose between two sources do, in terms of what goes in and what comes out.

use crate::stream::{EitherStream, Prepend, Prepended};
use std::collections::VecDeque;
use vstd::prelude::*;

verus! {

/// A poll of one of two streams is a poll of the one that is there: its answer comes out, and it
/// is still there afterwards.
pub proof fn law_either_is_the_one_that_is_there<
    A,
    B,
    R,
    P: FnOnce(&mut A) -> R,
    Q: FnOnce(&mut B) -> R,
>(poll_a: P, poll_b: Q, polled: R)
    ensures
        forall|stream: &mut EitherStream<A, B>| #[trigger]
            call_ensures(EitherStream::poll, (stream, poll_a, poll_b), polled) ==> {
                &&& *stream matches EitherStream::A(a) ==> exists|target: &mut A|
                    {
                        &&& *target == a
                        &&& #[trigger] call_ensures(poll_a, (target,), polled)
                        &&& *final(stream) == EitherStream::<A, B>::A(*final(target))
                    }
                &&& *stream matches EitherStream::B(b) ==> exists|target: &mut B|
                    {
                        &&& *target == b
                        &&& #[trigger] call_ensures(poll_b, (target,), polled)
                        &&& *final(stream) == EitherStream::<A, B>::B(*final(target))
                    }
            },
{
}

/// Nothing is in front of a stream at first.
pub proof fn law_nothing_in_front_at_first<T, S>(stream: S, prepend: Prepend<T, S>)
    requires
        call_ensures(Prepend::new, (stream,), prepend),
    ensures
        prepend.front().len() == 0,
        prepend.behind() == stream,
{
}

/// Items put in front are there in their order, followed by what was there before.
pub proof fn law_items_go_in_front<T, S>(items: VecDeque<T>)
    ensures
        forall|prepend: &mut Prepend<T, S>| #[trigger]
            call_ensures(Prepend::insert, (prepend, items), ()) ==> {
                let n = items@.len() as int;
                let before = prepend.front();
                let after = final(prepend).front();
                &&& after.len() == n + before.len()
                &&& forall|i: int| 0 <= i < n ==> #[trigger] after[i] == items@[i]
                &&& forall|i: int| n <= i < after.len() ==> #[trigger] after[i] == before[i - n]
                &&& final(prepend).behind() == prepend.behind()
            },
{
}

/// A poll takes the first of the items in front and leaves the others. The stream behind is polled
/// exactly if there is none, and then its answer comes out.
pub proof fn law_front_comes_out_first<T, S, R, F: FnOnce(&mut S) -> R>(
    poll_stream: F,
    polled: Prepended<T, R>,
)
    ensures
        polled matches Prepended::Front(item) ==> forall|prepend: &mut Prepend<T, S>| #[trigger]
            call_ensures(Prepend::poll, (prepend, poll_stream), polled) ==> {
                &&& prepend.front() == seq![item] + final(prepend).front()
                &&& final(prepend).behind() == prepend.behind()
            },
        polled is Behind ==> forall|prepend: &mut Prepend<T, S>| #[trigger]
            call_ensures(Prepend::poll, (prepend, poll_stream), polled) ==> {
                &&& prepend.front().len() == 0
                &&& final(prepend).front().len() == 0
                &&& exists|target: &mut S, answer: R|
                    {
                        &&& *target == prepend.behind()
                        &&& #[trigger] call_ensures(poll_stream, (target,), answer)
                        &&& polled == Prepended::<T, R>::Behind(answer)
                        &&& final(prepend).behind() == *final(target)
                    }
            },
{
    assert forall|prepend: &mut Prepend<T, S>| #[trigger]
        call_ensures(Prepend::poll, (prepend, poll_stream), polled) && polled
            is Front implies prepend.front() =~= seq![polled->Front_0] + final(prepend).front() by {
        assert(prepend.front().len() > 0);
        assert(final(prepend).front() == prepend.front().drop_first());
    }
}

/// A peek takes nothing. Where nothing is in front it asks the stream behind, whose item then is in
/// front and whose other answers come out.
pub proof fn law_peek_takes_nothing<T, S, R, F: FnOnce(&mut S) -> Result<T, R>>(
    poll_stream: F,
    peeked: Result<(), R>,
)
    ensures
        forall|prepend: &mut Prepend<T, S>| #[trigger]
            call_ensures(Prepend::peek, (prepend, poll_stream), peeked) ==> {
                let before = prepend.front();
                let after = final(prepend).front();
                &&& peeked is Ok <==> after.len() > 0
                &&& before.len() > 0 ==> after == before && final(prepend).behind()
                    == prepend.behind()
                &&& before.len() == 0 ==> exists|target: &mut S, answer: Result<T, R>|
                    {
                        &&& *target == prepend.behind()
                        &&& #[trigger] call_ensures(poll_stream, (target,), answer)
                        &&& final(prepend).behind() == *final(target)
                        &&& match answer {
                            Ok(item) => after == seq![item],
                            Err(other) => peeked == Err::<(), R>(other),
                        }
                    }
            },
{
}

/// The first of some items put in front is what the next poll takes.
pub proof fn law_inserted_item_comes_next<T, S, R, F: FnOnce(&mut S) -> R>(
    items: VecDeque<T>,
    poll_stream: F,
    polled: Prepended<T, R>,
)
    requires
        items@.len() > 0,
    ensures
        forall|first: &mut Prepend<T, S>, second: &mut Prepend<T, S>|
            {
                &&& #[trigger] call_ensures(Prepend::insert, (first, items), ())
                &&& *second == *final(first)
                &&& #[trigger] call_ensures(Prepend::poll, (second, poll_stream), polled)
            } ==> polled == Prepended::<T, R>::Front(items@[0]),
{
}

/// A poll after a peek that found an item takes an item, and leaves the stream behind as the peek
/// left it.
pub proof fn law_peeked_item_comes_next<
    T,
    S,
    R,
    W,
    G: FnOnce(&mut S) -> Result<T, R>,
    F: FnOnce(&mut S) -> W,
>(peek_stream: G, poll_stream: F, polled: Prepended<T, W>)
    ensures
        forall|first: &mut Prepend<T, S>, second: &mut Prepend<T, S>|
            {
                &&& #[trigger] call_ensures(Prepend::peek, (first, peek_stream), Ok::<(), R>(()))
                &&& *second == *final(first)
                &&& #[trigger] call_ensures(Prepend::poll, (second, poll_stream), polled)
            } ==> polled is Front && final(second).behind() == second.behind(),
{
}

} // verus!
