//! Streams that choose between two sources. The sources are polled through functions that the
//! caller hands in, so nothing here depends on what a source is.

use std::collections::VecDeque;
use vstd::prelude::*;

verus! {

/// `f` may be called on a value that holds `before`.
pub open spec fn may_run<S, R, F: FnOnce(&mut S) -> R>(f: F, before: S) -> bool {
    forall|target: &mut S| *target == before ==> #[trigger] call_requires(f, (target,))
}

/// One of two streams of the same items.
#[derive(Debug)]
pub enum EitherStream<A, B> {
    /// First branch of the type
    A(A),
    /// Second branch of the type
    B(B),
}

impl<A, B> EitherStream<A, B> {
    /// Polls the stream that is there, with the function that belongs to it. The other function
    /// is not called.
    pub fn poll<R>(
        &mut self,
        poll_a: impl FnOnce(&mut A) -> R,
        poll_b: impl FnOnce(&mut B) -> R,
    ) -> (polled: R)
        requires
            match *old(self) {
                EitherStream::A(a) => may_run(poll_a, a),
                EitherStream::B(b) => may_run(poll_b, b),
            },
        ensures
            match *old(self) {
                EitherStream::A(a) => exists|target: &mut A|
                    {
                        &&& *target == a
                        &&& #[trigger] call_ensures(poll_a, (target,), polled)
                        &&& *final(self) == EitherStream::<A, B>::A(*final(target))
                    },
                EitherStream::B(b) => exists|target: &mut B|
                    {
                        &&& *target == b
                        &&& #[trigger] call_ensures(poll_b, (target,), polled)
                        &&& *final(self) == EitherStream::<A, B>::B(*final(target))
                    },
            },
    {
        match self {
            EitherStream::A(a) => poll_a(a),
            EitherStream::B(b) => poll_b(b),
        }
    }
}

/// What is in front of a stream after a peek, given what the stream answers where it is asked.
pub open spec fn peeked_front<T, R>(front: Seq<T>, answer: Result<T, R>) -> Seq<T> {
    if front.len() > 0 {
        front
    } else {
        match answer {
            Ok(item) => seq![item],
            Err(_) => Seq::empty(),
        }
    }
}

/// What is in front of a stream after a poll.
pub open spec fn polled_front<T>(front: Seq<T>) -> Seq<T> {
    if front.len() > 0 {
        front.drop_first()
    } else {
        front
    }
}

/// A poll of a prepended stream under a limit, with the answers that the stream behind gives where
/// it is asked.
pub struct LimitedPoll<T, E> {
    /// Whether the limit is reached.
    pub full: bool,
    /// The answer to a peek: an item, or whether that there is none is a failure.
    pub peeked: Result<T, bool>,
    /// The answer to a poll: an item, or anything else.
    pub polled: Result<T, E>,
}

impl<T, E> LimitedPoll<T, E> {
    /// Whether the stream behind is peeked at: the limit is reached, and nothing is in front.
    pub open spec fn asks_peek(self, front: Seq<T>) -> bool {
        self.full && front.len() == 0
    }

    /// Whether the next item is taken: the limit is not reached, or a peek failed.
    pub open spec fn goes_on(self, front: Seq<T>) -> bool {
        !self.full || (self.asks_peek(front) && self.peeked == Err::<T, bool>(true))
    }

    /// Whether the stream behind is polled.
    pub open spec fn asks_poll(self, front: Seq<T>) -> bool {
        self.goes_on(front) && front.len() == 0
    }

    /// What comes out: nothing yet, an item, or another answer of the stream behind.
    pub open spec fn answer(self, front: Seq<T>) -> Option<Result<T, E>> {
        if !self.goes_on(front) {
            None
        } else if front.len() > 0 {
            Some(Ok(front[0]))
        } else {
            Some(self.polled)
        }
    }

    /// What is in front afterwards.
    pub open spec fn front_after(self, front: Seq<T>) -> Seq<T> {
        let peeked = if self.full {
            peeked_front(front, self.peeked)
        } else {
            front
        };
        if self.goes_on(front) {
            polled_front(peeked)
        } else {
            peeked
        }
    }
}

/// What a prepended stream yields: an item put in front, or what the stream behind it answered.
#[derive(Debug, Clone, PartialEq, Eq)]
pub enum Prepended<T, R> {
    Front(T),
    Behind(R),
}

/// A stream with items put in front of it.
#[derive(Debug)]
pub struct Prepend<T, S> {
    session: VecDeque<T>,
    stream: S,
}

impl<T, S> Prepend<T, S> {
    /// The items in front, in the order in which they come out.
    pub closed spec fn front(self) -> Seq<T> {
        self.session@
    }

    /// The stream behind them.
    pub closed spec fn behind(self) -> S {
        self.stream
    }

    /// A stream with nothing in front of it.
    pub fn new(stream: S) -> (prepend: Self)
        ensures
            prepend.front() == Seq::<T>::empty(),
            prepend.behind() == stream,
    {
        Prepend { session: VecDeque::new(), stream }
    }

    /// Puts items in front of everything that is still to come.
    pub fn insert(&mut self, items: VecDeque<T>)
        ensures
            final(self).front() == items@ + old(self).front(),
            final(self).behind() == old(self).behind(),
    {
        let mut session = items;
        session.append(&mut self.session);
        self.session = session;
    }

    /// Looks whether there is a next item, without taking it. Where nothing is in front the stream
    /// is polled: an item of its goes to the front, where the next poll finds it, and any other
    /// answer is handed back.
    pub fn peek<R>(&mut self, poll_stream: impl FnOnce(&mut S) -> Result<T, R>) -> (peeked: Result<
        (),
        R,
    >)
        requires
            old(self).front().len() == 0 ==> may_run(poll_stream, old(self).behind()),
        ensures
            old(self).front().len() > 0 ==> {
                &&& peeked == Ok::<(), R>(())
                &&& final(self).front() == old(self).front()
                &&& final(self).behind() == old(self).behind()
            },
            old(self).front().len() == 0 ==> exists|target: &mut S, output: Result<T, R>|
                {
                    &&& *target == old(self).behind()
                    &&& #[trigger] call_ensures(poll_stream, (target,), output)
                    &&& final(self).behind() == *final(target)
                    &&& final(self).front() == peeked_front(old(self).front(), output)
                    &&& peeked == match output {
                        Ok(_) => Ok::<(), R>(()),
                        Err(answer) => Err::<(), R>(answer),
                    }
                },
    {
        if self.session.len() > 0 {
            return Ok(());
        }
        match poll_stream(&mut self.stream) {
            Ok(item) => {
                self.session.push_back(item);
                Ok(())
            },
            Err(answer) => Err(answer),
        }
    }

    /// Takes the next item: the first of those in front, as long as there is one. Only then is
    /// the stream polled.
    pub fn poll<R>(&mut self, poll_stream: impl FnOnce(&mut S) -> R) -> (polled: Prepended<T, R>)
        requires
            old(self).front().len() == 0 ==> may_run(poll_stream, old(self).behind()),
        ensures
            final(self).front() == polled_front(old(self).front()),
            old(self).front().len() > 0 ==> {
                &&& polled == Prepended::<T, R>::Front(old(self).front()[0])
                &&& final(self).behind() == old(self).behind()
            },
            old(self).front().len() == 0 ==> exists|target: &mut S, output: R|
                {
                    &&& *target == old(self).behind()
                    &&& #[trigger] call_ensures(poll_stream, (target,), output)
                    &&& final(self).behind() == *final(target)
                    &&& polled == Prepended::<T, R>::Behind(output)
                },
    {
        match self.session.pop_front() {
            Some(item) => Prepended::Front(item),
            None => Prepended::Behind(poll_stream(&mut self.stream)),
        }
    }
}

} // verus!
