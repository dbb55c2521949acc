use vstd::prelude::*;
use core::marker::PhantomData;
use crate::{Directive, Observable, Observer};
use crate::semantics::{feed, step};

verus! {

/// The shared-consumer handle used inside the flatten combinator: it
/// forwards every item to the wrapped downstream observer unchanged
/// and swallows the completion signal of the inner stream it is
/// handed to, so that the downstream completion fires only once, when
/// the outer stream of streams finishes.  Mutual exclusion is enforced
/// by ownership rather than by a lock: exclusive ownership of the
/// wrapped observer moves from one inner subscription to the next, so
/// no two `next` or `completed` calls can ever overlap or tear.
pub struct SharedObserver<N> {
    /// The wrapped downstream observer.
    pub inner: N,
}

impl<A, N: Observer<A>> Observer<A> for SharedObserver<N> {
    type S = N::S;

    open spec fn st(&self) -> N::S {
        self.inner.st()
    }

    open spec fn inv(&self) -> bool {
        self.inner.inv()
    }

    open spec fn on_next(s: N::S, val: A) -> (N::S, Directive) {
        N::on_next(s, val)
    }

    open spec fn on_completed(s: N::S) -> N::S {
        s
    }

    fn next(self, val: A) -> (r: (Self, Directive)) {
        let (i2, d) = self.inner.next(val);
        (SharedObserver { inner: i2 }, d)
    }

    fn completed(self) -> (r: Self) {
        self
    }
}

/// The decorating consumer of the flatten combinator: each received
/// item is itself a producer, which is subscribed at once with a
/// shared-consumer handle to the downstream observer.  The outer
/// stream is always answered `Continue`: an early stop of one inner
/// stream never stops its siblings or the outer stream.  Completion
/// of the outer stream is forwarded downstream.
pub struct MergeAllObserver<A, U, N> {
    /// The downstream observer every inner stream delivers into.
    pub inner: N,
    /// Carries the item types of the inner streams.
    pub marker: PhantomData<(A, U)>,
}

impl<A, U, N> Observer<U> for MergeAllObserver<A, U, N> where
    N: Observer<A>,
    U: Observable<A, SharedObserver<N>>,
 {
    type S = N::S;

    open spec fn st(&self) -> N::S {
        self.inner.st()
    }

    open spec fn inv(&self) -> bool {
        self.inner.inv()
    }

    open spec fn on_next(s: N::S, val: U) -> (N::S, Directive) {
        (val.run(s), Directive::Continue)
    }

    open spec fn on_completed(s: N::S) -> N::S {
        N::on_completed(s)
    }

    fn next(self, val: U) -> (r: (Self, Directive)) {
        let io = SharedObserver { inner: self.inner };
        let io2 = val.subscribe(io);
        (MergeAllObserver { inner: io2.inner, marker: PhantomData }, Directive::Continue)
    }

    fn completed(self) -> (r: Self) {
        MergeAllObserver { inner: self.inner.completed(), marker: PhantomData }
    }
}

/// A producer that flattens a stream of streams: it subscribes to the
/// outer source and forwards every item of every inner stream, in
/// arrival order, to one downstream observer, completing exactly once
/// when the outer stream completes.  Because each inner stream is
/// subscribed synchronously as it arrives, every inner item has been
/// delivered by the time that completion fires.
pub struct MergeAllObservable<S, U> {
    /// The source whose items are themselves producers.
    pub source: S,
    /// Carries the inner stream type.
    pub marker: PhantomData<U>,
}

impl<A, U, S, N> Observable<A, N> for MergeAllObservable<S, U> where
    N: Observer<A>,
    U: Observable<A, SharedObserver<N>>,
    S: Observable<U, MergeAllObserver<A, U, N>>,
 {
    open spec fn run(&self, s: N::S) -> N::S {
        self.source.run(s)
    }

    fn subscribe(&self, o: N) -> (r: N) {
        let mo = MergeAllObserver { inner: o, marker: PhantomData };
        let mo2 = self.source.subscribe(mo);
        mo2.inner
    }
}

/// The shared-consumer handle is transparent to items: feeding
/// through it is feeding the wrapped observer directly.
pub proof fn lemma_feed_shared<A, N: Observer<A>>(s: N::S, items: Seq<A>)
    ensures
        feed::<A, SharedObserver<N>>(s, items) == feed::<A, N>(s, items),
    decreases items.len(),
{
    if items.len() > 0 {
        let st1 = step::<A, N>(s, items[0]);
        assert(step::<A, SharedObserver<N>>(s, items[0]) == st1);
        if !st1.1 {
            lemma_feed_shared::<A, N>(st1.0, items.drop_first());
        }
    }
}

} // verus!
