use vstd::prelude::*;
use crate::{Directive, Observable, Observer};
use crate::semantics::{deliver, feed, step};

verus! {

/// The decorating consumer of the take combinator: forwards at most
/// `remaining` items to the wrapped observer, then answers `Stop`
/// without forwarding.  A `Stop` from the wrapped observer empties the
/// budget at once.  The completion signal is always forwarded.
pub struct TakeObserver<N> {
    /// How many more items may be forwarded downstream.
    pub remaining: usize,
    /// The wrapped downstream observer.
    pub inner: N,
}

impl<A, N: Observer<A>> Observer<A> for TakeObserver<N> {
    type S = (nat, N::S);

    open spec fn st(&self) -> (nat, N::S) {
        (self.remaining as nat, self.inner.st())
    }

    open spec fn inv(&self) -> bool {
        self.inner.inv()
    }

    open spec fn on_next(s: (nat, N::S), val: A) -> ((nat, N::S), Directive) {
        if s.0 > 0 {
            let (is2, d) = N::on_next(s.1, val);
            let rem2: nat = match d {
                Directive::Stop => 0nat,
                Directive::Continue => (s.0 - 1) as nat,
            };
            ((rem2, is2), if rem2 > 0 {
                Directive::Continue
            } else {
                Directive::Stop
            })
        } else {
            ((0nat, s.1), Directive::Stop)
        }
    }

    open spec fn on_completed(s: (nat, N::S)) -> (nat, N::S) {
        (s.0, N::on_completed(s.1))
    }

    fn next(self, val: A) -> (r: (Self, Directive)) {
        if self.remaining > 0 {
            let (i2, d) = self.inner.next(val);
            let rem2: usize = match d {
                Directive::Stop => 0,
                Directive::Continue => self.remaining - 1,
            };
            (TakeObserver { remaining: rem2, inner: i2 }, if rem2 > 0 {
                Directive::Continue
            } else {
                Directive::Stop
            })
        } else {
            (TakeObserver { remaining: 0, inner: self.inner }, Directive::Stop)
        }
    }

    fn completed(self) -> (r: Self) {
        TakeObserver { remaining: self.remaining, inner: self.inner.completed() }
    }
}

/// A producer that forwards at most `count` items of its source and
/// then completes, asking the source to stop once the budget is spent.
pub struct TakeObservable<S> {
    /// The item budget.
    pub count: usize,
    /// The wrapped source producer.
    pub source: S,
}

impl<A, S, N> Observable<A, N> for TakeObservable<S> where
    N: Observer<A>,
    S: Observable<A, TakeObserver<N>>,
 {
    open spec fn run(&self, s: N::S) -> N::S {
        self.source.run((self.count as nat, s)).1
    }

    fn subscribe(&self, o: N) -> (r: N) {
        let t = TakeObserver { remaining: self.count, inner: o };
        let t2 = self.source.subscribe(t);
        t2.inner
    }
}

/// The prefix of `items` of length `n`, or all of `items` when fewer
/// are present.
pub open spec fn take_at_most<A>(items: Seq<A>, n: nat) -> Seq<A> {
    if n <= items.len() {
        items.take(n as int)
    } else {
        items
    }
}

/// Law: feeding a take decoration with budget `n` leaves the wrapped
/// observer exactly as feeding it the first `n` items directly would;
/// nothing past the budget reaches it.
pub proof fn lemma_feed_take<A, N: Observer<A>>(s: N::S, n: nat, items: Seq<A>)
    ensures
        feed::<A, TakeObserver<N>>((n, s), items).0.1 == feed::<A, N>(
            s,
            take_at_most(items, n),
        ).0,
    decreases items.len(),
{
    if items.len() <= 0 {
        assert(take_at_most(items, n) =~= items);
    } else if n == 0 {
        assert(take_at_most(items, 0) =~= Seq::<A>::empty());
        assert(feed::<A, N>(s, Seq::<A>::empty()) == (s, false));
        assert(step::<A, TakeObserver<N>>((0nat, s), items[0]).1);
    } else {
        let tk = take_at_most(items, n);
        assert(tk.len() > 0);
        assert(tk[0] == items[0]);
        let (is2, d) = N::on_next(s, items[0]);
        match d {
            Directive::Stop => {
                assert(feed::<A, N>(s, tk) == (is2, true));
                assert(step::<A, TakeObserver<N>>((n, s), items[0]) == (
                    (0nat, is2),
                    true,
                ));
            },
            Directive::Continue => {
                if n == 1 {
                    assert(step::<A, TakeObserver<N>>((1nat, s), items[0]) == (
                        (0nat, is2),
                        true,
                    ));
                    assert(tk =~= seq![items[0]]);
                    assert(tk.drop_first() =~= Seq::<A>::empty());
                    assert(feed::<A, N>(is2, Seq::<A>::empty()) == (is2, false));
                } else {
                    assert(step::<A, TakeObserver<N>>((n, s), items[0]) == (
                        ((n - 1) as nat, is2),
                        false,
                    ));
                    lemma_feed_take::<A, N>(is2, (n - 1) as nat, items.drop_first());
                    assert(tk.drop_first() =~= take_at_most(items.drop_first(), (n - 1) as nat));
                }
            },
        }
    }
}

/// Law: a full take subscription leaves the wrapped observer as a
/// direct subscription on the first `n` items would, completed
/// exactly once.
pub proof fn lemma_deliver_take<A, N: Observer<A>>(s: N::S, n: nat, items: Seq<A>)
    ensures
        deliver::<A, TakeObserver<N>>((n, s), items).1 == deliver::<A, N>(
            s,
            take_at_most(items, n),
        ),
{
    lemma_feed_take::<A, N>(s, n, items);
}

} // verus!
