use vstd::prelude::*;
use crate::{Directive, Observable, Observer};
use crate::semantics::{deliver, feed, lemma_feed_concat, lemma_feed_push, lemma_range_seq_push,
    range_seq, step};

verus! {

/// A producer that emits the numeric sequence `start, start + 1, ...,
/// end - 1` and then completes; it emits nothing when `start >= end`.
/// A `Stop` answer from the observer ends the emission early; the
/// completion signal is still sent exactly once.
pub struct RangeObservable {
    /// The first value emitted (when below `end`).
    pub start: u64,
    /// The exclusive upper bound of the emission.
    pub end: u64,
}

impl<N: Observer<u64>> Observable<u64, N> for RangeObservable {
    open spec fn run(&self, s: N::S) -> N::S {
        deliver::<u64, N>(s, range_seq(self.start, self.end))
    }

    fn subscribe(&self, o: N) -> (r: N) {
        let ghost items = range_seq(self.start, self.end);
        let ghost s0 = o.st();
        let mut obs = o;
        let mut cur: u64 = self.start;
        let mut stopped = false;
        while cur < self.end && !stopped
            invariant
                self.start <= cur,
                self.start < self.end ==> cur <= self.end,
                self.start >= self.end ==> cur == self.start,
                obs.inv(),
                items == range_seq(self.start, self.end),
                !stopped ==> obs.st() == feed::<u64, N>(s0, range_seq(self.start, cur)).0,
                !stopped ==> !feed::<u64, N>(s0, range_seq(self.start, cur)).1,
                stopped ==> obs.st() == feed::<u64, N>(s0, items).0 && feed::<u64, N>(
                    s0,
                    items,
                ).1,
            decreases self.end - cur, (if stopped { 0int } else { 1int }),
        {
            let ghost pre = range_seq(self.start, cur);
            let (o2, d) = obs.next(cur);
            obs = o2;
            match d {
                Directive::Stop => {
                    proof {
                        let suf = range_seq(cur, self.end);
                        assert(items =~= pre + suf);
                        lemma_feed_concat::<u64, N>(s0, pre, suf);
                        assert(suf.len() > 0);
                        assert(suf[0] == cur);
                        let fp = feed::<u64, N>(s0, pre).0;
                        assert(step::<u64, N>(fp, cur).1);
                        assert(feed::<u64, N>(fp, suf) == (obs.st(), true));
                    }
                    stopped = true;
                },
                Directive::Continue => {
                    proof {
                        lemma_range_seq_push(self.start, cur);
                        lemma_feed_push::<u64, N>(s0, pre, cur);
                    }
                    cur = cur + 1;
                },
            }
        }
        proof {
            if !stopped {
                assert(range_seq(self.start, cur) =~= items);
            }
        }
        obs.completed()
    }
}

/// Build a numeric range producer over `[start, end)`.
pub fn range(start: u64, end: u64) -> (r: RangeObservable)
    ensures
        r.start == start,
        r.end == end,
{
    RangeObservable { start, end }
}

/// A producer that emits exactly one item, a copy of its stored
/// value, and then completes.  The observer's directive is ignored:
/// there is nothing left to stop.
pub struct ValueObservable<A> {
    /// The one item emitted by every subscription.
    pub value: A,
}

impl<A: Copy, N: Observer<A>> Observable<A, N> for ValueObservable<A> {
    open spec fn run(&self, s: N::S) -> N::S {
        deliver::<A, N>(s, seq![self.value])
    }

    fn subscribe(&self, o: N) -> (r: N) {
        let (o2, _d) = o.next(self.value);
        proof {
            assert(seq![self.value][0] == self.value);
            assert(seq![self.value].drop_first() =~= Seq::<A>::empty());
            let st1 = step::<A, N>(o.st(), self.value);
            assert(feed::<A, N>(st1.0, Seq::<A>::empty()) == (st1.0, false));
            assert(feed::<A, N>(o.st(), seq![self.value]).0 == st1.0);
        }
        o2.completed()
    }
}

/// Build a single-item producer.
pub fn value<A>(item: A) -> (r: ValueObservable<A>)
    ensures
        r.value == item,
{
    ValueObservable { value: item }
}

} // verus!
