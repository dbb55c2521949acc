use vstd::prelude::*;
use crate::{Directive, Observer};

verus! {

/// One delivery step: the observer state after receiving `x`, paired
/// with `true` exactly when the observer answered `Stop`.
pub open spec fn step<A, N: Observer<A>>(s: N::S, x: A) -> (N::S, bool) {
    match N::on_next(s, x) {
        (s2, Directive::Stop) => (s2, true),
        (s2, Directive::Continue) => (s2, false),
    }
}

/// Push the items of `items` into an observer state in order,
/// honouring the stop protocol: delivery ends at the first `Stop`
/// answer.  Returns the state reached and whether a `Stop` was
/// answered.  No completion signal is sent.
pub open spec fn feed<A, N: Observer<A>>(s: N::S, items: Seq<A>) -> (N::S, bool)
    decreases items.len(),
{
    if items.len() <= 0 {
        (s, false)
    } else {
        let st1 = step::<A, N>(s, items[0]);
        if st1.1 {
            (st1.0, true)
        } else {
            feed::<A, N>(st1.0, items.drop_first())
        }
    }
}

/// A full subscription on the item sequence `items`: deliver items
/// until exhaustion or an early stop, then signal completion exactly
/// once.  Every leaf producer's behaviour is an instance of this
/// shape, and every combinator's is a composition of such instances.
pub open spec fn deliver<A, N: Observer<A>>(s: N::S, items: Seq<A>) -> N::S {
    N::on_completed(feed::<A, N>(s, items).0)
}

/// Feeding `items.push(x)` is feeding `items` and, unless that already
/// stopped, one more step on `x`.
pub proof fn lemma_feed_push<A, N: Observer<A>>(s: N::S, items: Seq<A>, x: A)
    ensures
        feed::<A, N>(s, items).1 ==> feed::<A, N>(s, items.push(x)) == feed::<A, N>(s, items),
        !feed::<A, N>(s, items).1 ==> feed::<A, N>(s, items.push(x)) == step::<A, N>(
            feed::<A, N>(s, items).0,
            x,
        ),
    decreases items.len(),
{
    if items.len() <= 0 {
        assert(items =~= Seq::<A>::empty());
        assert(items.push(x) =~= seq![x]);
        let st1 = step::<A, N>(s, x);
        assert(st1 == (st1.0, st1.1));
        assert(feed::<A, N>(s, items) == (s, false));
        assert(seq![x][0] == x);
        assert(seq![x].drop_first() =~= Seq::<A>::empty());
        assert(feed::<A, N>(st1.0, Seq::<A>::empty()) == (st1.0, false));
    } else {
        assert(items.push(x)[0] == items[0]);
        assert(items.push(x).drop_first() =~= items.drop_first().push(x));
        let st1 = step::<A, N>(s, items[0]);
        if !st1.1 {
            lemma_feed_push::<A, N>(st1.0, items.drop_first(), x);
        }
    }
}

/// Feeding `a + b` is feeding `a` and, unless that already stopped,
/// feeding `b` from the state `a` left behind.
pub proof fn lemma_feed_concat<A, N: Observer<A>>(s: N::S, a: Seq<A>, b: Seq<A>)
    ensures
        feed::<A, N>(s, a).1 ==> feed::<A, N>(s, a + b) == feed::<A, N>(s, a),
        !feed::<A, N>(s, a).1 ==> feed::<A, N>(s, a + b) == feed::<A, N>(
            feed::<A, N>(s, a).0,
            b,
        ),
    decreases a.len(),
{
    if a.len() <= 0 {
        assert(a + b =~= b);
        assert(feed::<A, N>(s, a) == (s, false));
    } else {
        assert((a + b)[0] == a[0]);
        assert((a + b).drop_first() =~= a.drop_first() + b);
        assert((a + b).len() > 0);
        let st1 = step::<A, N>(s, a[0]);
        if !st1.1 {
            lemma_feed_concat::<A, N>(st1.0, a.drop_first(), b);
        }
    }
}

/// The numeric sequence `start, start + 1, ..., end - 1`; empty when
/// `start >= end`.
pub open spec fn range_seq(start: u64, end: u64) -> Seq<u64> {
    if start <= end {
        Seq::new((end - start) as nat, |i: int| (start + i) as u64)
    } else {
        Seq::empty()
    }
}

/// Extending the upper bound of a numeric range by one appends one item.
pub proof fn lemma_range_seq_push(start: u64, cur: u64)
    requires
        start <= cur,
        cur < u64::MAX,
    ensures
        range_seq(start, (cur + 1) as u64) == range_seq(start, cur).push(cur),
{
    assert(range_seq(start, (cur + 1) as u64) =~= range_seq(start, cur).push(cur));
}

} // verus!
