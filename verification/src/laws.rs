use vstd::prelude::*;
use crate::{Observable, Observer};
use crate::map::MapObserver;
use crate::merge::{lemma_feed_shared, SharedObserver, MergeAllObserver};
use crate::observers::{CollectObserver, StopObserver};
use crate::semantics::{deliver, feed, range_seq, step};
use crate::sources::RangeObservable;
use crate::take::{lemma_deliver_take, take_at_most, TakeObserver};

verus! {

/// A collector never stops and records every fed item in order.
pub proof fn lemma_feed_collect<A>(s: (Seq<A>, bool), items: Seq<A>)
    ensures
        feed::<A, CollectObserver<A>>(s, items) == (((s.0 + items, s.1), false)),
    decreases items.len(),
{
    if items.len() <= 0 {
        assert(s.0 + items =~= s.0);
        assert(s == (s.0, s.1));
    } else {
        let st1 = step::<A, CollectObserver<A>>(s, items[0]);
        lemma_feed_collect::<A>(st1.0, items.drop_first());
        assert(s.0.push(items[0]) + items.drop_first() =~= s.0 + items);
    }
}

/// Law: a full subscription of a numeric range delivers to a
/// collector exactly the sequence `start, start + 1, ..., end - 1`
/// (nothing when `start >= end`) and completes it exactly once.
pub proof fn lemma_range_delivers_all(p: RangeObservable, g: Seq<u64>, d: bool)
    ensures
        <RangeObservable as Observable<u64, CollectObserver<u64>>>::run(
            &p,
            (g, d),
        ) == ((g + range_seq(p.start, p.end), true)),
        p.start >= p.end ==> range_seq(p.start, p.end) =~= Seq::<u64>::empty(),
        p.start < p.end ==> range_seq(p.start, p.end).len() == p.end - p.start,
        forall|i: int|
            0 <= i < range_seq(p.start, p.end).len() ==> range_seq(p.start, p.end)[i] == p.start
                + i,
{
    lemma_feed_collect::<u64>((g, d), range_seq(p.start, p.end));
}

/// Law: a producer is reusable: its subscription outcome is a
/// function of the producer and the observer's starting state alone,
/// so equal starting states give equal, non-interfering outcomes.
pub proof fn lemma_resubscribe<A, N: Observer<A>, P: Observable<A, N>>(
    p: &P,
    s1: N::S,
    s2: N::S,
)
    requires
        s1 == s2,
    ensures
        p.run(s1) == p.run(s2),
{
}

/// Law: an observer that answers `Stop` on the first item receives
/// that item and nothing further, and is completed exactly once.
pub proof fn lemma_stop_on_first<A>(g: Seq<A>, d: bool, items: Seq<A>)
    requires
        items.len() > 0,
    ensures
        deliver::<A, StopObserver<A>>((g, d), items) == ((g.push(items[0]), true)),
{
    assert(step::<A, StopObserver<A>>((g, d), items[0]) == (((g.push(items[0]), d), true)));
}

/// Law: collecting behind a map decoration records exactly the image
/// of the fed items under the transform, element-wise and in order,
/// with one completion.
pub proof fn lemma_map_collects<A, B, F: Fn(A) -> B>(
    g: spec_fn(A) -> B,
    got: Seq<B>,
    d: bool,
    items: Seq<A>,
)
    ensures
        deliver::<A, MapObserver<A, B, F, CollectObserver<B>>>(
            (g, (got, d)),
            items,
        ).1 == ((got + items.map_values(g), true)),
{
    crate::map::lemma_feed_map::<A, B, CollectObserver<B>, F>(g, (got, d), items);
    lemma_feed_collect::<B>((got, d), items.map_values(g));
}

/// Law: a take decoration with budget `n` over a collector records
/// exactly the first `n` fed items (all of them when fewer are fed),
/// with one completion; nothing past the budget is recorded.
pub proof fn lemma_take_collects<A>(n: nat, got: Seq<A>, d: bool, items: Seq<A>)
    ensures
        deliver::<A, TakeObserver<CollectObserver<A>>>((n, (got, d)), items).1 == ((
            got + take_at_most(items, n),
            true,
        )),
{
    lemma_deliver_take::<A, CollectObserver<A>>((got, d), n, items);
    lemma_feed_collect::<A>((got, d), take_at_most(items, n));
}

/// The items of a sequence of range producers, in stream order.
pub open spec fn ranges_flat(streams: Seq<RangeObservable>) -> Seq<u64>
    decreases streams.len(),
{
    if streams.len() <= 0 {
        Seq::empty()
    } else {
        range_seq(streams[0].start, streams[0].end) + ranges_flat(streams.drop_first())
    }
}

/// Law: a stream of `n` range streams, each emitting `m` items,
/// carries exactly `n * m` items in all — so a merge of them delivers
/// exactly that many complete items downstream, none torn, lost or
/// duplicated.
pub proof fn lemma_ranges_flat_len(streams: Seq<RangeObservable>, m: nat)
    requires
        forall|i: int|
            0 <= i < streams.len() ==> #[trigger] streams[i].start <= streams[i].end
                && streams[i].end - streams[i].start == m,
    ensures
        ranges_flat(streams).len() == streams.len() * m,
    decreases streams.len(),
{
    if streams.len() <= 0 {
        assert(streams.len() * m == 0) by (nonlinear_arith)
            requires streams.len() == 0;
    } else {
        assert(range_seq(streams[0].start, streams[0].end).len() == m);
        lemma_ranges_flat_len(streams.drop_first(), m);
        assert(m + (streams.len() - 1) * m == streams.len() * m) by (nonlinear_arith)
            requires streams.len() >= 1;
    }
}

/// Feeding a merge decoration a sequence of range streams delivers
/// every inner item, whole and in stream order, to the collector, and
/// never stops the outer stream.
pub proof fn lemma_merge_feeds_all(g: Seq<u64>, d: bool, streams: Seq<RangeObservable>)
    ensures
        feed::<RangeObservable, MergeAllObserver<u64, RangeObservable, CollectObserver<u64>>>(
            (g, d),
            streams,
        ) == (((g + ranges_flat(streams), d), false)),
    decreases streams.len(),
{
    if streams.len() <= 0 {
        assert(g + ranges_flat(streams) =~= g);
    } else {
        let r0 = streams[0];
        let rs = range_seq(r0.start, r0.end);
        lemma_feed_shared::<u64, CollectObserver<u64>>((g, d), rs);
        lemma_feed_collect::<u64>((g, d), rs);
        assert(<RangeObservable as Observable<
            u64,
            SharedObserver<CollectObserver<u64>>,
        >>::run(&r0, (g, d)) == ((g + rs, d)));
        lemma_merge_feeds_all(g + rs, d, streams.drop_first());
        assert((g + rs) + ranges_flat(streams.drop_first()) =~= g + ranges_flat(streams));
    }
}

/// Law: merging a stream of range streams into one collector delivers
/// exactly the concatenation of the inner sequences — every item
/// arrives whole, none is lost or duplicated — with exactly one
/// completion, fired when the outer stream finishes.
pub proof fn lemma_merge_collects(g: Seq<u64>, d: bool, streams: Seq<RangeObservable>)
    ensures
        deliver::<RangeObservable, MergeAllObserver<u64, RangeObservable, CollectObserver<u64>>>(
            (g, d),
            streams,
        ) == ((g + ranges_flat(streams), true)),
{
    lemma_merge_feeds_all(g, d, streams);
}

} // verus!
