use vstd::prelude::*;
use crate::{Directive, Observable, Observer};
use crate::semantics::{feed, step};

verus! {

/// The decorating consumer of the map combinator: applies the stored
/// transform to each incoming item and forwards the image downstream;
/// directives and the completion signal pass through untouched.
///
/// `gm` is the mathematical meaning of the executable transform `f`;
/// the observer invariant ties the two together.
#[verifier::reject_recursive_types(A)]
#[verifier::reject_recursive_types(B)]
pub struct MapObserver<A, B, F, N> {
    /// The executable transform.
    pub f: F,
    /// The mathematical function the transform computes.
    pub gm: Ghost<spec_fn(A) -> B>,
    /// The wrapped downstream observer.
    pub inner: N,
}

impl<A, B, F: Fn(A) -> B, N: Observer<B>> Observer<A> for MapObserver<A, B, F, N> {
    type S = (spec_fn(A) -> B, N::S);

    open spec fn st(&self) -> (spec_fn(A) -> B, N::S) {
        (self.gm@, self.inner.st())
    }

    open spec fn inv(&self) -> bool {
        &&& self.inner.inv()
        &&& forall|x: A| #[trigger] call_requires(self.f, (x,))
        &&& forall|x: A, y: B| call_ensures(self.f, (x,), y) ==> y == (self.gm@)(x)
    }

    open spec fn on_next(s: (spec_fn(A) -> B, N::S), val: A) -> (
        (spec_fn(A) -> B, N::S),
        Directive,
    ) {
        let (is2, d) = N::on_next(s.1, (s.0)(val));
        ((s.0, is2), d)
    }

    open spec fn on_completed(s: (spec_fn(A) -> B, N::S)) -> (spec_fn(A) -> B, N::S) {
        (s.0, N::on_completed(s.1))
    }

    fn next(self, val: A) -> (r: (Self, Directive)) {
        let b = (self.f)(val);
        let (i2, d) = self.inner.next(b);
        (MapObserver { f: self.f, gm: self.gm, inner: i2 }, d)
    }

    fn completed(self) -> (r: Self) {
        MapObserver { f: self.f, gm: self.gm, inner: self.inner.completed() }
    }
}

/// A producer that emits the images of its source's items under a
/// caller-supplied transform, in order, completing when the source
/// completes.  The transform must be callable on every item and
/// determined by its contract; both facts are carried by the type
/// invariant, established at construction.
#[verifier::reject_recursive_types(A)]
#[verifier::reject_recursive_types(B)]
pub struct MapObservable<A, B, F: Fn(A) -> B, S> {
    /// The executable transform.
    f: F,
    /// The mathematical function the transform computes.
    gm: Ghost<spec_fn(A) -> B>,
    /// The wrapped source producer.
    source: S,
}

impl<A, B, F: Fn(A) -> B, S> MapObservable<A, B, F, S> {
    /// The transform is total over the item type and computes `gm`.
    #[verifier::type_invariant]
    closed spec fn transform_ok(self) -> bool {
        &&& forall|x: A| #[trigger] call_requires(self.f, (x,))
        &&& forall|x: A, y: B| call_ensures(self.f, (x,), y) ==> y == (self.gm@)(x)
    }

    /// The mathematical function this producer applies to each item.
    pub closed spec fn transform(&self) -> spec_fn(A) -> B {
        self.gm@
    }

    /// The wrapped source producer.
    pub closed spec fn src(&self) -> S {
        self.source
    }
}

/// Wrap `source` so that every emitted item is transformed by `f`.
/// The transform must be callable on every item of its type and its
/// contract must determine its result.
pub fn mapped<A, B, F: Fn(A) -> B, S>(source: S, f: F) -> (r: MapObservable<A, B, F, S>)
    requires
        forall|x: A| #[trigger] call_requires(f, (x,)),
        forall|x: A, y1: B, y2: B|
            call_ensures(f, (x,), y1) && call_ensures(f, (x,), y2) ==> y1 == y2,
    ensures
        r.src() == source,
        forall|x: A, y: B| call_ensures(f, (x,), y) ==> (r.transform())(x) == y,
{
    let ghost gm: spec_fn(A) -> B = |x: A| choose|y: B| call_ensures(f, (x,), y);
    proof {
        assert forall|x: A, y: B| call_ensures(f, (x,), y) implies y == gm(x) by {
            assert(call_ensures(f, (x,), choose|y2: B| call_ensures(f, (x,), y2)));
        }
    }
    MapObservable { f, gm: Ghost(gm), source }
}

impl<A, B, F, S, N> Observable<B, N> for MapObservable<A, B, F, S> where
    F: Fn(A) -> B + Copy,
    N: Observer<B>,
    S: Observable<A, MapObserver<A, B, F, N>>,
 {
    open spec fn run(&self, s: N::S) -> N::S {
        self.src().run((self.transform(), s)).1
    }

    fn subscribe(&self, o: N) -> (r: N) {
        proof {
            use_type_invariant(self);
        }
        let mo = MapObserver { f: self.f, gm: Ghost(self.gm@), inner: o };
        let mo2 = self.source.subscribe(mo);
        mo2.inner
    }
}

/// Law: feeding a map decoration leaves the wrapped observer exactly
/// as feeding it the image sequence directly would, item for item and
/// in order.
pub proof fn lemma_feed_map<A, B, N: Observer<B>, F: Fn(A) -> B>(
    g: spec_fn(A) -> B,
    s: N::S,
    items: Seq<A>,
)
    ensures
        feed::<A, MapObserver<A, B, F, N>>((g, s), items).0.1 == feed::<B, N>(
            s,
            items.map_values(g),
        ).0,
        feed::<A, MapObserver<A, B, F, N>>((g, s), items).1 == feed::<B, N>(
            s,
            items.map_values(g),
        ).1,
    decreases items.len(),
{
    if items.len() <= 0 {
        assert(items.map_values(g) =~= Seq::<B>::empty());
    } else {
        let m = items.map_values(g);
        assert(m.len() > 0);
        assert(m[0] == g(items[0]));
        let st1 = step::<B, N>(s, g(items[0]));
        if !st1.1 {
            lemma_feed_map::<A, B, N, F>(g, st1.0, items.drop_first());
            assert(m.drop_first() =~= items.drop_first().map_values(g));
        }
    }
}

} // verus!
