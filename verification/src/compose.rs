use vstd::prelude::*;
use core::marker::PhantomData;
use crate::map::{mapped, MapObservable};
use crate::merge::MergeAllObservable;
use crate::take::TakeObservable;

verus! {

/// Pipeline assembly: every producer can be wrapped by a combinator.
/// Each method is a pure value transformation that returns a new
/// producer owning the receiver; nothing runs until `subscribe`.
pub trait Compose: Sized {
    /// Transform every item with `f`.  The transform must be callable
    /// on every item of its type and determined by its contract.
    fn map<A, B, F: Fn(A) -> B>(self, f: F) -> (r: MapObservable<A, B, F, Self>)
        requires
            forall|x: A| #[trigger] call_requires(f, (x,)),
            forall|x: A, y1: B, y2: B|
                call_ensures(f, (x,), y1) && call_ensures(f, (x,), y2) ==> y1 == y2,
        ensures
            r.src() == self,
            forall|x: A, y: B| call_ensures(f, (x,), y) ==> (r.transform())(x) == y,
    ;

    /// Forward at most `count` items, then stop the source.
    fn take(self, count: usize) -> (r: TakeObservable<Self>)
        ensures
            r.count == count,
            r.source == self,
    ;

    /// Flatten this stream of streams: forward every item of every
    /// inner stream to one downstream observer.
    fn merge_all<U>(self) -> (r: MergeAllObservable<Self, U>)
        ensures
            r.source == self,
    ;

    /// Map every item to an inner stream with `f`, then flatten.
    fn flat_map<A, U, F: Fn(A) -> U>(self, f: F) -> (r: MergeAllObservable<
        MapObservable<A, U, F, Self>,
        U,
    >)
        requires
            forall|x: A| #[trigger] call_requires(f, (x,)),
            forall|x: A, y1: U, y2: U|
                call_ensures(f, (x,), y1) && call_ensures(f, (x,), y2) ==> y1 == y2,
        ensures
            r.source.src() == self,
            forall|x: A, y: U| call_ensures(f, (x,), y) ==> (r.source.transform())(x) == y,
    ;
}

impl<T: Sized> Compose for T {
    fn map<A, B, F: Fn(A) -> B>(self, f: F) -> (r: MapObservable<A, B, F, Self>) {
        mapped(self, f)
    }

    fn take(self, count: usize) -> (r: TakeObservable<Self>) {
        TakeObservable { count, source: self }
    }

    fn merge_all<U>(self) -> (r: MergeAllObservable<Self, U>) {
        MergeAllObservable { source: self, marker: PhantomData }
    }

    fn flat_map<A, U, F: Fn(A) -> U>(self, f: F) -> (r: MergeAllObservable<
        MapObservable<A, U, F, Self>,
        U,
    >) {
        MergeAllObservable { source: mapped(self, f), marker: PhantomData }
    }
}

} // verus!
