use vstd::prelude::*;
use core::marker::PhantomData;
use crate::{Directive, Observer};

verus! {

/// A terminal consumer that records every received item in order and
/// marks completion with a flag.  It never asks for an early stop.
pub struct CollectObserver<A> {
    /// The items received so far, in delivery order.
    pub got: Vec<A>,
    /// Whether the completion signal has been received.
    pub done: bool,
}

impl<A> Observer<A> for CollectObserver<A> {
    type S = (Seq<A>, bool);

    open spec fn st(&self) -> (Seq<A>, bool) {
        (self.got@, self.done)
    }

    open spec fn inv(&self) -> bool {
        true
    }

    open spec fn on_next(s: (Seq<A>, bool), val: A) -> ((Seq<A>, bool), Directive) {
        ((s.0.push(val), s.1), Directive::Continue)
    }

    open spec fn on_completed(s: (Seq<A>, bool)) -> (Seq<A>, bool) {
        (s.0, true)
    }

    fn next(self, val: A) -> (r: (Self, Directive)) {
        let mut got = self.got;
        got.push(val);
        (CollectObserver { got, done: self.done }, Directive::Continue)
    }

    fn completed(self) -> (r: Self) {
        CollectObserver { got: self.got, done: true }
    }
}

/// A fresh collector: no items yet, not completed.
pub fn collector<A>() -> (r: CollectObserver<A>)
    ensures
        r.st() == (Seq::<A>::empty(), false),
{
    CollectObserver { got: Vec::new(), done: false }
}

/// A terminal consumer that records the item it is given and then
/// asks the producer to stop: it answers `Stop` to every `next` call.
pub struct StopObserver<A> {
    /// The items received so far, in delivery order.
    pub got: Vec<A>,
    /// Whether the completion signal has been received.
    pub done: bool,
}

impl<A> Observer<A> for StopObserver<A> {
    type S = (Seq<A>, bool);

    open spec fn st(&self) -> (Seq<A>, bool) {
        (self.got@, self.done)
    }

    open spec fn inv(&self) -> bool {
        true
    }

    open spec fn on_next(s: (Seq<A>, bool), val: A) -> ((Seq<A>, bool), Directive) {
        ((s.0.push(val), s.1), Directive::Stop)
    }

    open spec fn on_completed(s: (Seq<A>, bool)) -> (Seq<A>, bool) {
        (s.0, true)
    }

    fn next(self, val: A) -> (r: (Self, Directive)) {
        let mut got = self.got;
        got.push(val);
        (StopObserver { got, done: self.done }, Directive::Stop)
    }

    fn completed(self) -> (r: Self) {
        StopObserver { got: self.got, done: true }
    }
}

/// A fresh stopping observer: no items yet, not completed.
pub fn stopper<A>() -> (r: StopObserver<A>)
    ensures
        r.st() == (Seq::<A>::empty(), false),
{
    StopObserver { got: Vec::new(), done: false }
}

/// An ad hoc terminal consumer built from a single-item callback: each
/// item is handed to the callback and answered `Continue` (the
/// terminal stage cannot stop a pipeline); completion is marked by a
/// flag.  The callback must be callable on every item of its type.
#[verifier::reject_recursive_types(A)]
pub struct AnonymousObserver<A, F> {
    /// The per-item callback.
    pub callback: F,
    /// Whether the completion signal has been received.
    pub done: bool,
    /// Carries the item type.
    pub marker: PhantomData<A>,
}

impl<A, F: Fn(A)> Observer<A> for AnonymousObserver<A, F> {
    type S = bool;

    open spec fn st(&self) -> bool {
        self.done
    }

    open spec fn inv(&self) -> bool {
        forall|x: A| #[trigger] call_requires(self.callback, (x,))
    }

    open spec fn on_next(s: bool, val: A) -> (bool, Directive) {
        (s, Directive::Continue)
    }

    open spec fn on_completed(s: bool) -> bool {
        true
    }

    fn next(self, val: A) -> (r: (Self, Directive))
        ensures
            call_ensures(self.callback, (val,), ()),
    {
        (self.callback)(val);
        (self, Directive::Continue)
    }

    fn completed(self) -> (r: Self) {
        AnonymousObserver { callback: self.callback, done: true, marker: PhantomData }
    }
}

/// Build an ad hoc terminal consumer around `callback`.
pub fn anonymous<A, F: Fn(A)>(callback: F) -> (r: AnonymousObserver<A, F>)
    requires
        forall|x: A| #[trigger] call_requires(callback, (x,)),
    ensures
        r.st() == false,
        r.inv(),
{
    AnonymousObserver { callback, done: false, marker: PhantomData }
}

} // verus!
