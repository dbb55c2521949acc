//! A minimal push-based reactive-stream library: composable producers
//! ("observables") push sequences of items into consumers ("observers")
//! through a synchronous subscription protocol, with combinators to
//! transform items, limit their count, and flatten streams of streams.
//!
//! Every consumer is a deterministic state machine and every producer's
//! subscription is pinned, by contract, to a mathematical run of that
//! machine, so the protocol invariants — exactly one completion per
//! subscription, cooperative early stop, reusable producers — are
//! theorems about the contracts rather than conventions.

use vstd::prelude::*;

pub mod compose;
pub mod laws;
pub mod map;
pub mod merge;
pub mod observers;
pub mod semantics;
pub mod sources;
pub mod take;

verus! {

/// The per-item control signal an observer returns from `next`:
/// `Continue` asks the producer for more items, `Stop` ends the
/// subscription early.
pub enum Directive {
    Stop,
    Continue,
}

/// A consumer of a pushed sequence of items.
///
/// Each implementation is a deterministic state machine over an
/// abstract state `S`: `on_next` and `on_completed` are its
/// mathematical transition functions, and the executable `next` and
/// `completed` are proved to follow them exactly.  `st` abstracts a
/// concrete observer value to its state.
pub trait Observer<A>: Sized {
    /// The abstract state of this observer.
    type S;

    /// The abstract state a concrete observer value stands for.
    spec fn st(&self) -> Self::S;

    /// Well-formedness of the observer value, preserved by every step.
    spec fn inv(&self) -> bool;

    /// The state and directive that receiving `val` produces.
    spec fn on_next(s: Self::S, val: A) -> (Self::S, Directive);

    /// The state that the terminal completion signal produces.
    spec fn on_completed(s: Self::S) -> Self::S;

    /// Receive one item; returns the successor observer and a directive.
    fn next(self, val: A) -> (r: (Self, Directive))
        requires
            self.inv(),
        ensures
            r.0.st() == Self::on_next(self.st(), val).0,
            r.1 == Self::on_next(self.st(), val).1,
            r.0.inv(),
    ;

    /// Receive the terminal completion signal.
    fn completed(self) -> (r: Self)
        requires
            self.inv(),
        ensures
            r.st() == Self::on_completed(self.st()),
            r.inv(),
    ;
}

/// A producer of a pushed sequence of items, driven by `subscribe`.
///
/// `run` is the mathematical meaning of one subscription: the abstract
/// observer state that a full synchronous subscription leaves behind.
/// A producer is immutable and may be subscribed any number of times;
/// each subscription of equal observers leaves equal states.
pub trait Observable<A, N: Observer<A>> {
    /// The observer state one subscription leaves behind.
    spec fn run(&self, s: N::S) -> N::S;

    /// Push this producer's items into `o`, then signal completion;
    /// returns the final observer.
    fn subscribe(&self, o: N) -> (r: N)
        requires
            o.inv(),
        ensures
            r.st() == self.run(o.st()),
            r.inv(),
    ;
}

} // verus!
