//! Fork-join: two independent computations that may run at the same time.

use vstd::prelude::*;

verus! {

/// `rayon::join` runs both closures, possibly on two threads, and returns
/// the pair of their results: each closure must be callable, and each half
/// of the pair is a result that its closure can give.
pub assume_specification<A, B, RA, RB>[ rayon::join::<A, B, RA, RB> ](oper_a: A, oper_b: B) -> (r: (
    RA,
    RB,
))
    where
        A: FnOnce() -> RA + Send,
        B: FnOnce() -> RB + Send,
        RA: Send,
        RB: Send,
    requires
        oper_a.requires(()),
        oper_b.requires(()),
    ensures
        oper_a.ensures((), r.0),
        oper_b.ensures((), r.1),
;

} // verus!
