//! Distance queries, direct and through the cache.
//!
//! Both take the solver as a function from a canonical pair of valid
//! positions to a result, or to nothing where it cannot solve the pair. The
//! solver is only ever asked for a pair in canonical order, so the bearings
//! it returns always read from the low end to the high end.

use vstd::prelude::*;
use crate::cache::{begins, kept, outcome, DistanceCache, Entries, Step};
use crate::canonical::Query;
use crate::distance_data::DistanceData;
use crate::error::{DistanceError, DistanceResult};
use crate::position::{IntoPosition, Position};

verus! {

/// The solver can be asked for every canonical pair of valid positions.
pub open spec fn solves_canonical_pairs<F: Fn(Position, Position) -> Option<DistanceData>>(
    solve: F,
) -> bool {
    forall|low: Position, high: Position|
        low.is_valid() && high.is_valid() && !low.follows(high) ==> #[trigger] call_requires(
            solve,
            (low, high),
        )
}

/// Whether `r` is a result of the direct query `(a, b)` with the solver
/// `solve`: a refusal of invalid positions without asking the solver, else
/// what some answer of the solver for the canonical pair comes to.
pub open spec fn computes<F: Fn(Position, Position) -> Option<DistanceData>>(
    a: Position,
    b: Position,
    solve: F,
    r: DistanceResult,
) -> bool {
    let q = Query::of(a, b);
    if a.is_valid() && b.is_valid() {
        exists|solved: Option<DistanceData>| #[trigger]
            call_ensures(solve, (q.low, q.high), solved) && r == outcome(a, b, solved)
    } else {
        r == DistanceResult::Err(DistanceError::InvalidInput)
    }
}

/// Whether `r` and `after` are the result and the entries left by the cached
/// query `(a, b)` against the entries `before` with the solver `solve`.
///
/// Either the query ends in its first half, on invalid positions or on an
/// entry, and the entries stay as they were; or the solver is asked for the
/// canonical pair and its answer decides both.
pub open spec fn resolves<F: Fn(Position, Position) -> Option<DistanceData>>(
    before: Entries,
    after: Entries,
    a: Position,
    b: Position,
    solve: F,
    r: DistanceResult,
) -> bool {
    let q = Query::of(a, b);
    ||| {
        &&& after == before
        &&& match r {
            Ok(data) => begins(before, a, b, Step::Hit(data)),
            Err(error) => begins(before, a, b, Step::Fail(error)),
        }
    }
    ||| {
        &&& a.is_valid() && b.is_valid()
        &&& exists|solved: Option<DistanceData>| #[trigger]
            call_ensures(solve, (q.low, q.high), solved) && r == outcome(a, b, solved) && after
                == kept(before, a, b, solved)
    }
}

/// The distance between two points and the bearings at both ends, straight
/// from the solver.
///
/// The pair is put into canonical order, solved in that order, and the
/// bearings are returned in the order of the arguments.
pub fn uncached_distance<A, B, F>(a: &A, b: &B, solve: F) -> (r: DistanceResult) where
    A: IntoPosition,
    B: IntoPosition,
    F: Fn(Position, Position) -> Option<DistanceData>,

    requires
        solves_canonical_pairs(solve),
    ensures
        computes(a.position(), b.position(), solve, r),
{
    let a_pos = a.into_position();
    let b_pos = b.into_position();
    if !(a_pos.valid() && b_pos.valid()) {
        return Err(DistanceError::InvalidInput);
    }
    let q = Query::new(a_pos, b_pos);
    match solve(q.low, q.high) {
        Some(raw) => Ok(q.orient(raw)),
        None => Err(DistanceError::SolverFailure),
    }
}

/// The distance between two points and the bearings at both ends, from the
/// cache where it has the pair and from the solver where it has not.
///
/// What the solver answers is recorded under the canonical pair, in the
/// solver's orientation; the caller gets the bearings in the order of the
/// arguments.
pub fn distance<A, B, F>(
    cache: &mut DistanceCache,
    a: &A,
    b: &B,
    solve: F,
) -> (r: DistanceResult) where
    A: IntoPosition,
    B: IntoPosition,
    F: Fn(Position, Position) -> Option<DistanceData>,

    requires
        solves_canonical_pairs(solve),
    ensures
        resolves(old(cache)@, final(cache)@, a.position(), b.position(), solve, r),
        final(cache).configuration() == old(cache).configuration(),
{
    let a_pos = a.into_position();
    let b_pos = b.into_position();
    match cache.begin(a_pos, b_pos) {
        Step::Hit(data) => Ok(data),
        Step::Fail(error) => Err(error),
        Step::Solve(q) => {
            let solved = solve(q.low, q.high);
            cache.complete(a_pos, b_pos, solved)
        },
    }
}

} // verus!
