//! What holds of every query, proved from the contracts of the library.
//!
//! The laws about queries speak of a solver that is a function: asked twice
//! for the same pair it answers the same. `answers_as` ties the executable
//! solver to such a function, and `faithful` says that a cache holds only
//! answers of that function, which is what a cache filled by queries with
//! one solver holds.

use vstd::prelude::*;
use crate::cache::{canonical, outcome, Entries};
use crate::canonical::Query;
use crate::distance_data::DistanceData;
use crate::error::DistanceResult;
use crate::position::Position;
use crate::resolve::{computes, resolves};

verus! {

/// The solver answers as the function `f` does.
pub open spec fn answers_as<F: Fn(Position, Position) -> Option<DistanceData>>(
    solve: F,
    f: spec_fn(Position, Position) -> Option<DistanceData>,
) -> bool {
    forall|low: Position, high: Position, solved: Option<DistanceData>| #[trigger]
        call_ensures(solve, (low, high), solved) ==> solved == f(low, high)
}

/// Every entry is the answer of `f` for its pair.
pub open spec fn faithful(
    entries: Entries,
    f: spec_fn(Position, Position) -> Option<DistanceData>,
) -> bool {
    forall|pair: (Position, Position)| #[trigger]
        entries.contains_key(pair) ==> f(pair.0, pair.1) == Some(entries[pair])
}

/// Of two positions exactly one follows the other, unless they are the same
/// position, and then neither does.
pub proof fn lemma_order_total(a: Position, b: Position)
    ensures
        a == b ==> !a.follows(b) && !b.follows(a),
        a != b ==> (a.follows(b) <==> !b.follows(a)),
{
}

/// The order is transitive.
pub proof fn lemma_order_transitive(a: Position, b: Position, c: Position)
    requires
        a.follows(b),
        b.follows(c),
    ensures
        a.follows(c),
{
}

/// Both orders of a pair have the same canonical pair, in which the low end
/// does not follow the high end. The two requests are flipped against each
/// other unless the ends are the same position, and then neither is flipped.
pub proof fn lemma_canonical_pair(a: Position, b: Position)
    ensures
        Query::of(a, b).pair() == Query::of(b, a).pair(),
        !Query::of(a, b).low.follows(Query::of(a, b).high),
        a != b ==> Query::of(a, b).flipped != Query::of(b, a).flipped,
        a == b ==> Query::of(a, b) == (Query { low: a, high: a, flipped: false }),
{
}

/// Swapping the bearings twice gives back the result, and never touches the
/// distance.
pub proof fn lemma_swap_involution(data: DistanceData, flipped: bool)
    ensures
        data.oriented(flipped).oriented(flipped) == data,
        data.swapped().swapped() == data,
        data.oriented(flipped).distance == data.distance,
{
}

/// A query leaves a cache of canonical keys a cache of canonical keys, and
/// takes nothing out of it.
pub proof fn lemma_query_keeps_keys_canonical<F: Fn(Position, Position) -> Option<DistanceData>>(
    before: Entries,
    after: Entries,
    a: Position,
    b: Position,
    solve: F,
    r: DistanceResult,
)
    requires
        canonical(before),
        resolves(before, after, a, b, solve, r),
    ensures
        canonical(after),
        before.dom().subset_of(after.dom()),
        r is Ok ==> after.contains_key(Query::of(a, b).pair()),
{
}

/// Symmetry. A query for `(a, b)` and a query for `(b, a)`, each against a
/// cache faithful to the solver, fail alike or agree on the distance. Their
/// bearings mirror each other if the two positions differ, or if the solver
/// gives a position the same bearing forward and backward to itself.
pub proof fn lemma_symmetry<F: Fn(Position, Position) -> Option<DistanceData>>(
    before_ab: Entries,
    after_ab: Entries,
    before_ba: Entries,
    after_ba: Entries,
    a: Position,
    b: Position,
    solve: F,
    f: spec_fn(Position, Position) -> Option<DistanceData>,
    ab: DistanceResult,
    ba: DistanceResult,
)
    requires
        answers_as(solve, f),
        faithful(before_ab, f),
        faithful(before_ba, f),
        resolves(before_ab, after_ab, a, b, solve, ab),
        resolves(before_ba, after_ba, b, a, solve, ba),
    ensures
        ab is Err ==> ba == ab,
        ba is Err ==> ab == ba,
        ab is Ok && ba is Ok ==> {
            let ab = ab->Ok_0;
            let ba = ba->Ok_0;
            &&& ab.distance == ba.distance
            &&& a != b || ab.forward_azimuth == ab.backward_azimuth ==> {
                &&& ab.forward_azimuth == ba.backward_azimuth
                &&& ab.backward_azimuth == ba.forward_azimuth
            }
        },
{
    lemma_cache_transparent(before_ab, after_ab, a, b, solve, f, ab);
    lemma_cache_transparent(before_ba, after_ba, b, a, solve, f, ba);
}

/// One entry for both orders. After a query for `(a, b)` and then one for
/// `(b, a)`, if either was answered the cache has an entry under the
/// canonical pair and none under the other order of two distinct positions.
pub proof fn lemma_one_entry_for_both_orders<F: Fn(Position, Position) -> Option<DistanceData>>(
    start: Entries,
    between: Entries,
    end: Entries,
    a: Position,
    b: Position,
    solve: F,
    ab: DistanceResult,
    ba: DistanceResult,
)
    requires
        canonical(start),
        resolves(start, between, a, b, solve, ab),
        resolves(between, end, b, a, solve, ba),
    ensures
        canonical(end),
        ab is Ok || ba is Ok ==> end.contains_key(Query::of(a, b).pair()),
        a != b ==> !(end.contains_key((a, b)) && end.contains_key((b, a))),
{
    lemma_query_keeps_keys_canonical(start, between, a, b, solve, ab);
    lemma_query_keeps_keys_canonical(between, end, b, a, solve, ba);
}

/// Cache transparency. Against a cache faithful to the solver, the cached
/// query returns what the solver's answer for the canonical pair comes to,
/// whether it was read from the cache or solved anew; and it leaves the cache
/// faithful.
pub proof fn lemma_cache_transparent<F: Fn(Position, Position) -> Option<DistanceData>>(
    before: Entries,
    after: Entries,
    a: Position,
    b: Position,
    solve: F,
    f: spec_fn(Position, Position) -> Option<DistanceData>,
    cached: DistanceResult,
)
    requires
        answers_as(solve, f),
        faithful(before, f),
        resolves(before, after, a, b, solve, cached),
    ensures
        cached == outcome(a, b, f(Query::of(a, b).low, Query::of(a, b).high)),
        faithful(after, f),
{
}

/// Cache transparency, against the direct query: with the same solver the
/// cached query and the direct query return the same.
pub proof fn lemma_cached_equals_direct<F: Fn(Position, Position) -> Option<DistanceData>>(
    before: Entries,
    after: Entries,
    a: Position,
    b: Position,
    solve: F,
    f: spec_fn(Position, Position) -> Option<DistanceData>,
    cached: DistanceResult,
    direct: DistanceResult,
)
    requires
        answers_as(solve, f),
        faithful(before, f),
        resolves(before, after, a, b, solve, cached),
        computes(a, b, solve, direct),
    ensures
        cached == direct,
{
    lemma_cache_transparent(before, after, a, b, solve, f, cached);
}

/// Self-distance. A query from a valid position to itself is solved for that
/// position as both ends and returned as the solver gave it, with no swap. If
/// the solver gave the same bearing both ways, so has every orientation of
/// the result.
pub proof fn lemma_self_distance<F: Fn(Position, Position) -> Option<DistanceData>>(
    before: Entries,
    after: Entries,
    a: Position,
    solve: F,
    f: spec_fn(Position, Position) -> Option<DistanceData>,
    r: DistanceResult,
)
    requires
        answers_as(solve, f),
        faithful(before, f),
        resolves(before, after, a, a, solve, r),
        a.is_valid(),
    ensures
        Query::of(a, a).pair() == (a, a),
        r matches Ok(data) ==> f(a, a) == Some(data),
        r is Err ==> f(a, a) is None,
        r matches Ok(data) ==> (data.forward_azimuth == data.backward_azimuth ==> forall|
            flipped: bool,
        |
            data.oriented(flipped) == data),
{
    lemma_cache_transparent(before, after, a, a, solve, f, r);
}

} // verus!
