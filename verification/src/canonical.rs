//! Canonical order of a pair of positions.
//!
//! The pair `(a, b)` and the pair `(b, a)` name the same geodesic. Ordering
//! the two ends makes them the same request, and a flag remembers whether the
//! caller had them the other way round.

use vstd::prelude::*;
use crate::distance_data::DistanceData;
use crate::position::Position;

verus! {

/// A request in canonical order.
#[derive(Clone, Copy, Debug, PartialEq, Eq, Structural)]
pub struct Query {
    /// The end that comes first in the total order.
    pub low: Position,
    /// The other end; `low` never follows it.
    pub high: Position,
    /// Whether the caller gave `high` first.
    pub flipped: bool,
}

impl Query {
    /// The canonical form of the request `(a, b)`.
    pub open spec fn of(a: Position, b: Position) -> Query {
        if a.follows(b) {
            Query { low: b, high: a, flipped: true }
        } else {
            Query { low: a, high: b, flipped: false }
        }
    }

    /// The pair under which the request is solved and stored.
    pub open spec fn pair(self) -> (Position, Position) {
        (self.low, self.high)
    }

    /// Puts the request `(a, b)` into canonical order.
    pub fn new(a: Position, b: Position) -> (q: Query)
        ensures
            q == Query::of(a, b),
    {
        if a > b {
            Query { low: b, high: a, flipped: true }
        } else {
            Query { low: a, high: b, flipped: false }
        }
    }

    /// Turns a result solved for `(low, high)` into the caller's order.
    pub fn orient(&self, raw: DistanceData) -> (d: DistanceData)
        ensures
            d == raw.oriented(self.flipped),
    {
        let mut d = raw;
        d.swap_azimuth(self.flipped);
        d
    }
}

} // verus!
