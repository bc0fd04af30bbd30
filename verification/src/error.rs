//! Why a distance query can fail.

use vstd::prelude::*;
use crate::distance_data::DistanceData;

verus! {

/// The two ways a query fails. Neither is retried, and a failed query leaves
/// nothing in the cache.
#[derive(Clone, Copy, Debug, PartialEq, Eq, Structural)]
pub enum DistanceError {
    /// A coordinate is not finite, or lies outside its range.
    InvalidInput,
    /// The solver gave no answer for the pair.
    SolverFailure,
}

/// What a distance query returns.
pub type DistanceResult = Result<DistanceData, DistanceError>;

} // verus!
