//! Memoized geodesic distance and bearing between pairs of geographic
//! positions.
//!
//! The inverse geodesic solve is expensive and symmetric: the distance from
//! `a` to `b` is the distance from `b` to `a`, and the two bearings trade
//! places. Every request is therefore put into a canonical order before it is
//! solved or looked up, so that one cache entry serves both directions, and
//! the bearings are put back into the caller's order on the way out.
//!
//! Coordinates and results are IEEE 754 binary64 values carried as their bit
//! patterns (`u64`). Equality of positions is equality of bit patterns, and
//! the canonical order is the IEEE 754 total order on them.
//!
//! The solver itself is supplied by the caller as a function from a canonical
//! pair of positions to a distance and two bearings.

pub mod bits;
pub mod cache;
pub mod canonical;
pub mod distance_data;
pub mod error;
pub mod laws;
pub mod ordering;
pub mod position;
pub mod resolve;
pub mod store;

pub use cache::{CacheConfig, DistanceCache, Step};
pub use canonical::Query;
pub use distance_data::DistanceData;
pub use error::{DistanceError, DistanceResult};
pub use position::{IntoPosition, Position};
pub use resolve::{distance, uncached_distance};
