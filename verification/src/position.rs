//! Geographic positions and their total order.

use vstd::prelude::*;
use crate::bits::{bounded_by, finite, is_finite, rank, ranks_above, within, NINETY, ONE_EIGHTY};

verus! {

/// A point on the ellipsoid: latitude and longitude in degrees, each held as
/// the bit pattern of a binary64 value.
///
/// Two positions are equal exactly when both patterns are identical. Values
/// that compare equal as numbers but differ in a bit (`-0.0` and `+0.0`) are
/// different positions.
#[derive(Clone, Copy, Debug, PartialEq, Eq, Hash, Structural)]
pub struct Position {
    /// Bit pattern of the latitude.
    pub lat: u64,
    /// Bit pattern of the longitude.
    pub lon: u64,
}

impl Position {
    /// A position from the bit patterns of its latitude and longitude.
    pub fn new(lat: u64, lon: u64) -> (p: Self)
        ensures
            p == (Position { lat, lon }),
    {
        Self { lat, lon }
    }

    /// Strictly after `other` in the total order: by latitude, then by
    /// longitude, each in the IEEE 754 total order.
    pub open spec fn follows(self, other: Position) -> bool {
        rank(self.lat) > rank(other.lat) || (self.lat == other.lat && rank(self.lon) > rank(
            other.lon,
        ))
    }

    /// Both coordinates are finite, the latitude within [-90, 90] degrees and
    /// the longitude within [-180, 180] degrees.
    pub open spec fn is_valid(self) -> bool {
        &&& is_finite(self.lat)
        &&& is_finite(self.lon)
        &&& within(self.lat, NINETY)
        &&& within(self.lon, ONE_EIGHTY)
    }

    /// Decides [`Position::follows`].
    pub fn comes_after(&self, other: &Position) -> (r: bool)
        ensures
            r == self.follows(*other),
    {
        if self.lat == other.lat {
            ranks_above(self.lon, other.lon)
        } else {
            ranks_above(self.lat, other.lat)
        }
    }

    /// Decides [`Position::is_valid`].
    pub fn valid(&self) -> (r: bool)
        ensures
            r == self.is_valid(),
    {
        finite(self.lat) && finite(self.lon) && bounded_by(self.lat, NINETY) && bounded_by(
            self.lon,
            ONE_EIGHTY,
        )
    }
}

/// Anything that can report a latitude and a longitude can stand for a
/// position.
pub trait IntoPosition {
    /// The position this value stands for. An implementation says here which
    /// one that is, and its methods are held to it.
    open spec fn position(&self) -> Position {
        arbitrary()
    }

    /// Bit pattern of the latitude.
    fn get_lat(&self) -> (r: u64)
        ensures
            r == self.position().lat,
    ;

    /// Bit pattern of the longitude.
    fn get_lon(&self) -> (r: u64)
        ensures
            r == self.position().lon,
    ;

    /// The position itself.
    fn into_position(&self) -> (p: Position)
        ensures
            p == self.position(),
    {
        Position::new(self.get_lat(), self.get_lon())
    }
}

impl IntoPosition for Position {
    open spec fn position(&self) -> Position {
        *self
    }

    fn get_lat(&self) -> (r: u64) {
        self.lat
    }

    fn get_lon(&self) -> (r: u64) {
        self.lon
    }

    fn into_position(&self) -> (p: Position) {
        *self
    }
}

} // verus!
