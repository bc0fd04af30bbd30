//! The result of a distance query.

use vstd::prelude::*;

verus! {

/// What the inverse geodesic problem yields for a pair of points `A` and `B`.
///
/// Each field is the bit pattern of a binary64 value. The bearings are part
/// of the same solve as the distance and cost nothing more to carry along.
#[derive(Clone, Copy, Debug, PartialEq, Eq, Structural)]
pub struct DistanceData {
    /// Distance from `A` to `B`.
    pub distance: u64,
    /// Bearing to hold at `A` to reach `B`.
    pub forward_azimuth: u64,
    /// Bearing to hold at `B` to reach `A`.
    pub backward_azimuth: u64,
}

impl DistanceData {
    /// The same result read from the other end: the bearings trade places,
    /// the distance stays.
    pub open spec fn swapped(self) -> DistanceData {
        DistanceData {
            distance: self.distance,
            forward_azimuth: self.backward_azimuth,
            backward_azimuth: self.forward_azimuth,
        }
    }

    /// The result as seen by a caller whose argument order was `flipped`
    /// against the order in which it was solved.
    pub open spec fn oriented(self, flipped: bool) -> DistanceData {
        if flipped {
            self.swapped()
        } else {
            self
        }
    }

    /// Exchanges the two bearings in place if `should_swap`. The distance is
    /// never touched.
    pub fn swap_azimuth(&mut self, should_swap: bool)
        ensures
            *final(self) == old(self).oriented(should_swap),
    {
        if should_swap {
            let forward = self.forward_azimuth;
            self.forward_azimuth = self.backward_azimuth;
            self.backward_azimuth = forward;
        }
    }
}

} // verus!
