//! `<`, `<=`, `>` and `>=` on positions.
//!
//! The comparison operators follow the total order of `Position::follows`:
//! two positions are always comparable, and compare equal only if they are
//! the same position.

use core::cmp::Ordering;
use vstd::prelude::*;
use crate::position::Position;

verus! {

impl PartialOrd for Position {
    fn partial_cmp(&self, other: &Position) -> (r: Option<Ordering>) {
        if self.comes_after(other) {
            Some(Ordering::Greater)
        } else if other.comes_after(self) {
            Some(Ordering::Less)
        } else {
            Some(Ordering::Equal)
        }
    }
}

impl vstd::std_specs::cmp::PartialOrdSpecImpl for Position {
    open spec fn obeys_partial_cmp_spec() -> bool {
        true
    }

    open spec fn partial_cmp_spec(&self, other: &Position) -> Option<Ordering> {
        if self.follows(*other) {
            Some(Ordering::Greater)
        } else if other.follows(*self) {
            Some(Ordering::Less)
        } else {
            Some(Ordering::Equal)
        }
    }
}

} // verus!
