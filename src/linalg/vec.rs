use vstd::prelude::*;

use core::cmp::Ordering;

use crate::num_traits::{One, Zero};

verus! {

/// A point, or a displacement, in two dimensions.
#[derive(Clone, Copy, Debug, PartialEq, Eq)]
pub struct Vec2<T> {
    pub x: T,
    pub y: T,
}

impl<T> Vec2<T> {
    pub fn new(x: T, y: T) -> (r: Self)
        ensures
            r.x == x,
            r.y == y,
    {
        Vec2 { x, y }
    }

    pub fn zero() -> (r: Self) where T: Zero
        ensures
            r.x.to_int() == 0,
            r.y.to_int() == 0,
    {
        Self::new(T::zero(), T::zero())
    }

    pub fn one() -> (r: Self) where T: One
        ensures
            r.x.to_int() == 1,
            r.y.to_int() == 1,
    {
        Self::new(T::one(), T::one())
    }

    pub fn unit_x() -> (r: Self) where T: Zero + One
        ensures
            r.x.to_int() == 1,
            r.y.to_int() == 0,
    {
        Self::new(T::one(), T::zero())
    }

    pub fn unit_y() -> (r: Self) where T: Zero + One
        ensures
            r.x.to_int() == 0,
            r.y.to_int() == 1,
    {
        Self::new(T::zero(), T::one())
    }
}

/// The componentwise order: `a < b` when both coordinates are less, equal when
/// both are, greater when both are greater; any other pair is unordered.
pub open spec fn componentwise(a: Vec2<usize>, b: Vec2<usize>) -> Option<Ordering> {
    if a.x < b.x && a.y < b.y {
        Some(Ordering::Less)
    } else if a.x == b.x && a.y == b.y {
        Some(Ordering::Equal)
    } else if a.x > b.x && a.y > b.y {
        Some(Ordering::Greater)
    } else {
        None
    }
}

impl PartialOrd for Vec2<usize> {
    fn partial_cmp(&self, other: &Self) -> (r: Option<Ordering>) {
        if self.x < other.x && self.y < other.y {
            Some(Ordering::Less)
        } else if self.x == other.x && self.y == other.y {
            Some(Ordering::Equal)
        } else if self.x > other.x && self.y > other.y {
            Some(Ordering::Greater)
        } else {
            None
        }
    }
}

impl vstd::std_specs::cmp::PartialOrdSpecImpl for Vec2<usize> {
    open spec fn obeys_partial_cmp_spec() -> bool {
        true
    }

    open spec fn partial_cmp_spec(&self, other: &Self) -> Option<Ordering> {
        componentwise(*self, *other)
    }
}

} // verus!
