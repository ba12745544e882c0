use vstd::prelude::*;

use super::vec::Vec2;
use crate::num_traits::{Integer, Unsigned, WrappingSub, Zero};

verus! {

/// An axis-aligned rectangle given by its least corner `min` and greatest corner
/// `max`. Where it stands for a set of pixels, `max` is exclusive.
#[derive(Clone, Copy)]
pub struct Rect<T> {
    min: Vec2<T>,
    max: Vec2<T>,
}

impl<T> View for Rect<T> {
    /// The two corners, `(min, max)`.
    type V = (Vec2<T>, Vec2<T>);

    closed spec fn view(&self) -> (Vec2<T>, Vec2<T>) {
        (self.min, self.max)
    }
}

impl<T: Integer> Rect<T> {
    /// The rectangle's invariant: `min <= max` in both coordinates.
    pub open spec fn wf(&self) -> bool {
        &&& self@.0.x.to_int() <= self@.1.x.to_int()
        &&& self@.0.y.to_int() <= self@.1.y.to_int()
    }

    pub open spec fn width_spec(&self) -> int {
        self@.1.x.to_int() - self@.0.x.to_int()
    }

    pub open spec fn height_spec(&self) -> int {
        self@.1.y.to_int() - self@.0.y.to_int()
    }

    /// Builds the rectangle from its corners, which must satisfy `min <= max`.
    pub fn new_unchecked(min: Vec2<T>, max: Vec2<T>) -> (r: Self)
        requires
            min.x.to_int() <= max.x.to_int(),
            min.y.to_int() <= max.y.to_int(),
        ensures
            r@ == (min, max),
            r.wf(),
    {
        Rect { min, max }
    }

    /// The rectangle from the origin to `max`.
    pub fn new_zero_to_max(max: Vec2<T>) -> (r: Self) where T: Zero + Unsigned
        ensures
            r@.0.x.to_int() == 0,
            r@.0.y.to_int() == 0,
            r@.1 == max,
            r.wf(),
    {
        proof {
            T::lemma_least_is_zero();
            max.x.lemma_in_range();
            max.y.lemma_in_range();
        }
        Rect { min: Vec2::zero(), max }
    }

    pub fn min(&self) -> (r: Vec2<T>)
        ensures
            r == self@.0,
    {
        self.min
    }

    pub fn max(&self) -> (r: Vec2<T>)
        ensures
            r == self@.1,
    {
        self.max
    }

    /// `max.x - min.x`, by wrapping subtraction; exact whenever the difference is
    /// representable, which the invariant guarantees for unsigned types.
    pub fn width(&self) -> (r: T) where T: WrappingSub
        ensures
            T::lowest() <= self.width_spec() <= T::highest() ==> r.to_int() == self.width_spec(),
    {
        self.max.x.wrapping_sub(self.min.x)
    }

    /// `max.y - min.y`, by wrapping subtraction; exact whenever the difference is
    /// representable, which the invariant guarantees for unsigned types.
    pub fn height(&self) -> (r: T) where T: WrappingSub
        ensures
            T::lowest() <= self.height_spec() <= T::highest() ==> r.to_int()
                == self.height_spec(),
    {
        self.max.y.wrapping_sub(self.min.y)
    }
}

/// For a well-formed rectangle over an unsigned type, width and height are the
/// exact differences of the corners and never overflow.
pub proof fn lemma_unsigned_extent_exact<T: Unsigned>(r: Rect<T>)
    requires
        r.wf(),
    ensures
        0 <= r.width_spec() <= T::highest(),
        0 <= r.height_spec() <= T::highest(),
{
    T::lemma_least_is_zero();
    r@.0.x.lemma_in_range();
    r@.0.y.lemma_in_range();
    r@.1.x.lemma_in_range();
    r@.1.y.lemma_in_range();
}

} // verus!
