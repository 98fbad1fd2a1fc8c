//! Axis-aligned bounding boxes.

use crate::util::math::{difference_opt, pair, sum_opt, Vec2};
use crate::util::scalar::{
    agreeing, at_most, max_of, min_of, mirrored, order_of, quotient, same_value, scalar_of_u32,
    Scalar,
};
use vstd::prelude::*;

verus! {

/// An axis-aligned bounding box (AABB).
#[derive(Clone, Copy, Debug)]
pub struct AABB {
    pub min: Vec2,
    pub max: Vec2,
}

/// Two scalars are the same value, or each compares as equal to the other.
pub open spec fn coincide(a: Scalar, b: Scalar) -> bool {
    a == b || (order_of(a, b) == 0 && order_of(b, a) == 0)
}

/// The box of two corners, where both were computed.
pub open spec fn corners(min: Option<Vec2>, max: Option<Vec2>) -> Option<AABB> {
    match (min, max) {
        (Some(min), Some(max)) => Some(AABB { min, max }),
        _ => None,
    }
}

impl AABB {
    /// On each axis the lower corner is at most the upper corner.
    pub open spec fn wf(self) -> bool {
        &&& at_most(self.min.x, self.max.x)
        &&& at_most(self.min.y, self.max.y)
    }

    /// The box spanned by two points: on each axis the smaller coordinate
    /// goes to `min` and the larger to `max`.
    pub open spec fn spec_new(a: Vec2, b: Vec2) -> AABB {
        AABB {
            min: Vec2 { x: min_of(a.x, b.x), y: min_of(a.y, b.y) },
            max: Vec2 { x: max_of(a.x, b.x), y: max_of(a.y, b.y) },
        }
    }

    /// The box around `center` that reaches half of `size` to either side.
    pub open spec fn spec_new_from_size(center: Vec2, size: Vec2) -> Option<AABB> {
        let half_x = quotient(size.x, scalar_of_u32(2));
        let half_y = quotient(size.y, scalar_of_u32(2));
        corners(
            pair(
                difference_opt(Some(center.x), half_x),
                difference_opt(Some(center.y), half_y),
            ),
            pair(sum_opt(Some(center.x), half_x), sum_opt(Some(center.y), half_y)),
        )
    }

    /// The two boxes have equal corners: each coordinate of the one `==` that
    /// of the other.
    pub open spec fn same_corners(self, other: AABB) -> bool {
        &&& same_value(self.min.x, other.min.x)
        &&& same_value(self.min.y, other.min.y)
        &&& same_value(self.max.x, other.max.x)
        &&& same_value(self.max.y, other.max.y)
    }

    /// The two boxes have coinciding corners.
    pub open spec fn coincides(self, other: AABB) -> bool {
        &&& coincide(self.min.x, other.min.x)
        &&& coincide(self.min.y, other.min.y)
        &&& coincide(self.max.x, other.max.x)
        &&& coincide(self.max.y, other.max.y)
    }

    /// Creates a new AABB.
    ///
    /// Normalizes the two corners so that `min.x <= max.x` and `min.y <= max.y`.
    /// The order of the two arguments does not matter: the box has the same
    /// corners under `==` as the one that the swapped arguments give.
    pub fn new(min: Vec2, max: Vec2) -> (r: AABB)
        ensures
            r == AABB::spec_new(min, max),
            r.wf(),
            r.coincides(AABB::spec_new(max, min)),
            r.same_corners(AABB::spec_new(max, min)),
            r.same_corners(r),
    {
        AABB {
            min: Vec2::new(min.x.min(max.x), min.y.min(max.y)),
            max: Vec2::new(min.x.max(max.x), min.y.max(max.y)),
        }
    }

    /// Creates a new AABB with the given center and size. `None` where a
    /// coordinate cannot be computed.
    pub fn new_from_size(center: Vec2, size: Vec2) -> (r: Option<AABB>)
        ensures
            r == AABB::spec_new_from_size(center, size),
    {
        let two = Scalar::from_u32(2);
        match (size.x.div(two), size.y.div(two)) {
            (Some(half_x), Some(half_y)) => {
                let min = match (center.x.sub(half_x), center.y.sub(half_y)) {
                    (Some(x), Some(y)) => Some(Vec2::new(x, y)),
                    _ => None,
                };
                let max = match (center.x.add(half_x), center.y.add(half_y)) {
                    (Some(x), Some(y)) => Some(Vec2::new(x, y)),
                    _ => None,
                };
                match (min, max) {
                    (Some(min), Some(max)) => Some(AABB { min, max }),
                    _ => None,
                }
            },
            _ => None,
        }
    }

    /// Building a box does not depend on the order of its two corners:
    /// swapping them gives a box with coinciding corners, and with equal
    /// corners under `==`. It is asked that comparing
    /// the corners' coordinates one way mirrors comparing them the other way
    /// and agrees with equality, as it does for every pair of decimals.
    pub proof fn new_is_commutative(a: Vec2, b: Vec2)
        requires
            mirrored(a.x, b.x),
            mirrored(a.y, b.y),
            agreeing(a.x, b.x),
            agreeing(a.y, b.y),
        ensures
            AABB::spec_new(a, b).coincides(AABB::spec_new(b, a)),
            AABB::spec_new(a, b).same_corners(AABB::spec_new(b, a)),
    {
    }
}

} // verus!
