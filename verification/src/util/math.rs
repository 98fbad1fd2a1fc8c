//! Two-dimensional vectors over [`Scalar`].
//!
//! A vector is a plain immutable value. Every operation that computes hands
//! back `None` where one of its steps has no usable result; normalizing the
//! zero vector is such a case, as it divides by zero. What each operation
//! computes is stated as a formula over the results of the scalar
//! operations.

use crate::util::scalar::{
    arc_tangent, cosine, difference, digits_of, negative_of, product, quotient,
    same_value, scalar_of_u32, scale_of, sine, square_root, sum, Scalar,
};
use vstd::prelude::*;

verus! {

/// Conversion of a primitive number to a [`Scalar`].
pub trait ConvertToScalar: Sized {
    /// The scalar that `self` stands for.
    spec fn scalar_model(self) -> Scalar;

    /// Converts `self`.
    fn to_scalar(self) -> (r: Scalar)
        ensures
            r == self.scalar_model(),
    ;
}

impl ConvertToScalar for u32 {
    open spec fn scalar_model(self) -> Scalar {
        scalar_of_u32(self)
    }

    fn to_scalar(self) -> (r: Scalar)
        ensures
            digits_of(r) == self,
            scale_of(r) == 0,
            !negative_of(r),
    {
        Scalar::from_u32(self)
    }
}

/// A two-dimensional vector.
#[derive(Copy, Clone, Debug)]
pub struct Vec2 {
    pub x: Scalar,
    pub y: Scalar,
}

/// The vector of two components, where both were computed.
pub open spec fn pair(x: Option<Scalar>, y: Option<Scalar>) -> Option<Vec2> {
    match (x, y) {
        (Some(x), Some(y)) => Some(Vec2 { x, y }),
        _ => None,
    }
}

/// `a + b` of two computed values.
pub open spec fn sum_opt(a: Option<Scalar>, b: Option<Scalar>) -> Option<Scalar> {
    match (a, b) {
        (Some(a), Some(b)) => sum(a, b),
        _ => None,
    }
}

/// `a - b` of two computed values.
pub open spec fn difference_opt(a: Option<Scalar>, b: Option<Scalar>) -> Option<Scalar> {
    match (a, b) {
        (Some(a), Some(b)) => difference(a, b),
        _ => None,
    }
}

/// `a * b` where `b` was computed.
pub open spec fn product_opt(a: Scalar, b: Option<Scalar>) -> Option<Scalar> {
    match b {
        Some(b) => product(a, b),
        None => None,
    }
}

/// The square root of a computed value.
pub open spec fn square_root_opt(a: Option<Scalar>) -> Option<Scalar> {
    match a {
        Some(a) => square_root(a),
        None => None,
    }
}

/// The two polar coordinates, where both were computed.
pub open spec fn polar_pair(r: Option<Scalar>, theta: Option<Scalar>) -> Option<(Scalar, Scalar)> {
    match (r, theta) {
        (Some(r), Some(theta)) => Some((r, theta)),
        _ => None,
    }
}

impl Vec2 {
    /// The vector at distance `magnitude` from the origin in direction `angle`.
    pub open spec fn spec_new_from_angle(magnitude: Scalar, angle: Scalar) -> Option<Vec2> {
        pair(product_opt(magnitude, cosine(angle)), product_opt(magnitude, sine(angle)))
    }

    /// The component-wise sum.
    pub open spec fn spec_add(self, other: Vec2) -> Option<Vec2> {
        pair(sum(self.x, other.x), sum(self.y, other.y))
    }

    /// The component-wise difference.
    pub open spec fn spec_sub(self, other: Vec2) -> Option<Vec2> {
        pair(difference(self.x, other.x), difference(self.y, other.y))
    }

    /// `x1 * x2 + y1 * y2`.
    pub open spec fn spec_dot(self, other: Vec2) -> Option<Scalar> {
        sum_opt(product(self.x, other.x), product(self.y, other.y))
    }

    /// `x1 * y2 - y1 * x2`, the signed area that the two vectors span.
    pub open spec fn spec_cross(self, other: Vec2) -> Option<Scalar> {
        difference_opt(product(self.x, other.y), product(self.y, other.x))
    }

    /// The dot product of the vector with itself.
    pub open spec fn spec_length_squared(self) -> Option<Scalar> {
        self.spec_dot(self)
    }

    /// The length: the square root of the squared length.
    pub open spec fn spec_length(self) -> Option<Scalar> {
        square_root_opt(self.spec_length_squared())
    }

    /// The vector turned counter-clockwise by `angle`.
    pub open spec fn spec_rotate(self, angle: Scalar) -> Option<Vec2> {
        pair(
            difference_opt(product_opt(self.x, cosine(angle)), product_opt(self.y, sine(angle))),
            sum_opt(product_opt(self.x, sine(angle)), product_opt(self.y, cosine(angle))),
        )
    }

    /// Each component divided by the length; nothing where the length is
    /// zero.
    pub open spec fn spec_normalize(self) -> Option<Vec2> {
        match self.spec_length() {
            Some(length) => if digits_of(length) == 0 {
                None
            } else {
                pair(quotient(self.x, length), quotient(self.y, length))
            },
            None => None,
        }
    }

    /// The length and the direction.
    pub open spec fn spec_to_polar(self) -> Option<(Scalar, Scalar)> {
        polar_pair(self.spec_length(), arc_tangent(self.y, self.x))
    }

    /// Returns the zero vector.
    pub fn zero() -> (r: Vec2)
        ensures
            r == (Vec2 { x: scalar_of_u32(0), y: scalar_of_u32(0) }),
    {
        Vec2::new(Scalar::from_u32(0), Scalar::from_u32(0))
    }

    /// Creates a vector with the given components.
    pub fn new(x: Scalar, y: Scalar) -> (r: Vec2)
        ensures
            r == (Vec2 { x, y }),
    {
        Vec2 { x, y }
    }

    /// Creates a vector from polar coordinates: `(r cos t, r sin t)`. `None`
    /// for an angle beyond twelve radians either way, and where a product is
    /// not usable.
    pub fn new_from_angle(magnitude: Scalar, angle: Scalar) -> (r: Option<Vec2>)
        ensures
            r == Vec2::spec_new_from_angle(magnitude, angle),
    {
        let c = angle.cos();
        let s = angle.sin();
        match (c, s) {
            (Some(c), Some(s)) => {
                let x = magnitude.mul(c);
                let y = magnitude.mul(s);
                Vec2::both(x, y)
            },
            _ => None,
        }
    }

    /// Puts two computed components together.
    fn both(x: Option<Scalar>, y: Option<Scalar>) -> (r: Option<Vec2>)
        ensures
            r == pair(x, y),
    {
        match (x, y) {
            (Some(x), Some(y)) => Some(Vec2 { x, y }),
            _ => None,
        }
    }

    /// Computes the sum of two vectors.
    pub fn add(&self, other: &Vec2) -> (r: Option<Vec2>)
        ensures
            r == self.spec_add(*other),
    {
        Vec2::both(self.x.add(other.x), self.y.add(other.y))
    }

    /// Computes the difference of two vectors.
    pub fn sub(&self, other: &Vec2) -> (r: Option<Vec2>)
        ensures
            r == self.spec_sub(*other),
    {
        Vec2::both(self.x.sub(other.x), self.y.sub(other.y))
    }

    /// Computes the dot product of two vectors.
    pub fn dot(&self, other: &Vec2) -> (r: Option<Scalar>)
        ensures
            r == self.spec_dot(*other),
    {
        match (self.x.mul(other.x), self.y.mul(other.y)) {
            (Some(a), Some(b)) => a.add(b),
            _ => None,
        }
    }

    /// Computes the cross product of two vectors.
    pub fn cross(&self, other: Vec2) -> (r: Option<Scalar>)
        ensures
            r == self.spec_cross(other),
    {
        match (self.x.mul(other.y), self.y.mul(other.x)) {
            (Some(a), Some(b)) => a.sub(b),
            _ => None,
        }
    }

    /// Computes the square of the length of the vector.
    pub fn length_squared(&self) -> (r: Option<Scalar>)
        ensures
            r == self.spec_length_squared(),
    {
        self.dot(self)
    }

    /// Computes the length of the vector.
    pub fn length(&self) -> (r: Option<Scalar>)
        ensures
            r == self.spec_length(),
    {
        match self.length_squared() {
            Some(sq) => sq.sqrt(),
            None => None,
        }
    }

    /// Rotates the vector by the given angle in radians, counter-clockwise
    /// for a positive angle. `None` for an angle beyond twelve radians either
    /// way, and where a coordinate cannot be computed.
    pub fn rotate(&self, angle: Scalar) -> (r: Option<Vec2>)
        ensures
            r == self.spec_rotate(angle),
    {
        match (angle.cos(), angle.sin()) {
            (Some(c), Some(s)) => {
                let x = match (self.x.mul(c), self.y.mul(s)) {
                    (Some(a), Some(b)) => a.sub(b),
                    _ => None,
                };
                let y = match (self.x.mul(s), self.y.mul(c)) {
                    (Some(a), Some(b)) => a.add(b),
                    _ => None,
                };
                Vec2::both(x, y)
            },
            _ => None,
        }
    }

    /// Normalizes the vector: each component divided by the length. A
    /// vector of length zero has no direction: for it the result is `None`.
    pub fn normalize(&self) -> (r: Option<Vec2>)
        ensures
            r == self.spec_normalize(),
            self.spec_length() is Some && digits_of(self.spec_length().unwrap()) == 0 ==> r is None,
    {
        match self.length() {
            Some(length) => {
                if length.digits() == 0 {
                    None
                } else {
                    Vec2::both(self.x.div(length), self.y.div(length))
                }
            },
            None => None,
        }
    }

    /// Converts the vector to polar coordinates `(r, theta)`: the length and
    /// the angle of `Scalar::atan2`, which is above minus a half turn and at
    /// most a half turn. `None` for the zero vector and where a step cannot
    /// be computed.
    pub fn to_polar(&self) -> (r: Option<(Scalar, Scalar)>)
        ensures
            r == self.spec_to_polar(),
    {
        match (self.length(), self.y.atan2(self.x)) {
            (Some(r), Some(theta)) => Some((r, theta)),
            _ => None,
        }
    }
}

impl PartialEq for Vec2 {
    fn eq(&self, other: &Vec2) -> (r: bool) {
        self.x == other.x && self.y == other.y
    }
}

impl vstd::std_specs::cmp::PartialEqSpecImpl for Vec2 {
    open spec fn obeys_eq_spec() -> bool {
        true
    }

    open spec fn eq_spec(&self, other: &Vec2) -> bool {
        same_value(self.x, other.x) && same_value(self.y, other.y)
    }
}

/// `a + b` on vectors is `Vec2::add`.
impl std::ops::Add for Vec2 {
    type Output = Option<Vec2>;

    fn add(self, other: Vec2) -> (r: Option<Vec2>) {
        Vec2::both(self.x.add(other.x), self.y.add(other.y))
    }
}

impl vstd::std_specs::ops::AddSpecImpl for Vec2 {
    open spec fn obeys_add_spec() -> bool {
        true
    }

    open spec fn add_req(self, other: Vec2) -> bool {
        true
    }

    open spec fn add_spec(self, other: Vec2) -> Option<Vec2> {
        self.spec_add(other)
    }
}

/// `a - b` on vectors is `Vec2::sub`.
impl std::ops::Sub for Vec2 {
    type Output = Option<Vec2>;

    fn sub(self, other: Vec2) -> (r: Option<Vec2>) {
        Vec2::both(self.x.sub(other.x), self.y.sub(other.y))
    }
}

impl vstd::std_specs::ops::SubSpecImpl for Vec2 {
    open spec fn obeys_sub_spec() -> bool {
        true
    }

    open spec fn sub_req(self, other: Vec2) -> bool {
        true
    }

    open spec fn sub_spec(self, other: Vec2) -> Option<Vec2> {
        self.spec_sub(other)
    }
}

/// Every operation on vectors is a function of its arguments: carried out
/// twice on the same values, wherever and whenever, it gives the same result.
pub proof fn same_inputs_same_results(
    a: Vec2,
    b: Vec2,
    c: Vec2,
    d: Vec2,
    m: Scalar,
    n: Scalar,
    s: Scalar,
    t: Scalar,
)
    requires
        a == c,
        b == d,
        m == n,
        s == t,
    ensures
        a.spec_add(b) == c.spec_add(d),
        a.spec_sub(b) == c.spec_sub(d),
        a.spec_dot(b) == c.spec_dot(d),
        a.spec_cross(b) == c.spec_cross(d),
        a.spec_length_squared() == c.spec_length_squared(),
        a.spec_rotate(s) == c.spec_rotate(t),
        a.spec_normalize() == c.spec_normalize(),
        a.spec_to_polar() == c.spec_to_polar(),
        Vec2::spec_new_from_angle(m, s) == Vec2::spec_new_from_angle(n, t),
{
}

} // verus!
