use crate::helper::{
    allowed, can_near, equal, exact, near, one, spec_one, spec_zero, zero, MathError, Number,
};
use vstd::prelude::*;
use vstd::std_specs::cmp::*;
use vstd::std_specs::ops::*;

verus! {

/// A point (`w` is one) or a vector (`w` is zero) in homogeneous coordinates.
#[derive(Debug, Clone, Copy)]
pub struct Tuple<T> {
    pub x: T,
    pub y: T,
    pub z: T,
    pub w: T,
}

/// What acts on a projectile at every tick: two vectors.
#[derive(Debug, Clone, Copy)]
pub struct Environment<T> {
    pub gravity: Tuple<T>,
    pub wind: Tuple<T>,
}

impl<T: Number> Environment<T> {
    /// Takes both tuples as vectors, whatever their `w`.
    pub fn new(gravity: Tuple<T>, wind: Tuple<T>) -> (r: Environment<T>)
        ensures
            r.gravity.x == gravity.x && r.gravity.y == gravity.y && r.gravity.z == gravity.z,
            r.wind.x == wind.x && r.wind.y == wind.y && r.wind.z == wind.z,
            exact::<T>() ==> r == (Environment {
                gravity: gravity.as_vector(),
                wind: wind.as_vector(),
            }),
    {
        Environment {
            gravity: Tuple { x: gravity.x, y: gravity.y, z: gravity.z, w: zero() },
            wind: Tuple { x: wind.x, y: wind.y, z: wind.z, w: zero() },
        }
    }
}

impl<T: Number> Tuple<T> {
    /// This tuple with its `w` replaced by zero.
    pub open spec fn as_vector(self) -> Tuple<T> {
        Tuple { x: self.x, y: self.y, z: self.z, w: spec_zero::<T>() }
    }

    /// This tuple with its `w` replaced by one.
    pub open spec fn as_point(self) -> Tuple<T> {
        Tuple { x: self.x, y: self.y, z: self.z, w: spec_one::<T>() }
    }

    /// The point at `(x, y, z)`.
    pub open spec fn point(x: T, y: T, z: T) -> Tuple<T> {
        Tuple { x, y, z, w: spec_one::<T>() }
    }

    /// The vector `(x, y, z)`.
    pub open spec fn vector(x: T, y: T, z: T) -> Tuple<T> {
        Tuple { x, y, z, w: spec_zero::<T>() }
    }

    /// The component-wise sum, `w` included.
    pub open spec fn spec_add(self, rhs: Tuple<T>) -> Tuple<T> {
        Tuple {
            x: self.x.add_spec(rhs.x),
            y: self.y.add_spec(rhs.y),
            z: self.z.add_spec(rhs.z),
            w: self.w.add_spec(rhs.w),
        }
    }

    /// The component-wise difference, `w` included.
    pub open spec fn spec_sub(self, rhs: Tuple<T>) -> Tuple<T> {
        Tuple {
            x: self.x.sub_spec(rhs.x),
            y: self.y.sub_spec(rhs.y),
            z: self.z.sub_spec(rhs.z),
            w: self.w.sub_spec(rhs.w),
        }
    }

    /// Every component negated, `w` included.
    pub open spec fn spec_negate(self) -> Tuple<T> {
        Tuple {
            x: self.x.neg_spec(),
            y: self.y.neg_spec(),
            z: self.z.neg_spec(),
            w: self.w.neg_spec(),
        }
    }

    /// Every component times `value`, `w` included.
    pub open spec fn spec_multiply(self, value: T) -> Tuple<T> {
        Tuple {
            x: self.x.mul_spec(value),
            y: self.y.mul_spec(value),
            z: self.z.mul_spec(value),
            w: self.w.mul_spec(value),
        }
    }

    /// Every component divided by `value`, `w` included.
    pub open spec fn spec_divide(self, value: T) -> Tuple<T> {
        Tuple {
            x: self.x.div_spec(value),
            y: self.y.div_spec(value),
            z: self.z.div_spec(value),
            w: self.w.div_spec(value),
        }
    }

    /// The sum of the four component-wise products, added from `x` to `w`.
    pub open spec fn spec_dot(self, other: Tuple<T>) -> T {
        self.x.mul_spec(other.x).add_spec(self.y.mul_spec(other.y)).add_spec(
            self.z.mul_spec(other.z),
        ).add_spec(self.w.mul_spec(other.w))
    }

    /// The cross product of the first three components, as a vector.
    pub open spec fn spec_cross(self, other: Tuple<T>) -> Tuple<T> {
        Tuple::vector(
            self.y.mul_spec(other.z).sub_spec(self.z.mul_spec(other.y)),
            self.z.mul_spec(other.x).sub_spec(self.x.mul_spec(other.z)),
            self.x.mul_spec(other.y).sub_spec(self.y.mul_spec(other.x)),
        )
    }

    /// All four components are near those of `other`.
    pub open spec fn spec_equal(self, other: Tuple<T>) -> bool {
        &&& near(self.x, other.x)
        &&& near(self.y, other.y)
        &&& near(self.z, other.z)
        &&& near(self.w, other.w)
    }

    /// The four additions of `spec_add` are defined.
    pub open spec fn can_add(self, rhs: Tuple<T>) -> bool {
        &&& self.x.add_req(rhs.x)
        &&& self.y.add_req(rhs.y)
        &&& self.z.add_req(rhs.z)
        &&& self.w.add_req(rhs.w)
    }

    /// The four subtractions of `spec_sub` are defined.
    pub open spec fn can_sub(self, rhs: Tuple<T>) -> bool {
        &&& self.x.sub_req(rhs.x)
        &&& self.y.sub_req(rhs.y)
        &&& self.z.sub_req(rhs.z)
        &&& self.w.sub_req(rhs.w)
    }

    /// The four negations of `spec_negate` are defined.
    pub open spec fn can_negate(self) -> bool {
        &&& self.x.neg_req()
        &&& self.y.neg_req()
        &&& self.z.neg_req()
        &&& self.w.neg_req()
    }

    /// The four products of `spec_multiply` are defined.
    pub open spec fn can_multiply(self, value: T) -> bool {
        &&& self.x.mul_req(value)
        &&& self.y.mul_req(value)
        &&& self.z.mul_req(value)
        &&& self.w.mul_req(value)
    }

    /// The four quotients of `spec_divide` are defined.
    pub open spec fn can_divide(self, value: T) -> bool {
        &&& self.x.div_req(value)
        &&& self.y.div_req(value)
        &&& self.z.div_req(value)
        &&& self.w.div_req(value)
    }

    /// The products and sums of `spec_dot` are defined.
    pub open spec fn can_dot(self, other: Tuple<T>) -> bool {
        let x = self.x.mul_spec(other.x);
        let y = self.y.mul_spec(other.y);
        let z = self.z.mul_spec(other.z);
        let w = self.w.mul_spec(other.w);
        &&& self.x.mul_req(other.x)
        &&& self.y.mul_req(other.y)
        &&& self.z.mul_req(other.z)
        &&& self.w.mul_req(other.w)
        &&& x.add_req(y)
        &&& x.add_spec(y).add_req(z)
        &&& x.add_spec(y).add_spec(z).add_req(w)
    }

    /// The products and differences of `spec_cross` are defined.
    pub open spec fn can_cross(self, other: Tuple<T>) -> bool {
        &&& self.y.mul_req(other.z)
        &&& self.z.mul_req(other.y)
        &&& self.y.mul_spec(other.z).sub_req(self.z.mul_spec(other.y))
        &&& self.z.mul_req(other.x)
        &&& self.x.mul_req(other.z)
        &&& self.z.mul_spec(other.x).sub_req(self.x.mul_spec(other.z))
        &&& self.x.mul_req(other.y)
        &&& self.y.mul_req(other.x)
        &&& self.x.mul_spec(other.y).sub_req(self.y.mul_spec(other.x))
    }

    /// The four comparisons of `spec_equal` are defined.
    pub open spec fn can_equal(self, other: Tuple<T>) -> bool {
        &&& can_near(self.x, other.x)
        &&& can_near(self.y, other.y)
        &&& can_near(self.z, other.z)
        &&& can_near(self.w, other.w)
    }

    /// A magnitude other than zero divides the four components.
    pub open spec fn can_normalize(self, magnitude: T) -> bool {
        !magnitude.eq_spec(&spec_zero::<T>()) ==> self.can_divide(magnitude)
    }

    /// What normalizing gives for a tuple whose magnitude is `magnitude`.
    pub open spec fn spec_normalize(self, magnitude: T) -> Result<Tuple<T>, MathError> {
        if magnitude.eq_spec(&spec_zero::<T>()) {
            Err(MathError::DegenerateVector)
        } else {
            Ok(self.spec_divide(magnitude))
        }
    }

    /// The tuple of the four components.
    pub fn new(x: T, y: T, z: T, w: T) -> (r: Tuple<T>)
        ensures
            r == (Tuple { x, y, z, w }),
    {
        Tuple { x, y, z, w }
    }

    /// The point at `(x, y, z)`: `w` is one.
    pub fn new_point(x: T, y: T, z: T) -> (r: Tuple<T>)
        ensures
            r.x == x,
            r.y == y,
            r.z == z,
            exact::<T>() ==> r == Tuple::point(x, y, z),
    {
        Tuple { x, y, z, w: one() }
    }

    /// The vector `(x, y, z)`: `w` is zero.
    pub fn new_vector(x: T, y: T, z: T) -> (r: Tuple<T>)
        ensures
            r.x == x,
            r.y == y,
            r.z == z,
            exact::<T>() ==> r == Tuple::vector(x, y, z),
    {
        Tuple { x, y, z, w: zero() }
    }

    /// Whether `w` equals one, compared exactly.
    pub fn is_a_point(&self) -> (r: bool)
        ensures
            exact::<T>() ==> r == self.w.eq_spec(&spec_one::<T>()),
    {
        self.w == one()
    }

    /// Whether `w` equals zero, compared exactly.
    pub fn is_a_vector(&self) -> (r: bool)
        ensures
            exact::<T>() ==> r == self.w.eq_spec(&spec_zero::<T>()),
    {
        self.w == zero()
    }

    /// The component-wise sum, `w` included.
    pub fn add(&self, rhs: &Tuple<T>) -> (r: Tuple<T>)
        requires
            allowed::<T>(self.can_add(*rhs)),
        ensures
            exact::<T>() ==> r == self.spec_add(*rhs),
    {
        Tuple::new(self.x + rhs.x, self.y + rhs.y, self.z + rhs.z, self.w + rhs.w)
    }

    /// The component-wise difference, `w` included.
    pub fn sub(&self, rhs: &Tuple<T>) -> (r: Tuple<T>)
        requires
            allowed::<T>(self.can_sub(*rhs)),
        ensures
            exact::<T>() ==> r == self.spec_sub(*rhs),
    {
        Tuple::new(self.x - rhs.x, self.y - rhs.y, self.z - rhs.z, self.w - rhs.w)
    }

    /// Every component negated, `w` included.
    pub fn negate(&self) -> (r: Tuple<T>)
        requires
            allowed::<T>(self.can_negate()),
        ensures
            exact::<T>() ==> r == self.spec_negate(),
    {
        Tuple { x: self.x.neg(), y: self.y.neg(), z: self.z.neg(), w: self.w.neg() }
    }

    /// Every component times `value`, `w` included.
    pub fn multiply(&self, value: T) -> (r: Tuple<T>)
        requires
            allowed::<T>(self.can_multiply(value)),
        ensures
            exact::<T>() ==> r == self.spec_multiply(value),
    {
        Tuple { x: self.x * value, y: self.y * value, z: self.z * value, w: self.w * value }
    }

    /// Divides every component by `magnitude`, the magnitude of this tuple as
    /// its caller computed it, and refuses a magnitude of zero.
    pub fn normalize(&self, magnitude: T) -> (r: Result<Tuple<T>, MathError>)
        requires
            allowed::<T>(self.can_normalize(magnitude)),
        ensures
            r is Err ==> r == Err::<Tuple<T>, MathError>(MathError::DegenerateVector),
            exact::<T>() ==> r == self.spec_normalize(magnitude),
    {
        if magnitude == zero() {
            Err(MathError::DegenerateVector)
        } else {
            Ok(
                Tuple {
                    x: self.x / magnitude,
                    y: self.y / magnitude,
                    z: self.z / magnitude,
                    w: self.w / magnitude,
                },
            )
        }
    }

    /// The sum of the four component-wise products.
    pub fn dot(&self, other: &Tuple<T>) -> (r: T)
        requires
            allowed::<T>(self.can_dot(*other)),
        ensures
            exact::<T>() ==> r == self.spec_dot(*other),
    {
        self.x * other.x + self.y * other.y + self.z * other.z + self.w * other.w
    }

    /// The cross product of the first three components, as a vector.
    pub fn cross(&self, other: &Tuple<T>) -> (r: Tuple<T>)
        requires
            allowed::<T>(self.can_cross(*other)),
        ensures
            exact::<T>() ==> r == self.spec_cross(*other),
    {
        Tuple::new_vector(
            self.y * other.z - self.z * other.y,
            self.z * other.x - self.x * other.z,
            self.x * other.y - self.y * other.x,
        )
    }

    /// Approximate equality, component by component.
    pub fn equal(&self, other: &Tuple<T>) -> (r: bool)
        requires
            allowed::<T>(self.can_equal(*other)),
        ensures
            exact::<T>() ==> r == self.spec_equal(*other),
    {
        let x = equal(self.x, other.x);
        let y = equal(self.y, other.y);
        let z = equal(self.z, other.z);
        let w = equal(self.w, other.w);
        x && y && z && w
    }
}

} // verus!
