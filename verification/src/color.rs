use crate::helper::{allowed, can_near, equal, exact, near, Number};
use vstd::prelude::*;
use vstd::std_specs::ops::*;

verus! {

/// A colour by its red, green and blue parts.
#[derive(Debug, Clone, Copy)]
pub struct Color<T> {
    pub red: T,
    pub green: T,
    pub blue: T,
}

impl<T: Number> Color<T> {
    /// The part-wise sum.
    pub open spec fn spec_add(self, rhs: Color<T>) -> Color<T> {
        Color {
            red: self.red.add_spec(rhs.red),
            green: self.green.add_spec(rhs.green),
            blue: self.blue.add_spec(rhs.blue),
        }
    }

    /// The part-wise difference.
    pub open spec fn spec_sub(self, rhs: Color<T>) -> Color<T> {
        Color {
            red: self.red.sub_spec(rhs.red),
            green: self.green.sub_spec(rhs.green),
            blue: self.blue.sub_spec(rhs.blue),
        }
    }

    /// The part-wise product.
    pub open spec fn spec_mul(self, rhs: Color<T>) -> Color<T> {
        Color {
            red: self.red.mul_spec(rhs.red),
            green: self.green.mul_spec(rhs.green),
            blue: self.blue.mul_spec(rhs.blue),
        }
    }

    /// Every part times `value`.
    pub open spec fn spec_scale(self, value: T) -> Color<T> {
        Color {
            red: self.red.mul_spec(value),
            green: self.green.mul_spec(value),
            blue: self.blue.mul_spec(value),
        }
    }

    /// The three additions of `spec_add` are defined.
    pub open spec fn can_add(self, rhs: Color<T>) -> bool {
        &&& self.red.add_req(rhs.red)
        &&& self.green.add_req(rhs.green)
        &&& self.blue.add_req(rhs.blue)
    }

    /// The three subtractions of `spec_sub` are defined.
    pub open spec fn can_sub(self, rhs: Color<T>) -> bool {
        &&& self.red.sub_req(rhs.red)
        &&& self.green.sub_req(rhs.green)
        &&& self.blue.sub_req(rhs.blue)
    }

    /// The three products of `spec_mul` are defined.
    pub open spec fn can_mul(self, rhs: Color<T>) -> bool {
        &&& self.red.mul_req(rhs.red)
        &&& self.green.mul_req(rhs.green)
        &&& self.blue.mul_req(rhs.blue)
    }

    /// The three products of `spec_scale` are defined.
    pub open spec fn can_scale(self, value: T) -> bool {
        &&& self.red.mul_req(value)
        &&& self.green.mul_req(value)
        &&& self.blue.mul_req(value)
    }

    /// The three comparisons of `spec_equal` are defined.
    pub open spec fn can_equal(self, other: Color<T>) -> bool {
        &&& can_near(self.red, other.red)
        &&& can_near(self.green, other.green)
        &&& can_near(self.blue, other.blue)
    }

    /// All three parts are near those of `other`.
    pub open spec fn spec_equal(self, other: Color<T>) -> bool {
        &&& near(self.red, other.red)
        &&& near(self.green, other.green)
        &&& near(self.blue, other.blue)
    }

    /// The colour of the three parts.
    pub fn new(red: T, green: T, blue: T) -> (r: Color<T>)
        ensures
            r == (Color { red, green, blue }),
    {
        Color { red, green, blue }
    }

    /// The part-wise sum.
    pub fn add(self, rhs: Color<T>) -> (r: Color<T>)
        requires
            allowed::<T>(self.can_add(rhs)),
        ensures
            exact::<T>() ==> r == self.spec_add(rhs),
    {
        Color {
            red: self.red + rhs.red,
            green: self.green + rhs.green,
            blue: self.blue + rhs.blue,
        }
    }

    /// The part-wise difference.
    pub fn sub(self, rhs: Color<T>) -> (r: Color<T>)
        requires
            allowed::<T>(self.can_sub(rhs)),
        ensures
            exact::<T>() ==> r == self.spec_sub(rhs),
    {
        Color {
            red: self.red - rhs.red,
            green: self.green - rhs.green,
            blue: self.blue - rhs.blue,
        }
    }

    /// The part-wise product.
    pub fn mul(self, rhs: Color<T>) -> (r: Color<T>)
        requires
            allowed::<T>(self.can_mul(rhs)),
        ensures
            exact::<T>() ==> r == self.spec_mul(rhs),
    {
        Color {
            red: self.red * rhs.red,
            green: self.green * rhs.green,
            blue: self.blue * rhs.blue,
        }
    }

    /// The part-wise product, by its other name.
    pub fn hadamard_product(&self, other: &Color<T>) -> (r: Color<T>)
        requires
            allowed::<T>(self.can_mul(*other)),
        ensures
            exact::<T>() ==> r == self.spec_mul(*other),
    {
        Color {
            red: self.red * other.red,
            green: self.green * other.green,
            blue: self.blue * other.blue,
        }
    }

    /// Every part times `value`.
    pub fn scale(self, value: T) -> (r: Color<T>)
        requires
            allowed::<T>(self.can_scale(value)),
        ensures
            exact::<T>() ==> r == self.spec_scale(value),
    {
        Color { red: self.red * value, green: self.green * value, blue: self.blue * value }
    }

    /// Approximate equality, part by part.
    pub fn equal(&self, other: &Color<T>) -> (r: bool)
        requires
            allowed::<T>(self.can_equal(*other)),
        ensures
            exact::<T>() ==> r == self.spec_equal(*other),
    {
        let red = equal(self.red, other.red);
        let green = equal(self.green, other.green);
        let blue = equal(self.blue, other.blue);
        red && green && blue
    }
}

} // verus!
