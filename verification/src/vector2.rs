//! Pairs of numbers: screen-space points and directions.

use crate::scalar::{zero, zero_spec, Scalar};
use vstd::prelude::*;

verus! {

pub struct Vector2<T> {
    pub x: T,
    pub y: T,
}

impl<T: Copy> Clone for Vector2<T> {
    fn clone(&self) -> (r: Self)
        ensures
            r == *self,
    {
        *self
    }
}

impl<T: Copy> Copy for Vector2<T> {

}

impl<T: Scalar> Vector2<T> {
    pub open spec fn add_spec(self, rhs: Vector2<T>) -> Vector2<T> {
        Vector2 { x: self.x.add_spec(rhs.x), y: self.y.add_spec(rhs.y) }
    }

    pub open spec fn sub_spec(self, rhs: Vector2<T>) -> Vector2<T> {
        Vector2 { x: self.x.sub_spec(rhs.x), y: self.y.sub_spec(rhs.y) }
    }

    pub open spec fn mul_spec(self, rhs: Vector2<T>) -> Vector2<T> {
        Vector2 { x: self.x.mul_spec(rhs.x), y: self.y.mul_spec(rhs.y) }
    }

    pub open spec fn dot_spec(self, rhs: Vector2<T>) -> T {
        self.x.mul_spec(rhs.x).add_spec(self.y.mul_spec(rhs.y))
    }

    /// The signed area of the parallelogram that `self` and `rhs` span.
    pub open spec fn wedge_spec(self, rhs: Vector2<T>) -> T {
        self.x.mul_spec(rhs.y).sub_spec(self.y.mul_spec(rhs.x))
    }

    pub open spec fn min_spec(self, rhs: Vector2<T>) -> Vector2<T> {
        Vector2 { x: self.x.lesser_spec(rhs.x), y: self.y.lesser_spec(rhs.y) }
    }

    pub open spec fn max_spec(self, rhs: Vector2<T>) -> Vector2<T> {
        Vector2 { x: self.x.greater_spec(rhs.x), y: self.y.greater_spec(rhs.y) }
    }

    pub open spec fn length_squared_spec(self) -> T {
        self.x.mul_spec(self.x).add_spec(self.y.mul_spec(self.y))
    }

    pub open spec fn length_spec(self) -> T {
        self.length_squared_spec().sqrt_spec()
    }

    /// `self` scaled to length one; the zero vector where the squared length
    /// of `self` is not above the smallest difference of the number type.
    pub open spec fn normalized_spec(self) -> Vector2<T> {
        if T::epsilon_spec().less_spec(self.length_squared_spec()) {
            Vector2 {
                x: self.x.div_spec(self.length_spec()),
                y: self.y.div_spec(self.length_spec()),
            }
        } else {
            Vector2 { x: zero_spec::<T>(), y: zero_spec::<T>() }
        }
    }

    pub fn new(x: T, y: T) -> (r: Vector2<T>)
        ensures
            r == (Vector2 { x, y }),
    {
        Vector2 { x, y }
    }

    pub fn add(self, rhs: Vector2<T>) -> (r: Vector2<T>)
        ensures
            r == self.add_spec(rhs),
    {
        Vector2 { x: self.x.add(rhs.x), y: self.y.add(rhs.y) }
    }

    pub fn sub(self, rhs: Vector2<T>) -> (r: Vector2<T>)
        ensures
            r == self.sub_spec(rhs),
    {
        Vector2 { x: self.x.sub(rhs.x), y: self.y.sub(rhs.y) }
    }

    /// The product component by component.
    pub fn mul(self, rhs: Vector2<T>) -> (r: Vector2<T>)
        ensures
            r == self.mul_spec(rhs),
    {
        Vector2 { x: self.x.mul(rhs.x), y: self.y.mul(rhs.y) }
    }

    pub fn dot(&self, rhs: &Vector2<T>) -> (r: T)
        ensures
            r == self.dot_spec(*rhs),
    {
        self.x.mul(rhs.x).add(self.y.mul(rhs.y))
    }

    pub fn wedge_product(&self, rhs: &Vector2<T>) -> (r: T)
        ensures
            r == self.wedge_spec(*rhs),
    {
        self.x.mul(rhs.y).sub(self.y.mul(rhs.x))
    }

    pub fn min(&self, rhs: &Vector2<T>) -> (r: Vector2<T>)
        ensures
            r == self.min_spec(*rhs),
    {
        Vector2 { x: self.x.lesser(rhs.x), y: self.y.lesser(rhs.y) }
    }

    pub fn max(&self, rhs: &Vector2<T>) -> (r: Vector2<T>)
        ensures
            r == self.max_spec(*rhs),
    {
        Vector2 { x: self.x.greater(rhs.x), y: self.y.greater(rhs.y) }
    }

    pub fn normalized(&self) -> (r: Vector2<T>)
        ensures
            r == self.normalized_spec(),
    {
        let length_squared = self.x.mul(self.x).add(self.y.mul(self.y));
        if T::epsilon().less(length_squared) {
            let length = length_squared.sqrt();
            Vector2 { x: self.x.div(length), y: self.y.div(length) }
        } else {
            Vector2 { x: zero(), y: zero() }
        }
    }

    pub fn length(&self) -> (r: T)
        ensures
            r == self.length_spec(),
    {
        self.x.mul(self.x).add(self.y.mul(self.y)).sqrt()
    }
}

} // verus!
