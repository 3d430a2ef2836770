//! Triples of numbers: positions, extents, angles and directions in space.

use crate::scalar::{one, one_spec, zero, zero_spec, Scalar};
use crate::vector2::Vector2;
use vstd::prelude::*;

verus! {

pub struct Vector3<T> {
    pub x: T,
    pub y: T,
    pub z: T,
}

impl<T: Copy> Clone for Vector3<T> {
    fn clone(&self) -> (r: Self)
        ensures
            r == *self,
    {
        *self
    }
}

impl<T: Copy> Copy for Vector3<T> {

}

impl<T: Scalar> Vector3<T> {
    pub open spec fn add_spec(self, rhs: Vector3<T>) -> Vector3<T> {
        Vector3 {
            x: self.x.add_spec(rhs.x),
            y: self.y.add_spec(rhs.y),
            z: self.z.add_spec(rhs.z),
        }
    }

    pub open spec fn sub_spec(self, rhs: Vector3<T>) -> Vector3<T> {
        Vector3 {
            x: self.x.sub_spec(rhs.x),
            y: self.y.sub_spec(rhs.y),
            z: self.z.sub_spec(rhs.z),
        }
    }

    pub open spec fn mul_spec(self, rhs: Vector3<T>) -> Vector3<T> {
        Vector3 {
            x: self.x.mul_spec(rhs.x),
            y: self.y.mul_spec(rhs.y),
            z: self.z.mul_spec(rhs.z),
        }
    }

    pub open spec fn dot_spec(self, rhs: Vector3<T>) -> T {
        self.x.mul_spec(rhs.x).add_spec(self.y.mul_spec(rhs.y)).add_spec(self.z.mul_spec(rhs.z))
    }

    pub open spec fn cross_spec(self, rhs: Vector3<T>) -> Vector3<T> {
        Vector3 {
            x: self.y.mul_spec(rhs.z).sub_spec(self.z.mul_spec(rhs.y)),
            y: self.z.mul_spec(rhs.x).sub_spec(self.x.mul_spec(rhs.z)),
            z: self.x.mul_spec(rhs.y).sub_spec(self.y.mul_spec(rhs.x)),
        }
    }

    /// The vector of the same length that points the other way.
    pub open spec fn neg_spec(self) -> Vector3<T> {
        Self::zero_spec().sub_spec(self)
    }

    pub open spec fn zero_spec() -> Vector3<T> {
        Vector3 { x: zero_spec::<T>(), y: zero_spec::<T>(), z: zero_spec::<T>() }
    }

    pub open spec fn one_spec() -> Vector3<T> {
        Vector3 { x: one_spec::<T>(), y: one_spec::<T>(), z: one_spec::<T>() }
    }

    /// `self` turned about the x axis by `angle` degrees.
    pub open spec fn rotate_x_spec(self, angle: T) -> Vector3<T> {
        Vector3 {
            x: self.x,
            y: self.y.mul_spec(angle.cos_degrees_spec()).sub_spec(
                self.z.mul_spec(angle.sin_degrees_spec()),
            ),
            z: self.z.mul_spec(angle.cos_degrees_spec()).add_spec(
                self.y.mul_spec(angle.sin_degrees_spec()),
            ),
        }
    }

    /// `self` turned about the y axis by `angle` degrees.
    pub open spec fn rotate_y_spec(self, angle: T) -> Vector3<T> {
        Vector3 {
            x: self.x.mul_spec(angle.cos_degrees_spec()).add_spec(
                self.z.mul_spec(angle.sin_degrees_spec()),
            ),
            y: self.y,
            z: self.z.mul_spec(angle.cos_degrees_spec()).sub_spec(
                self.x.mul_spec(angle.sin_degrees_spec()),
            ),
        }
    }

    /// `self` turned about the z axis by `angle` degrees.
    pub open spec fn rotate_z_spec(self, angle: T) -> Vector3<T> {
        Vector3 {
            x: self.x.mul_spec(angle.cos_degrees_spec()).sub_spec(
                self.y.mul_spec(angle.sin_degrees_spec()),
            ),
            y: self.y.mul_spec(angle.cos_degrees_spec()).add_spec(
                self.x.mul_spec(angle.sin_degrees_spec()),
            ),
            z: self.z,
        }
    }

    /// `self` turned about the origin: first about x, then the result about
    /// y, then that result about z.
    pub open spec fn rotate_euler_spec(self, euler_angles: Vector3<T>) -> Vector3<T> {
        self.rotate_x_spec(euler_angles.x).rotate_y_spec(euler_angles.y).rotate_z_spec(
            euler_angles.z,
        )
    }

    /// The point without its depth.
    pub open spec fn xy_spec(self) -> Vector2<T> {
        Vector2 { x: self.x, y: self.y }
    }

    pub fn new(x: T, y: T, z: T) -> (r: Vector3<T>)
        ensures
            r == (Vector3 { x, y, z }),
    {
        Vector3 { x, y, z }
    }

    pub fn cross(&self, rhs: &Vector3<T>) -> (r: Vector3<T>)
        ensures
            r == self.cross_spec(*rhs),
    {
        Vector3 {
            x: self.y.mul(rhs.z).sub(self.z.mul(rhs.y)),
            y: self.z.mul(rhs.x).sub(self.x.mul(rhs.z)),
            z: self.x.mul(rhs.y).sub(self.y.mul(rhs.x)),
        }
    }

    pub fn dot(&self, rhs: &Vector3<T>) -> (r: T)
        ensures
            r == self.dot_spec(*rhs),
    {
        self.x.mul(rhs.x).add(self.y.mul(rhs.y)).add(self.z.mul(rhs.z))
    }

    pub fn zero() -> (r: Vector3<T>)
        ensures
            r == Self::zero_spec(),
    {
        Vector3 { x: zero(), y: zero(), z: zero() }
    }

    pub fn one() -> (r: Vector3<T>)
        ensures
            r == Self::one_spec(),
    {
        Vector3 { x: one(), y: one(), z: one() }
    }

    pub fn add(self, rhs: Vector3<T>) -> (r: Vector3<T>)
        ensures
            r == self.add_spec(rhs),
    {
        Vector3::new(self.x.add(rhs.x), self.y.add(rhs.y), self.z.add(rhs.z))
    }

    pub fn sub(self, rhs: Vector3<T>) -> (r: Vector3<T>)
        ensures
            r == self.sub_spec(rhs),
    {
        Vector3::new(self.x.sub(rhs.x), self.y.sub(rhs.y), self.z.sub(rhs.z))
    }

    /// The product component by component.
    pub fn mul(self, rhs: Vector3<T>) -> (r: Vector3<T>)
        ensures
            r == self.mul_spec(rhs),
    {
        Vector3::new(self.x.mul(rhs.x), self.y.mul(rhs.y), self.z.mul(rhs.z))
    }

    pub fn neg(self) -> (r: Vector3<T>)
        ensures
            r == self.neg_spec(),
    {
        Self::zero().sub(self)
    }

    /// Rotates in the X-Y-Z order around the origin, by angles in degrees.
    pub fn rotate_euler(&self, euler_angles: &Vector3<T>) -> (r: Vector3<T>)
        ensures
            r == self.rotate_euler_spec(*euler_angles),
    {
        let cos_x = euler_angles.x.cos_degrees();
        let sin_x = euler_angles.x.sin_degrees();
        let cos_y = euler_angles.y.cos_degrees();
        let sin_y = euler_angles.y.sin_degrees();
        let cos_z = euler_angles.z.cos_degrees();
        let sin_z = euler_angles.z.sin_degrees();

        let result_x = Vector3 {
            x: self.x,
            y: self.y.mul(cos_x).sub(self.z.mul(sin_x)),
            z: self.z.mul(cos_x).add(self.y.mul(sin_x)),
        };

        let result_xy = Vector3 {
            x: result_x.x.mul(cos_y).add(result_x.z.mul(sin_y)),
            y: result_x.y,
            z: result_x.z.mul(cos_y).sub(result_x.x.mul(sin_y)),
        };

        let result_xyz = Vector3 {
            x: result_xy.x.mul(cos_z).sub(result_xy.y.mul(sin_z)),
            y: result_xy.y.mul(cos_z).add(result_xy.x.mul(sin_z)),
            z: result_xy.z,
        };

        result_xyz
    }

    pub fn xy(&self) -> (r: Vector2<T>)
        ensures
            r == self.xy_spec(),
    {
        Vector2 { x: self.x, y: self.y }
    }
}

} // verus!
