//! The cuboid, its six faces, and which of them face the viewer.

use crate::scalar::{one, one_spec, zero, zero_spec, Scalar};
use crate::terminal_renderer::RgbColor;
use crate::vector3::Vector3;
use vstd::prelude::*;

verus! {

/// A cuboid by its centre, its half-extents along the three axes, and its
/// orientation as angles in degrees about x, y and z.
pub struct Cube<T> {
    pub pos: Vector3<T>,
    pub size: Vector3<T>,
    pub euler_angles: Vector3<T>,
}

/// A four-cornered face. The corners run top-left, top-right, bottom-right,
/// bottom-left; the order decides the direction of the normal.
pub struct Rectangle3D<T> {
    pub top_left: Vector3<T>,
    pub top_right: Vector3<T>,
    pub bottom_right: Vector3<T>,
    pub bottom_left: Vector3<T>,
}

impl<T: Copy> Clone for Rectangle3D<T> {
    fn clone(&self) -> (r: Self)
        ensures
            r == *self,
    {
        *self
    }
}

impl<T: Copy> Copy for Rectangle3D<T> {

}

/// Number of colours in the palette.
pub const PALETTE_SIZE: usize = 6;

/// The palette: red, green, yellow, blue, magenta, cyan, and round again.
pub open spec fn rainbow_spec(index: int) -> RgbColor {
    let i = index % (PALETTE_SIZE as int);
    if i == 0 {
        RgbColor { r: 255, g: 0, b: 0 }
    } else if i == 1 {
        RgbColor { r: 0, g: 255, b: 0 }
    } else if i == 2 {
        RgbColor { r: 255, g: 255, b: 0 }
    } else if i == 3 {
        RgbColor { r: 0, g: 0, b: 255 }
    } else if i == 4 {
        RgbColor { r: 255, g: 0, b: 255 }
    } else {
        RgbColor { r: 0, g: 255, b: 255 }
    }
}

/// The colour of the face with the given index.
pub fn rainbow(index: usize) -> (r: RgbColor)
    ensures
        r == rainbow_spec(index as int),
{
    let i: usize = index % PALETTE_SIZE;
    if i == 0 {
        RgbColor { r: 255, g: 0, b: 0 }
    } else if i == 1 {
        RgbColor { r: 0, g: 255, b: 0 }
    } else if i == 2 {
        RgbColor { r: 255, g: 255, b: 0 }
    } else if i == 3 {
        RgbColor { r: 0, g: 0, b: 255 }
    } else if i == 4 {
        RgbColor { r: 255, g: 0, b: 255 }
    } else {
        RgbColor { r: 0, g: 255, b: 255 }
    }
}

/// A colour at half its intensity.
pub open spec fn dimmed_spec(color: RgbColor) -> RgbColor {
    RgbColor { r: color.r / 2, g: color.g / 2, b: color.b / 2 }
}

pub fn dimmed(color: RgbColor) -> (r: RgbColor)
    ensures
        r == dimmed_spec(color),
{
    RgbColor { r: color.r / 2, g: color.g / 2, b: color.b / 2 }
}

/// Minus one, as the number type writes it.
pub open spec fn minus_one_spec<T: Scalar>() -> T {
    zero_spec::<T>().sub_spec(one_spec::<T>())
}

/// The corner of the cuboid with the given number, as the three signs of its
/// offsets from the centre. Corners 0 to 3 run round the top (y positive),
/// corners 4 to 7 lie below them.
pub open spec fn corner_signs(corner: int) -> (int, int, int) {
    if corner == 0 {
        (1, 1, 1)
    } else if corner == 1 {
        (-1, 1, 1)
    } else if corner == 2 {
        (-1, 1, -1)
    } else if corner == 3 {
        (1, 1, -1)
    } else if corner == 4 {
        (1, -1, 1)
    } else if corner == 5 {
        (-1, -1, 1)
    } else if corner == 6 {
        (-1, -1, -1)
    } else {
        (1, -1, -1)
    }
}

/// The corners of the face with the given number, in the order top-left,
/// top-right, bottom-right, bottom-left: the top, the four sides, the bottom.
pub open spec fn face_corners(face: int) -> (int, int, int, int) {
    if face == 0 {
        (3, 2, 1, 0)
    } else if face == 1 {
        (0, 1, 5, 4)
    } else if face == 2 {
        (1, 2, 6, 5)
    } else if face == 3 {
        (2, 3, 7, 6)
    } else if face == 4 {
        (3, 0, 4, 7)
    } else {
        (4, 5, 6, 7)
    }
}

/// The plane that a face lies in before the cuboid is turned, as the axis
/// (0 for x, 1 for y, 2 for z) and the sign of that coordinate on the face.
pub open spec fn face_plane(face: int) -> (int, int) {
    if face == 0 {
        (1, 1)
    } else if face == 1 {
        (2, 1)
    } else if face == 2 {
        (0, -1)
    } else if face == 3 {
        (2, -1)
    } else if face == 4 {
        (0, 1)
    } else {
        (1, -1)
    }
}

/// One of three signs, by the number of its axis.
pub open spec fn sign_along(signs: (int, int, int), axis: int) -> int {
    if axis == 0 {
        signs.0
    } else if axis == 1 {
        signs.1
    } else {
        signs.2
    }
}

/// The four corners of a face lie in the plane of the face.
pub proof fn face_lies_in_plane(face: int)
    requires
        0 <= face < 6,
    ensures
        sign_along(corner_signs(face_corners(face).0), face_plane(face).0) == face_plane(face).1,
        sign_along(corner_signs(face_corners(face).1), face_plane(face).0) == face_plane(face).1,
        sign_along(corner_signs(face_corners(face).2), face_plane(face).0) == face_plane(face).1,
        sign_along(corner_signs(face_corners(face).3), face_plane(face).0) == face_plane(face).1,
{
}

/// No two corners are the same point.
pub proof fn corners_differ(first: int, second: int)
    requires
        0 <= first < 8,
        0 <= second < 8,
        first != second,
    ensures
        corner_signs(first) != corner_signs(second),
{
}

/// A sign as a number: one where it is positive, minus one elsewhere.
pub open spec fn signed_one_spec<T: Scalar>(sign: int) -> T {
    if sign > 0 {
        one_spec::<T>()
    } else {
        minus_one_spec::<T>()
    }
}

impl<T: Scalar> Cube<T> {
    pub open spec fn unit_spec() -> Cube<T> {
        Cube {
            pos: Vector3::<T>::zero_spec(),
            size: Vector3::<T>::one_spec(),
            euler_angles: Vector3::<T>::zero_spec(),
        }
    }

    /// The corner whose offsets from the centre have the given signs: the
    /// half-extents with those signs, turned by the orientation, moved to the
    /// centre.
    pub open spec fn corner_at_spec(self, signs: (int, int, int)) -> Vector3<T> {
        self.pos.add_spec(
            self.size.mul_spec(
                Vector3 {
                    x: signed_one_spec::<T>(signs.0),
                    y: signed_one_spec::<T>(signs.1),
                    z: signed_one_spec::<T>(signs.2),
                },
            ).rotate_euler_spec(self.euler_angles),
        )
    }

    /// The corner with the given number.
    pub open spec fn corner_spec(self, corner: int) -> Vector3<T> {
        self.corner_at_spec(corner_signs(corner))
    }

    /// The face with the given number.
    pub open spec fn face_spec(self, face: int) -> Rectangle3D<T> {
        Rectangle3D {
            top_left: self.corner_spec(face_corners(face).0),
            top_right: self.corner_spec(face_corners(face).1),
            bottom_right: self.corner_spec(face_corners(face).2),
            bottom_left: self.corner_spec(face_corners(face).3),
        }
    }

    /// The cuboid that reaches one unit from the origin along each axis and
    /// is not turned.
    pub fn unit() -> (r: Cube<T>)
        ensures
            r == Self::unit_spec(),
    {
        Cube { pos: Vector3::zero(), size: Vector3::one(), euler_angles: Vector3::zero() }
    }

    fn corner_at(&self, x: T, y: T, z: T) -> (r: Vector3<T>)
        ensures
            r == self.pos.add_spec(
                self.size.mul_spec(Vector3 { x, y, z }).rotate_euler_spec(self.euler_angles),
            ),
    {
        self.pos.add(self.size.mul(Vector3::new(x, y, z)).rotate_euler(&self.euler_angles))
    }

    /// The six faces: the top, the four sides, the bottom.
    pub fn get_faces(&self) -> (faces: [Rectangle3D<T>; 6])
        ensures
            forall|face: int| 0 <= face < 6 ==> faces[face] == self.face_spec(face),
    {
        let p: T = one();
        let n: T = zero::<T>().sub(one());

        let a = self.corner_at(p, p, p);
        let b = self.corner_at(n, p, p);
        let c = self.corner_at(n, p, n);
        let d = self.corner_at(p, p, n);

        let e = self.corner_at(p, n, p);
        let f = self.corner_at(n, n, p);
        let g = self.corner_at(n, n, n);
        let h = self.corner_at(p, n, n);

        let faces: [Rectangle3D<T>; 6] = [
            Rectangle3D { top_left: d, top_right: c, bottom_right: b, bottom_left: a },
            Rectangle3D { top_left: a, top_right: b, bottom_right: f, bottom_left: e },
            Rectangle3D { top_left: b, top_right: c, bottom_right: g, bottom_left: f },
            Rectangle3D { top_left: c, top_right: d, bottom_right: h, bottom_left: g },
            Rectangle3D { top_left: d, top_right: a, bottom_right: e, bottom_left: h },
            Rectangle3D { top_left: e, top_right: f, bottom_right: g, bottom_left: h },
        ];

        faces
    }
}

impl<T: Scalar> Rectangle3D<T> {
    /// The normal of the face, not scaled to length one: the cross product
    /// of the left edge (top-left to bottom-left) with the top edge
    /// (top-left to top-right).
    pub open spec fn scaled_normal_spec(self) -> Vector3<T> {
        self.bottom_left.sub_spec(self.top_left).cross_spec(
            self.top_right.sub_spec(self.top_left),
        )
    }

    /// The direction in which the viewer looks: along z.
    pub open spec fn forward_spec() -> Vector3<T> {
        Vector3 { x: zero_spec::<T>(), y: zero_spec::<T>(), z: one_spec::<T>() }
    }

    /// Whether the face is left out of the picture: its normal points the
    /// way the viewer looks.
    pub open spec fn is_culled_spec(self) -> bool {
        zero_spec::<T>().less_spec(Self::forward_spec().dot_spec(self.scaled_normal_spec()))
    }

    pub fn scaled_normal(&self) -> (r: Vector3<T>)
        ensures
            r == self.scaled_normal_spec(),
    {
        self.bottom_left.sub(self.top_left).cross(&self.top_right.sub(self.top_left))
    }

    pub fn is_culled(&self) -> (r: bool)
        ensures
            r == self.is_culled_spec(),
    {
        let forward: Vector3<T> = Vector3::new(zero(), zero(), one());
        let normal = self.scaled_normal();
        zero::<T>().less(forward.dot(&normal))
    }
}

} // verus!
