//! What holds exactly where the numbers are integers.
//!
//! Each law is stated of `i64`, the whole-number type. With rounded reals
//! the same laws hold up to rounding.

use crate::cube::{corner_signs, face_corners, face_plane, Cube, Rectangle3D};
use crate::exact::{
    add_then_sub_cancels, floor_sqrt, floor_sqrt_unique, is_floor_sqrt, magnitude, mul_commutes,
    neutral_elements, sub_anticommutes, wrap_in_range,
};
use crate::raster::{half_size_spec, unproject_spec};
use crate::scalar::Scalar;
use crate::vector2::Vector2;
use crate::vector3::Vector3;
use vstd::prelude::*;

verus! {

/// The dot product of two pairs does not depend on their order.
pub proof fn dot_commutes_2d(a: Vector2<i64>, b: Vector2<i64>)
    ensures
        a.dot_spec(b) == b.dot_spec(a),
{
    mul_commutes(a.x, b.x);
    mul_commutes(a.y, b.y);
}

/// The dot product of two triples does not depend on their order.
pub proof fn dot_commutes(a: Vector3<i64>, b: Vector3<i64>)
    ensures
        a.dot_spec(b) == b.dot_spec(a),
{
    mul_commutes(a.x, b.x);
    mul_commutes(a.y, b.y);
    mul_commutes(a.z, b.z);
}

/// The wedge product changes sign when its arguments change places.
pub proof fn wedge_anticommutes(a: Vector2<i64>, b: Vector2<i64>)
    ensures
        a.wedge_spec(b) == 0i64.sub_spec(b.wedge_spec(a)),
{
    mul_commutes(a.x, b.y);
    mul_commutes(a.y, b.x);
    sub_anticommutes(a.x.mul_spec(b.y), a.y.mul_spec(b.x));
}

/// The cross product changes sign when its arguments change places.
pub proof fn cross_anticommutes(a: Vector3<i64>, b: Vector3<i64>)
    ensures
        a.cross_spec(b) == b.cross_spec(a).neg_spec(),
{
    mul_commutes(a.y, b.z);
    mul_commutes(a.z, b.y);
    mul_commutes(a.z, b.x);
    mul_commutes(a.x, b.z);
    mul_commutes(a.x, b.y);
    mul_commutes(a.y, b.x);
    sub_anticommutes(a.y.mul_spec(b.z), a.z.mul_spec(b.y));
    sub_anticommutes(a.z.mul_spec(b.x), a.x.mul_spec(b.z));
    sub_anticommutes(a.x.mul_spec(b.y), a.y.mul_spec(b.x));
}

/// Adding a pair and taking it away again gives back the first pair.
pub proof fn add_then_sub_2d(a: Vector2<i64>, b: Vector2<i64>)
    ensures
        a.add_spec(b).sub_spec(b) == a,
{
    add_then_sub_cancels(a.x, b.x);
    add_then_sub_cancels(a.y, b.y);
}

/// Adding a triple and taking it away again gives back the first triple.
pub proof fn add_then_sub(a: Vector3<i64>, b: Vector3<i64>)
    ensures
        a.add_spec(b).sub_spec(b) == a,
{
    add_then_sub_cancels(a.x, b.x);
    add_then_sub_cancels(a.y, b.y);
    add_then_sub_cancels(a.z, b.z);
}

/// Turning by no angle about every axis leaves a vector as it is.
pub proof fn rotate_by_zero(v: Vector3<i64>)
    ensures
        v.rotate_euler_spec(Vector3::<i64>::zero_spec()) == v,
{
    neutral_elements(v.x);
    neutral_elements(v.y);
    neutral_elements(v.z);
    assert(v.rotate_x_spec(0) == v);
    assert(v.rotate_y_spec(0) == v);
    assert(v.rotate_z_spec(0) == v);
}

/// A turn about the x axis by a whole number of quarter turns, followed by
/// the same turn backwards, leaves a vector as it is.
pub proof fn quarter_turn_round_trip_x(v: Vector3<i64>, angle: i64)
    requires
        angle % 90 == 0,
    ensures
        v.rotate_euler_spec(Vector3 { x: angle, y: 0, z: 0 }).rotate_euler_spec(
            Vector3 { x: 0i64.sub_spec(angle), y: 0, z: 0 },
        ) == v,
{
    let back = 0i64.sub_spec(angle);
    assert(back == -angle) by {
        wrap_in_range(-angle);
    }
    let turned = v.rotate_x_spec(angle);
    neutral_elements(v.x);
    neutral_elements(v.y);
    neutral_elements(v.z);
    neutral_elements(turned.y);
    neutral_elements(turned.z);
    neutral_elements(0i64.sub_spec(v.y));
    neutral_elements(0i64.sub_spec(v.z));
    assert(turned.rotate_y_spec(0) == turned);
    assert(turned.rotate_z_spec(0) == turned);
    assert(turned.rotate_x_spec(back) == v);
    assert(v.rotate_y_spec(0) == v);
    assert(v.rotate_z_spec(0) == v);
}

/// A turn about the y axis by a whole number of quarter turns, followed by
/// the same turn backwards, leaves a vector as it is.
pub proof fn quarter_turn_round_trip_y(v: Vector3<i64>, angle: i64)
    requires
        angle % 90 == 0,
    ensures
        v.rotate_euler_spec(Vector3 { x: 0, y: angle, z: 0 }).rotate_euler_spec(
            Vector3 { x: 0, y: 0i64.sub_spec(angle), z: 0 },
        ) == v,
{
    let back = 0i64.sub_spec(angle);
    assert(back == -angle) by {
        wrap_in_range(-angle);
    }
    let turned = v.rotate_y_spec(angle);
    neutral_elements(v.x);
    neutral_elements(v.y);
    neutral_elements(v.z);
    neutral_elements(turned.x);
    neutral_elements(turned.z);
    neutral_elements(0i64.sub_spec(v.x));
    neutral_elements(0i64.sub_spec(v.z));
    assert(v.rotate_x_spec(0) == v);
    assert(turned.rotate_z_spec(0) == turned);
    assert(turned.rotate_x_spec(0) == turned);
    assert(turned.rotate_y_spec(back) == v);
    assert(v.rotate_z_spec(0) == v);
}

/// A turn about the z axis by a whole number of quarter turns, followed by
/// the same turn backwards, leaves a vector as it is.
pub proof fn quarter_turn_round_trip_z(v: Vector3<i64>, angle: i64)
    requires
        angle % 90 == 0,
    ensures
        v.rotate_euler_spec(Vector3 { x: 0, y: 0, z: angle }).rotate_euler_spec(
            Vector3 { x: 0, y: 0, z: 0i64.sub_spec(angle) },
        ) == v,
{
    let back = 0i64.sub_spec(angle);
    assert(back == -angle) by {
        wrap_in_range(-angle);
    }
    let turned = v.rotate_z_spec(angle);
    neutral_elements(v.x);
    neutral_elements(v.y);
    neutral_elements(v.z);
    neutral_elements(turned.x);
    neutral_elements(turned.y);
    neutral_elements(0i64.sub_spec(v.x));
    neutral_elements(0i64.sub_spec(v.y));
    assert(v.rotate_x_spec(0) == v);
    assert(v.rotate_y_spec(0) == v);
    assert(turned.rotate_x_spec(0) == turned);
    assert(turned.rotate_y_spec(0) == turned);
    assert(turned.rotate_z_spec(back) == v);
}

/// The corners of the unit cuboid are the eight points whose coordinates
/// are all one or minus one.
pub proof fn unit_corners(corner: int)
    requires
        0 <= corner < 8,
    ensures
        Cube::<i64>::unit_spec().corner_spec(corner) == (Vector3 {
            x: corner_signs(corner).0 as i64,
            y: corner_signs(corner).1 as i64,
            z: corner_signs(corner).2 as i64,
        }),
{
    let signs = Vector3 {
        x: corner_signs(corner).0 as i64,
        y: corner_signs(corner).1 as i64,
        z: corner_signs(corner).2 as i64,
    };
    neutral_elements(1);
    neutral_elements(-1i64);
    assert(Vector3::<i64>::one_spec().mul_spec(signs) == signs);
    rotate_by_zero(signs);
}

/// The normals of the faces of the unit cuboid: four units long, along
/// the axis of the face, pointing into the cuboid.
pub proof fn unit_normals(face: int)
    requires
        0 <= face < 6,
    ensures
        Cube::<i64>::unit_spec().face_spec(face).scaled_normal_spec() == (Vector3 {
            x: if face_plane(face).0 == 0 {
                (-4 * face_plane(face).1) as i64
            } else {
                0
            },
            y: if face_plane(face).0 == 1 {
                (-4 * face_plane(face).1) as i64
            } else {
                0
            },
            z: if face_plane(face).0 == 2 {
                (-4 * face_plane(face).1) as i64
            } else {
                0
            },
        }),
{
    let rectangle = Cube::<i64>::unit_spec().face_spec(face);
    unit_corners(face_corners(face).0);
    unit_corners(face_corners(face).1);
    unit_corners(face_corners(face).3);
    let left = rectangle.bottom_left.sub_spec(rectangle.top_left);
    let top = rectangle.top_right.sub_spec(rectangle.top_left);
    small_difference(rectangle.bottom_left, rectangle.top_left);
    small_difference(rectangle.top_right, rectangle.top_left);
    small_cross(left, top);
    if face == 0 {
        assert(left == Vector3::<i64> { x: 0, y: 0, z: 2 });
        assert(top == Vector3::<i64> { x: -2i64, y: 0, z: 0 });
    } else if face == 1 {
        assert(left == Vector3::<i64> { x: 0, y: -2i64, z: 0 });
        assert(top == Vector3::<i64> { x: -2i64, y: 0, z: 0 });
    } else if face == 2 {
        assert(left == Vector3::<i64> { x: 0, y: -2i64, z: 0 });
        assert(top == Vector3::<i64> { x: 0, y: 0, z: -2i64 });
    } else if face == 3 {
        assert(left == Vector3::<i64> { x: 0, y: -2i64, z: 0 });
        assert(top == Vector3::<i64> { x: 2, y: 0, z: 0 });
    } else if face == 4 {
        assert(left == Vector3::<i64> { x: 0, y: -2i64, z: 0 });
        assert(top == Vector3::<i64> { x: 0, y: 0, z: 2 });
    } else {
        assert(left == Vector3::<i64> { x: 0, y: 0, z: -2i64 });
        assert(top == Vector3::<i64> { x: -2i64, y: 0, z: 0 });
    }
}

/// The cross product of two triples of small numbers, without wrapping.
proof fn small_cross(a: Vector3<i64>, b: Vector3<i64>)
    requires
        -2 <= a.x <= 2,
        -2 <= a.y <= 2,
        -2 <= a.z <= 2,
        -2 <= b.x <= 2,
        -2 <= b.y <= 2,
        -2 <= b.z <= 2,
    ensures
        a.cross_spec(b) == (Vector3 {
            x: (a.y * b.z - a.z * b.y) as i64,
            y: (a.z * b.x - a.x * b.z) as i64,
            z: (a.x * b.y - a.y * b.x) as i64,
        }),
{
    small_product(a.y, b.z);
    small_product(a.z, b.y);
    small_product(a.z, b.x);
    small_product(a.x, b.z);
    small_product(a.x, b.y);
    small_product(a.y, b.x);
    wrap_in_range(a.y * b.z - a.z * b.y);
    wrap_in_range(a.z * b.x - a.x * b.z);
    wrap_in_range(a.x * b.y - a.y * b.x);
}

/// The difference of two triples of small numbers, without wrapping.
proof fn small_difference(a: Vector3<i64>, b: Vector3<i64>)
    requires
        -1 <= a.x <= 1,
        -1 <= a.y <= 1,
        -1 <= a.z <= 1,
        -1 <= b.x <= 1,
        -1 <= b.y <= 1,
        -1 <= b.z <= 1,
    ensures
        a.sub_spec(b) == (Vector3 {
            x: (a.x - b.x) as i64,
            y: (a.y - b.y) as i64,
            z: (a.z - b.z) as i64,
        }),
{
    wrap_in_range(a.x - b.x);
    wrap_in_range(a.y - b.y);
    wrap_in_range(a.z - b.z);
}

/// The product of two small numbers, without wrapping.
proof fn small_product(a: i64, b: i64)
    requires
        -2 <= a <= 2,
        -2 <= b <= 2,
    ensures
        a.mul_spec(b) == a * b,
        -4 <= a * b <= 4,
{
    assert(-4 <= a * b <= 4) by (nonlinear_arith)
        requires
            -2 <= a <= 2,
            -2 <= b <= 2,
    ;
    wrap_in_range(a * b);
}

/// Of the faces of the unit cuboid, seen along z, the one at z = -1 is
/// culled and no other: the normals point into the cuboid, and a face seen
/// edge-on stays.
pub proof fn unit_culling(face: int)
    requires
        0 <= face < 6,
    ensures
        Cube::<i64>::unit_spec().face_spec(face).is_culled_spec() <==> face == 3,
{
    unit_normals(face);
    let normal = Cube::<i64>::unit_spec().face_spec(face).scaled_normal_spec();
    neutral_elements(normal.x);
    neutral_elements(normal.y);
    neutral_elements(normal.z);
}

/// The whole-number square root of a square is the number's distance from
/// zero.
proof fn sqrt_of_square(k: i64)
    requires
        -3037000499 <= k <= 3037000499,
    ensures
        k.mul_spec(k) == k * k,
        k.mul_spec(k).sqrt_spec() == magnitude(k as int),
{
    let m = magnitude(k as int);
    assert(k * k == m * m) by (nonlinear_arith)
        requires
            m == k || m == -k,
    ;
    assert(0 <= m * m <= 3037000499 * 3037000499) by (nonlinear_arith)
        requires
            0 <= m <= 3037000499,
    ;
    wrap_in_range(k * k);
    assert(is_floor_sqrt(k * k, m)) by (nonlinear_arith)
        requires
            0 <= m,
            k * k == m * m,
    ;
    floor_sqrt_unique(k * k, m, floor_sqrt(k * k));
}

/// A vector along the x axis, scaled to length one, has length one and
/// keeps its direction.
pub proof fn normalized_along_x(k: i64)
    requires
        k != 0,
        -3037000499 <= k <= 3037000499,
    ensures
        (Vector2 { x: k, y: 0i64 }).normalized_spec() == (Vector2 {
            x: if k > 0 {
                1i64
            } else {
                -1i64
            },
            y: 0i64,
        }),
        (Vector2 { x: k, y: 0i64 }).normalized_spec().length_spec() == 1,
{
    let v = Vector2 { x: k, y: 0i64 };
    let m = magnitude(k as int);
    sqrt_of_square(k);
    neutral_elements(0i64);
    neutral_elements(k.mul_spec(k));
    assert(k * k > 0) by (nonlinear_arith)
        requires
            k != 0,
    ;
    assert(v.length_squared_spec() == k * k);
    assert(v.length_spec() == m);
    assert(m / m == 1) by (nonlinear_arith)
        requires
            m > 0,
    ;
    assert(0int / m == 0) by (nonlinear_arith)
        requires
            m > 0,
    ;
    wrap_in_range(1);
    wrap_in_range(-1);
    wrap_in_range(0);
    let n = v.normalized_spec();
    assert(n.y == 0);
    assert(n.x == if k > 0 {
        1i64
    } else {
        -1i64
    });
    sqrt_of_square(n.x);
    neutral_elements(1i64);
}

/// The square that reaches one unit from the origin along x and y, wound
/// so that its inside counts as inside.
pub open spec fn full_square() -> Rectangle3D<i64> {
    Rectangle3D {
        top_left: Vector3 { x: -1i64, y: 1, z: 0 },
        top_right: Vector3 { x: 1, y: 1, z: 0 },
        bottom_right: Vector3 { x: 1, y: -1i64, z: 0 },
        bottom_left: Vector3 { x: -1i64, y: -1i64, z: 0 },
    }
}

/// Whatever the size of the grid, the pixel at its centre stands for the
/// origin, and the full square fills it.
pub proof fn centre_is_filled(width: u16, height: u16)
    ensures
        unproject_spec::<i64>((width / 2, height / 2), width, height) == (Vector2 {
            x: 0i64,
            y: 0i64,
        }),
        full_square().contains_spec(Vector2 { x: 0i64, y: 0i64 }),
        full_square().fills_spec((width / 2, height / 2), width, height),
{
    let half = half_size_spec::<i64>(width, height);
    let shorter = if width < height {
        width
    } else {
        height
    };
    assert(half == shorter / 2) by {
        wrap_in_range((shorter / 2) as int);
    }
    wrap_in_range(0);
    assert(unproject_spec::<i64>((width / 2, height / 2), width, height) == (Vector2 {
        x: 0i64,
        y: 0i64,
    }));
    let origin = Vector2 { x: 0i64, y: 0i64 };
    let square = full_square();
    assert(square.contains_spec(origin)) by {
        wrap_in_range(1);
        wrap_in_range(-1);
        wrap_in_range(2);
        wrap_in_range(-2);
        neutral_elements(1i64);
        neutral_elements(-1i64);
        neutral_elements(2i64);
        neutral_elements(-2i64);
        neutral_elements(0i64);
        assert(0i64.sub_spec(-1i64) == 1);
        assert(0i64.sub_spec(1i64) == -1);
        assert(1i64.sub_spec(-1i64) == 2);
        assert((-1i64).sub_spec(1i64) == -2);
        assert(1i64.sub_spec(1i64) == 0);
        assert((-1i64).sub_spec(-1i64) == 0);
    }
    assert(square.in_box_spec((width / 2, height / 2), width, height)) by {
        neutral_elements(half);
        neutral_elements(1i64);
        neutral_elements(-1i64);
        wrap_in_range(-1);
        wrap_in_range(-half);
        wrap_in_range(width / 2 - half);
        wrap_in_range(height / 2 - half);
        wrap_in_range(width / 2 + half);
        wrap_in_range(height / 2 + half);
        assert(square.bounding_min_spec() == Vector2 { x: -1i64, y: -1i64 });
        assert(square.bounding_max_spec() == Vector2 { x: 1i64, y: 1i64 });
        assert((-1i64).mul_spec(half) == -half);
        assert(1i64.mul_spec(half) == half);
    }
}

} // verus!
