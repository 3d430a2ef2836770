use term_cube::cube::{rainbow, Cube, Rectangle3D};
use term_cube::game::{Game, Input};
use term_cube::raster::{project, unproject, uv_color, uv_of};
use term_cube::scalar::Scalar;
use term_cube::terminal_renderer::{DrawBuffer, RgbColor};
use term_cube::vector2::Vector2;
use term_cube::vector3::Vector3;

#[derive(Clone, Copy, Debug, PartialEq)]
struct Real(f64);

impl Scalar for Real {
    fn from_u16_spec(v: u16) -> Self {
        Real(v as f64)
    }
    fn from_u16(v: u16) -> Self {
        Real(v as f64)
    }
    fn to_u16_spec(self) -> u16 {
        self.0 as u16
    }
    fn to_u16(self) -> u16 {
        self.0 as u16
    }
    fn to_u8_spec(self) -> u8 {
        self.0 as u8
    }
    fn to_u8(self) -> u8 {
        self.0 as u8
    }
    fn epsilon_spec() -> Self {
        Real(f64::EPSILON)
    }
    fn epsilon() -> Self {
        Real(f64::EPSILON)
    }
    fn add_spec(self, rhs: Self) -> Self {
        Real(self.0 + rhs.0)
    }
    fn add(self, rhs: Self) -> Self {
        Real(self.0 + rhs.0)
    }
    fn sub_spec(self, rhs: Self) -> Self {
        Real(self.0 - rhs.0)
    }
    fn sub(self, rhs: Self) -> Self {
        Real(self.0 - rhs.0)
    }
    fn mul_spec(self, rhs: Self) -> Self {
        Real(self.0 * rhs.0)
    }
    fn mul(self, rhs: Self) -> Self {
        Real(self.0 * rhs.0)
    }
    fn div_spec(self, rhs: Self) -> Self {
        Real(self.0 / rhs.0)
    }
    fn div(self, rhs: Self) -> Self {
        Real(self.0 / rhs.0)
    }
    fn sqrt_spec(self) -> Self {
        Real(self.0.sqrt())
    }
    fn sqrt(self) -> Self {
        Real(self.0.sqrt())
    }
    fn sin_degrees_spec(self) -> Self {
        Real((self.0 * std::f64::consts::PI / 180.).sin())
    }
    fn sin_degrees(self) -> Self {
        Real((self.0 * std::f64::consts::PI / 180.).sin())
    }
    fn cos_degrees_spec(self) -> Self {
        Real((self.0 * std::f64::consts::PI / 180.).cos())
    }
    fn cos_degrees(self) -> Self {
        Real((self.0 * std::f64::consts::PI / 180.).cos())
    }
    fn less_spec(self, rhs: Self) -> bool {
        self.0 < rhs.0
    }
    fn less(self, rhs: Self) -> bool {
        self.0 < rhs.0
    }
    fn less_eq_spec(self, rhs: Self) -> bool {
        self.0 <= rhs.0
    }
    fn less_eq(self, rhs: Self) -> bool {
        self.0 <= rhs.0
    }
    fn lesser_spec(self, rhs: Self) -> Self {
        Real(self.0.min(rhs.0))
    }
    fn lesser(self, rhs: Self) -> Self {
        Real(self.0.min(rhs.0))
    }
    fn greater_spec(self, rhs: Self) -> Self {
        Real(self.0.max(rhs.0))
    }
    fn greater(self, rhs: Self) -> Self {
        Real(self.0.max(rhs.0))
    }
}

fn v2(x: f64, y: f64) -> Vector2<Real> {
    Vector2::new(Real(x), Real(y))
}

fn v3(x: f64, y: f64, z: f64) -> Vector3<Real> {
    Vector3::new(Real(x), Real(y), Real(z))
}

fn close(a: Real, b: f64) -> bool {
    (a.0 - b).abs() < 1e-12
}

fn close3(a: Vector3<Real>, x: f64, y: f64, z: f64) -> bool {
    close(a.x, x) && close(a.y, y) && close(a.z, z)
}

/// A square, flat in the picture plane, wound so that the points in it pass
/// the interior test.
fn square(half: f64) -> Rectangle3D<Real> {
    Rectangle3D {
        top_left: v3(-half, half, 0.),
        top_right: v3(half, half, 0.),
        bottom_right: v3(half, -half, 0.),
        bottom_left: v3(-half, -half, 0.),
    }
}

const BLACK: RgbColor = RgbColor { r: 0, g: 0, b: 0 };

#[test]
fn dot_of_real_pairs() {
    let a = v2(1.5, 2.0);
    let b = v2(4.0, -0.5);
    assert_eq!(a.dot(&b), Real(5.0));
    assert_eq!(b.dot(&a), Real(5.0));
}

#[test]
fn real_dot_commutes_and_cross_changes_sign() {
    let a = v3(1.25, -2.5, 3.0);
    let b = v3(-0.5, 4.0, 0.75);
    assert_eq!(a.dot(&b), b.dot(&a));
    assert_eq!(a.dot(&b), Real(1.25 * -0.5 + -2.5 * 4.0 + 3.0 * 0.75));
    let ab = a.cross(&b);
    let ba = b.cross(&a).neg();
    assert!(close3(ab, ba.x.0, ba.y.0, ba.z.0));
    let x = -2.5 * 0.75 - 3.0 * 4.0;
    let y = 3.0 * -0.5 - 1.25 * 0.75;
    let z = 1.25 * 4.0 - -2.5 * -0.5;
    assert!(close3(ab, x, y, z));
}

#[test]
fn real_add_then_sub_returns() {
    let a = v3(0.1, 0.2, 0.3);
    let b = v3(1e3, -7.5, 0.7);
    let back = a.add(b).sub(b);
    assert!(close3(back, 0.1, 0.2, 0.3));
    let c = v2(0.1, 0.2).add(v2(5.5, -3.25)).sub(v2(5.5, -3.25));
    assert!(close(c.x, 0.1) && close(c.y, 0.2));
}

#[test]
fn componentwise_product_and_wedge() {
    let p = v2(2.0, 3.0).mul(v2(-1.0, 0.5));
    assert_eq!((p.x, p.y), (Real(-2.0), Real(1.5)));
    assert_eq!(v2(2.0, 3.0).wedge_product(&v2(5.0, 7.0)), Real(2.0 * 7.0 - 3.0 * 5.0));
    let q = v3(2.0, 3.0, 4.0).mul(v3(-1.0, 0.5, 0.25));
    assert_eq!((q.x, q.y, q.z), (Real(-2.0), Real(1.5), Real(1.0)));
}

#[test]
fn min_max_by_component() {
    let a = v2(1.0, -4.0);
    let b = v2(-2.0, 3.0);
    let lo = a.min(&b);
    let hi = a.max(&b);
    assert_eq!((lo.x, lo.y), (Real(-2.0), Real(-4.0)));
    assert_eq!((hi.x, hi.y), (Real(1.0), Real(3.0)));
}

#[test]
fn rotate_by_zero_is_identity() {
    let v = v3(0.3, -1.7, 2.9);
    let r = v.rotate_euler(&v3(0., 0., 0.));
    assert_eq!((r.x, r.y, r.z), (Real(0.3), Real(-1.7), Real(2.9)));
}

#[test]
fn rotation_runs_x_then_y_then_z() {
    // About x the y axis goes to z; about y that z goes to x.
    let r = v3(0., 1., 0.).rotate_euler(&v3(90., 90., 0.));
    assert!(close3(r, 1., 0., 0.));
    // About z the x axis goes to y.
    let s = v3(1., 0., 0.).rotate_euler(&v3(0., 0., 90.));
    assert!(close3(s, 0., 1., 0.));
    let t = v3(1., 2., 3.).rotate_euler(&v3(30., 0., 0.));
    let (c, sn) = (30f64.to_radians().cos(), 30f64.to_radians().sin());
    assert!(close3(t, 1., 2. * c - 3. * sn, 3. * c + 2. * sn));
}

#[test]
fn single_axis_round_trip() {
    let v = v3(0.3, -1.7, 2.9);
    let x = v.rotate_euler(&v3(37., 0., 0.)).rotate_euler(&v3(-37., 0., 0.));
    assert!(close3(x, 0.3, -1.7, 2.9));
    let y = v.rotate_euler(&v3(0., 112., 0.)).rotate_euler(&v3(0., -112., 0.));
    assert!(close3(y, 0.3, -1.7, 2.9));
    let z = v.rotate_euler(&v3(0., 0., -5.)).rotate_euler(&v3(0., 0., 5.));
    assert!(close3(z, 0.3, -1.7, 2.9));
}

#[test]
fn normalized_has_length_one_or_is_zero() {
    let n = v2(3., 4.).normalized();
    assert!(close(n.x, 0.6) && close(n.y, 0.8));
    assert!(close(n.length(), 1.0));
    assert_eq!(v2(3., 4.).length(), Real(5.0));
    let tiny = v2(1e-9, 0.).normalized();
    assert_eq!((tiny.x, tiny.y), (Real(0.), Real(0.)));
    let zero = v2(0., 0.).normalized();
    assert_eq!((zero.x, zero.y), (Real(0.), Real(0.)));
    let small = v2(1e-7, 0.).normalized();
    assert!(close(small.length(), 1.0));
}

#[test]
fn unit_cuboid_corners_and_planes() {
    let faces = Cube::<Real>::unit().get_faces();
    let mut seen: Vec<(i32, i32, i32)> = Vec::new();
    for face in faces.iter() {
        for corner in [face.top_left, face.top_right, face.bottom_right, face.bottom_left] {
            assert!(corner.x.0.abs() == 1. && corner.y.0.abs() == 1. && corner.z.0.abs() == 1.);
            let key = (corner.x.0 as i32, corner.y.0 as i32, corner.z.0 as i32);
            if !seen.contains(&key) {
                seen.push(key);
            }
        }
    }
    assert_eq!(seen.len(), 8);
    let on = |face: &Rectangle3D<Real>, pick: fn(&Vector3<Real>) -> f64, value: f64| {
        [face.top_left, face.top_right, face.bottom_right, face.bottom_left]
            .iter()
            .all(|c| pick(c) == value)
    };
    assert!(on(&faces[0], |c| c.y.0, 1.));
    assert!(on(&faces[1], |c| c.z.0, 1.));
    assert!(on(&faces[2], |c| c.x.0, -1.));
    assert!(on(&faces[3], |c| c.z.0, -1.));
    assert!(on(&faces[4], |c| c.x.0, 1.));
    assert!(on(&faces[5], |c| c.y.0, -1.));
    let top = &faces[0];
    assert_eq!((top.top_left.x, top.top_left.z), (Real(1.), Real(-1.)));
    assert_eq!((top.top_right.x, top.top_right.z), (Real(-1.), Real(-1.)));
    assert_eq!((top.bottom_right.x, top.bottom_right.z), (Real(-1.), Real(1.)));
    assert_eq!((top.bottom_left.x, top.bottom_left.z), (Real(1.), Real(1.)));
}

#[test]
fn cuboid_pose_moves_scales_and_turns_corners() {
    let cube = Cube { pos: v3(10., 20., 30.), size: v3(1., 2., 3.), euler_angles: v3(0., 0., 90.) };
    let faces = cube.get_faces();
    // Corner (+, +, +) is (1, 2, 3) before the turn, (-2, 1, 3) after it.
    assert!(close3(faces[1].top_left, 8., 21., 33.));
    // Corner (-, -, -) is (-1, -2, -3) before the turn, (2, -1, -3) after it.
    assert!(close3(faces[5].bottom_right, 12., 19., 27.));
}

#[test]
fn unit_cuboid_normals_and_culling() {
    let faces = Cube::<Real>::unit().get_faces();
    let normals: Vec<(f64, f64, f64)> = faces
        .iter()
        .map(|f| {
            let n = f.scaled_normal();
            (n.x.0, n.y.0, n.z.0)
        })
        .collect();
    assert_eq!(
        normals,
        vec![
            (0., -4., 0.),
            (0., 0., -4.),
            (4., 0., 0.),
            (0., 0., 4.),
            (-4., 0., 0.),
            (0., 4., 0.)
        ]
    );
    let culled: Vec<bool> = faces.iter().map(|f| f.is_culled()).collect();
    assert_eq!(culled, vec![false, false, false, true, false, false]);
}

#[test]
fn projection_and_its_inverse() {
    assert_eq!(project(v2(0., 0.), 8, 8), (4, 4));
    assert_eq!(project(v2(-1., -1.), 8, 8), (0, 0));
    assert_eq!(project(v2(1., 1.), 8, 8), (8, 8));
    assert_eq!(project(v2(0.5, -0.5), 8, 8), (6, 2));
    // The shorter side sets the scale; the centre is half of each side.
    assert_eq!(project(v2(1., 1.), 20, 10), (15, 10));
    assert_eq!(project(v2(-1., -1.), 20, 10), (5, 0));
    // Left of or above the grid lands on the first column or row.
    assert_eq!(project(v2(-3., -3.), 8, 8), (0, 0));
    let p: Vector2<Real> = unproject((6, 2), 8, 8);
    assert_eq!((p.x, p.y), (Real(0.5), Real(-0.5)));
    let q: Vector2<Real> = unproject((15, 10), 20, 10);
    assert_eq!((q.x, q.y), (Real(1.), Real(1.)));
    for column in 0..8u16 {
        for row in 0..8u16 {
            let point: Vector2<Real> = unproject((column, row), 8, 8);
            assert_eq!(project(point, 8, 8), (column, row));
        }
    }
}

#[test]
fn centre_of_a_full_square_is_inside() {
    let face = square(1.);
    let centre: Vector2<Real> = unproject((4, 4), 8, 8);
    assert_eq!((centre.x, centre.y), (Real(0.), Real(0.)));
    assert!(face.contains(&centre));
    assert!(face.contains(&v2(1., 1.)));
    assert!(face.contains(&v2(-1., 0.3)));
    assert!(!face.contains(&v2(1.01, 0.)));
    assert!(!face.contains(&v2(0., -1.5)));
}

#[test]
fn reversed_winding_contains_nothing() {
    let face = Rectangle3D {
        top_left: v3(1., 1., 0.),
        top_right: v3(-1., 1., 0.),
        bottom_right: v3(-1., -1., 0.),
        bottom_left: v3(1., -1., 0.),
    };
    assert!(!face.contains(&v2(0., 0.)));
    assert!(!face.contains(&v2(0.5, -0.25)));
}

#[test]
fn weights_sum_to_one() {
    let face = Rectangle3D {
        top_left: v3(-0.9, 0.8, 0.),
        top_right: v3(0.7, 1.0, 0.),
        bottom_right: v3(1.0, -0.6, 0.),
        bottom_left: v3(-0.5, -0.9, 0.),
    };
    for (x, y) in [(0., 0.), (0.3, -0.2), (-0.4, 0.5), (0.6, 0.1)] {
        let w = face.barycentric(&v2(x, y));
        let sum = w[0].0 + w[1].0 + w[2].0 + w[3].0;
        assert!((sum - 1.).abs() < 1e-12);
        assert!(w.iter().all(|v| v.0 > 0.));
    }
    let at_origin = face.barycentric(&v2(0., 0.));
    let expected = [
        0.3304185194829762,
        0.21790489340340896,
        0.19162940287728364,
        0.2600471842363312,
    ];
    for i in 0..4 {
        assert!(close(at_origin[i], expected[i]));
    }
}

#[test]
fn weights_follow_the_formula() {
    // Corner vectors from the point (0, 0) of a 4 by 2 rectangle.
    let face = Rectangle3D {
        top_left: v3(-3., 1., 0.),
        top_right: v3(1., 1., 0.),
        bottom_right: v3(1., -1., 0.),
        bottom_left: v3(-3., -1., 0.),
    };
    let s = [(-3f64, -1f64), (1., -1.), (1., 1.), (-3., 1.)];
    let len = |v: (f64, f64)| (v.0 * v.0 + v.1 * v.1).sqrt();
    let mut t = [0f64; 4];
    for i in 0..4 {
        let (a, b) = (s[i], s[(i + 1) % 4]);
        t[i] = (len(a) * len(b) - (a.0 * b.0 + a.1 * b.1)) / (a.0 * b.1 - a.1 * b.0);
    }
    let mut mu = [0f64; 4];
    for i in 0..4 {
        mu[i] = t[(i + 3) % 4] * t[i] / len(s[i]);
    }
    let sum = mu[0] + mu[1] + mu[2] + mu[3];
    let w = face.barycentric(&v2(0., 0.));
    for i in 0..4 {
        assert!(close(w[i], mu[i] / sum));
    }
    // The nearer corners weigh more.
    assert!(w[1].0 > w[0].0 && w[2].0 > w[3].0);
}

#[test]
fn weights_at_the_centre_of_a_rectangle() {
    let face = Rectangle3D {
        top_left: v3(-2., 1., 0.),
        top_right: v3(2., 1., 0.),
        bottom_right: v3(2., -1., 0.),
        bottom_left: v3(-2., -1., 0.),
    };
    let w = face.barycentric(&v2(0., 0.));
    assert!(w.iter().all(|v| close(*v, 0.25)));
    let uv = uv_of(&w);
    assert!(close(uv.x, 0.5) && close(uv.y, 0.5));
    assert_eq!(uv_color(&uv), RgbColor { r: 127, g: 127, b: 0 });
}

#[test]
fn uv_follows_the_corner_order() {
    let one = Real(1.);
    let zero = Real(0.);
    let at = |i: usize| {
        let mut w = [zero; 4];
        w[i] = one;
        let uv = uv_of(&w);
        (uv.x.0, uv.y.0)
    };
    assert_eq!(at(0), (0., 0.));
    assert_eq!(at(1), (1., 0.));
    assert_eq!(at(2), (1., 1.));
    assert_eq!(at(3), (0., 1.));
    assert_eq!(uv_color(&v2(1., 0.25)), RgbColor { r: 255, g: 63, b: 0 });
    assert_eq!(uv_color(&v2(2., -1.)), RgbColor { r: 255, g: 0, b: 0 });
}

#[test]
fn square_face_fills_its_pixels_and_no_others() {
    let face = square(0.5);
    let mut buffer = DrawBuffer::new((8, 8));
    face.render(&mut buffer, 1);
    for column in 0..8u16 {
        for row in 0..8u16 {
            let color = buffer.get_color(column, row);
            let corner = (column == 2 || column == 6) && (row == 2 || row == 6);
            let point: Vector2<Real> = unproject((column, row), 8, 8);
            if corner {
                assert_eq!(color, rainbow(1));
            } else if face.contains(&point) {
                assert!((2..=6).contains(&column) && (2..=6).contains(&row));
                assert_eq!(color, face.color_at(&point));
            } else {
                assert!(!((2..=6).contains(&column) && (2..=6).contains(&row)));
                assert_eq!(color, BLACK);
            }
        }
    }
    assert_eq!(buffer.get_color(4, 4), RgbColor { r: 127, g: 127, b: 0 });
    assert_eq!(buffer.get_color(3, 3), RgbColor { r: 40, g: 40, b: 0 });
    assert_eq!(buffer.get_color(2, 2), RgbColor { r: 0, g: 255, b: 0 });
    assert_eq!(buffer.get_color(1, 4), BLACK);
    assert_eq!(buffer.get_color(7, 7), BLACK);
}

#[test]
fn face_larger_than_the_grid_is_clipped() {
    let face = square(3.);
    let mut buffer = DrawBuffer::new((6, 4));
    face.render(&mut buffer, 0);
    assert_eq!(buffer.buffer.len(), 6 * 4 * 3);
    for column in 0..6u16 {
        for row in 0..4u16 {
            let point: Vector2<Real> = unproject((column, row), 6, 4);
            assert!(face.contains(&point));
            if (column, row) != (0, 0) {
                assert_eq!(buffer.get_color(column, row), face.color_at(&point));
            }
        }
    }
    // The corner at (-3, -3) lands on the first column and row; the other
    // three land beyond the grid.
    assert_eq!(buffer.get_color(0, 0), rainbow(0));
    assert_eq!(buffer.get_color(3, 2), RgbColor { r: 127, g: 127, b: 0 });
}

#[test]
fn reversed_square_leaves_only_its_corners() {
    let face = Rectangle3D {
        top_left: v3(0.5, 0.5, 0.),
        top_right: v3(-0.5, 0.5, 0.),
        bottom_right: v3(-0.5, -0.5, 0.),
        bottom_left: v3(0.5, -0.5, 0.),
    };
    // The normal of this winding points away from the viewer's direction,
    // that of the filled square along it.
    assert!(!face.is_culled());
    assert!(square(0.5).is_culled());
    let mut buffer = DrawBuffer::new((8, 8));
    face.render(&mut buffer, 3);
    for column in 0..8u16 {
        for row in 0..8u16 {
            let corner = (column == 2 || column == 6) && (row == 2 || row == 6);
            let expected = if corner { rainbow(3) } else { BLACK };
            assert_eq!(buffer.get_color(column, row), expected);
        }
    }
}

#[test]
fn cuboid_render_skips_the_culled_face() {
    let cube = Cube { pos: v3(0., 0., 0.), size: v3(0.5, 0.5, 0.5), euler_angles: v3(0., 0., 0.) };
    let mut whole = DrawBuffer::new((8, 8));
    cube.render(&mut whole);
    let mut by_hand = DrawBuffer::new((8, 8));
    for (index, face) in cube.get_faces().iter().enumerate() {
        if index != 3 {
            face.render(&mut by_hand, index);
        }
    }
    assert_eq!(whole.buffer, by_hand.buffer);
    let mut all = DrawBuffer::new((8, 8));
    for (index, face) in cube.get_faces().iter().enumerate() {
        face.render(&mut all, index);
    }
    assert_ne!(whole.buffer, all.buffer);
    // The last face drawn owns the corner pixels.
    assert_eq!(whole.get_color(2, 2), rainbow(5));
    assert_eq!(whole.get_color(6, 6), rainbow(4));
}


#[test]
fn frame_shows_the_half_unit_cuboid() {
    let mut game: Game<Real> = Game::new((8, 8));
    game.handle(Input::LeftDown(0, 0));
    game.handle(Input::LeftDrag(30, 20));
    let turned = (game.rotation.x, game.rotation.y, game.rotation.z);
    assert_eq!(turned, (Real(-20.), Real(30.), Real(0.)));
    game.draw_buffer.set_color(0, 0, RgbColor { r: 9, g: 9, b: 9 });
    game.update((8, 8));
    let cube = Cube {
        pos: v3(0., 0., 0.),
        size: v3(0.5, 0.5, 0.5),
        euler_angles: v3(-20., 30., 0.),
    };
    let mut expected = DrawBuffer::new((8, 8));
    cube.render(&mut expected);
    assert_eq!(game.draw_buffer.buffer, expected.buffer);
    assert_eq!(game.draw_buffer.get_color(0, 0), BLACK);
    assert!(game.draw_buffer.buffer.iter().any(|b| *b != 0));
}
