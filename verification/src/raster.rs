//! Drawing faces into the pixel grid.
//!
//! The picture plane spans -1 to 1 along the shorter side of the grid, with
//! the origin at the centre pixel. Depth is dropped: the projection is
//! orthographic.

use crate::cube::{dimmed, rainbow, rainbow_spec, Cube, Rectangle3D};
use crate::scalar::{one, one_spec, zero, zero_spec, Scalar};
use crate::terminal_renderer::{DrawBuffer, RgbColor};
use crate::vector2::Vector2;
use vstd::prelude::*;

verus! {

/// Half the shorter side of the grid, in pixels.
pub open spec fn half_size_spec<T: Scalar>(width: u16, height: u16) -> T {
    T::from_u16_spec(
        if width < height {
            width
        } else {
            height
        },
    ).div_spec(T::from_u16_spec(2))
}

/// The pixel that a point of the picture plane falls on.
pub open spec fn project_spec<T: Scalar>(v: Vector2<T>, width: u16, height: u16) -> (u16, u16) {
    (
        v.x.mul_spec(half_size_spec::<T>(width, height)).add_spec(
            T::from_u16_spec(width / 2),
        ).to_u16_spec(),
        v.y.mul_spec(half_size_spec::<T>(width, height)).add_spec(
            T::from_u16_spec(height / 2),
        ).to_u16_spec(),
    )
}

/// The point of the picture plane that a pixel stands for.
pub open spec fn unproject_spec<T: Scalar>(pixel: (u16, u16), width: u16, height: u16) -> Vector2<
    T,
> {
    Vector2 {
        x: T::from_u16_spec(pixel.0).sub_spec(T::from_u16_spec(width / 2)).div_spec(
            half_size_spec::<T>(width, height),
        ),
        y: T::from_u16_spec(pixel.1).sub_spec(T::from_u16_spec(height / 2)).div_spec(
            half_size_spec::<T>(width, height),
        ),
    }
}

/// On which side of the edge from `start` to `end` the point lies: the wedge
/// product of the point, seen from `start`, with the edge.
pub open spec fn edge_side_spec<T: Scalar>(
    point: Vector2<T>,
    start: Vector2<T>,
    end: Vector2<T>,
) -> T {
    point.sub_spec(start).wedge_spec(end.sub_spec(start))
}

/// The tangent of half the angle between `a` and `b`.
pub open spec fn half_angle_tangent_spec<T: Scalar>(a: Vector2<T>, b: Vector2<T>) -> T {
    a.length_spec().mul_spec(b.length_spec()).sub_spec(a.dot_spec(b)).div_spec(a.wedge_spec(b))
}

/// The weight of a corner before the four are scaled to sum to one, from
/// the half-angle tangents of the angles on both sides of the corner and
/// the vector `to_corner` from the sample point.
pub open spec fn raw_weight_spec<T: Scalar>(before: T, after: T, to_corner: Vector2<T>) -> T {
    before.mul_spec(after).div_spec(to_corner.length_spec())
}

/// The interpolated texture coordinate for four corner weights in the order
/// bottom-left, bottom-right, top-right, top-left, whose own coordinates are
/// (0, 0), (1, 0), (1, 1) and (0, 1).
pub open spec fn uv_spec<T: Scalar>(weights: Seq<T>) -> Vector2<T> {
    let o = zero_spec::<T>();
    let i = one_spec::<T>();
    let bottom_left = (Vector2 { x: o, y: o }).mul_spec(Vector2 { x: weights[0], y: weights[0] });
    let bottom_right = (Vector2 { x: i, y: o }).mul_spec(Vector2 { x: weights[1], y: weights[1] });
    let top_right = (Vector2 { x: i, y: i }).mul_spec(Vector2 { x: weights[2], y: weights[2] });
    let top_left = (Vector2 { x: o, y: i }).mul_spec(Vector2 { x: weights[3], y: weights[3] });
    bottom_left.add_spec(bottom_right).add_spec(top_right).add_spec(top_left)
}

/// The colour that shows a texture coordinate: red for u, green for v.
pub open spec fn uv_color_spec<T: Scalar>(uv: Vector2<T>) -> RgbColor {
    RgbColor {
        r: uv.x.mul_spec(T::from_u16_spec(255)).to_u8_spec(),
        g: uv.y.mul_spec(T::from_u16_spec(255)).to_u8_spec(),
        b: 0,
    }
}

pub fn half_size<T: Scalar>(width: u16, height: u16) -> (r: T)
    ensures
        r == half_size_spec::<T>(width, height),
{
    let shorter: u16 = if width < height {
        width
    } else {
        height
    };
    T::from_u16(shorter).div(T::from_u16(2))
}

pub fn project<T: Scalar>(v: Vector2<T>, width: u16, height: u16) -> (pixel: (u16, u16))
    ensures
        pixel == project_spec(v, width, height),
{
    let half: T = half_size(width, height);
    (
        v.x.mul(half).add(T::from_u16(width / 2)).to_u16(),
        v.y.mul(half).add(T::from_u16(height / 2)).to_u16(),
    )
}

pub fn unproject<T: Scalar>(pixel: (u16, u16), width: u16, height: u16) -> (v: Vector2<T>)
    ensures
        v == unproject_spec::<T>(pixel, width, height),
{
    let half: T = half_size(width, height);
    Vector2 {
        x: T::from_u16(pixel.0).sub(T::from_u16(width / 2)).div(half),
        y: T::from_u16(pixel.1).sub(T::from_u16(height / 2)).div(half),
    }
}

fn edge_side<T: Scalar>(point: &Vector2<T>, start: &Vector2<T>, end: &Vector2<T>) -> (r: T)
    ensures
        r == edge_side_spec(*point, *start, *end),
{
    point.sub(*start).wedge_product(&end.sub(*start))
}

fn half_angle_tangent<T: Scalar>(a: &Vector2<T>, b: &Vector2<T>) -> (r: T)
    ensures
        r == half_angle_tangent_spec(*a, *b),
{
    a.length().mul(b.length()).sub(a.dot(b)).div(a.wedge_product(b))
}

fn raw_weight<T: Scalar>(before: T, after: T, to_corner: &Vector2<T>) -> (r: T)
    ensures
        r == raw_weight_spec(before, after, *to_corner),
{
    before.mul(after).div(to_corner.length())
}

pub fn uv_of<T: Scalar>(weights: &[T; 4]) -> (uv: Vector2<T>)
    ensures
        uv == uv_spec(weights@),
{
    let o: T = zero();
    let i: T = one();
    let bottom_left = Vector2::new(o, o).mul(Vector2::new(weights[0], weights[0]));
    let bottom_right = Vector2::new(i, o).mul(Vector2::new(weights[1], weights[1]));
    let top_right = Vector2::new(i, i).mul(Vector2::new(weights[2], weights[2]));
    let top_left = Vector2::new(o, i).mul(Vector2::new(weights[3], weights[3]));
    bottom_left.add(bottom_right).add(top_right).add(top_left)
}

pub fn uv_color<T: Scalar>(uv: &Vector2<T>) -> (color: RgbColor)
    ensures
        color == uv_color_spec(*uv),
{
    RgbColor {
        r: uv.x.mul(T::from_u16(255)).to_u8(),
        g: uv.y.mul(T::from_u16(255)).to_u8(),
        b: 0,
    }
}

impl<T: Scalar> Rectangle3D<T> {
    /// The least x and the least y among the four corners.
    pub open spec fn bounding_min_spec(self) -> Vector2<T> {
        self.top_left.xy_spec().min_spec(self.top_right.xy_spec()).min_spec(
            self.bottom_right.xy_spec(),
        ).min_spec(self.bottom_left.xy_spec())
    }

    /// The greatest x and the greatest y among the four corners.
    pub open spec fn bounding_max_spec(self) -> Vector2<T> {
        self.top_left.xy_spec().max_spec(self.top_right.xy_spec()).max_spec(
            self.bottom_right.xy_spec(),
        ).max_spec(self.bottom_left.xy_spec())
    }

    /// Whether a point of the picture plane lies in the face: on the inner
    /// side of, or on, each of the four edges taken in the order of the
    /// corners.
    pub open spec fn contains_spec(self, point: Vector2<T>) -> bool {
        let top_left = self.top_left.xy_spec();
        let top_right = self.top_right.xy_spec();
        let bottom_right = self.bottom_right.xy_spec();
        let bottom_left = self.bottom_left.xy_spec();
        &&& zero_spec::<T>().less_eq_spec(edge_side_spec(point, top_left, top_right))
        &&& zero_spec::<T>().less_eq_spec(edge_side_spec(point, top_right, bottom_right))
        &&& zero_spec::<T>().less_eq_spec(edge_side_spec(point, bottom_right, bottom_left))
        &&& zero_spec::<T>().less_eq_spec(edge_side_spec(point, bottom_left, top_left))
    }

    /// The mean-value weights of the corners at a point, in the order
    /// bottom-left, bottom-right, top-right, top-left, scaled to sum to one.
    pub open spec fn weights_spec(self, point: Vector2<T>) -> Seq<T> {
        let s0 = self.bottom_left.xy_spec().sub_spec(point);
        let s1 = self.bottom_right.xy_spec().sub_spec(point);
        let s2 = self.top_right.xy_spec().sub_spec(point);
        let s3 = self.top_left.xy_spec().sub_spec(point);
        let t0 = half_angle_tangent_spec(s0, s1);
        let t1 = half_angle_tangent_spec(s1, s2);
        let t2 = half_angle_tangent_spec(s2, s3);
        let t3 = half_angle_tangent_spec(s3, s0);
        let mu0 = raw_weight_spec(t3, t0, s0);
        let mu1 = raw_weight_spec(t0, t1, s1);
        let mu2 = raw_weight_spec(t1, t2, s2);
        let mu3 = raw_weight_spec(t2, t3, s3);
        let sum = mu0.add_spec(mu1).add_spec(mu2).add_spec(mu3);
        seq![mu0.div_spec(sum), mu1.div_spec(sum), mu2.div_spec(sum), mu3.div_spec(sum)]
    }

    /// The colour of the face at a point of the picture plane.
    pub open spec fn color_at_spec(self, point: Vector2<T>) -> RgbColor {
        uv_color_spec(uv_spec(self.weights_spec(point)))
    }

    pub fn bounding_box(&self) -> (r: (Vector2<T>, Vector2<T>))
        ensures
            r.0 == self.bounding_min_spec(),
            r.1 == self.bounding_max_spec(),
    {
        let top_left = self.top_left.xy();
        let top_right = self.top_right.xy();
        let bottom_right = self.bottom_right.xy();
        let bottom_left = self.bottom_left.xy();
        (
            top_left.min(&top_right).min(&bottom_right).min(&bottom_left),
            top_left.max(&top_right).max(&bottom_right).max(&bottom_left),
        )
    }

    pub fn contains(&self, point: &Vector2<T>) -> (r: bool)
        ensures
            r == self.contains_spec(*point),
    {
        let top_left = self.top_left.xy();
        let top_right = self.top_right.xy();
        let bottom_right = self.bottom_right.xy();
        let bottom_left = self.bottom_left.xy();
        zero::<T>().less_eq(edge_side(point, &top_left, &top_right)) && zero::<T>().less_eq(
            edge_side(point, &top_right, &bottom_right),
        ) && zero::<T>().less_eq(edge_side(point, &bottom_right, &bottom_left))
            && zero::<T>().less_eq(edge_side(point, &bottom_left, &top_left))
    }

    /// Mean-value coordinates of a point in the face, after "A Quadrilateral
    /// Rendering Primitive" (Hormann and Tarini).
    pub fn barycentric(&self, point: &Vector2<T>) -> (weights: [T; 4])
        ensures
            weights@ == self.weights_spec(*point),
    {
        let s0 = self.bottom_left.xy().sub(*point);
        let s1 = self.bottom_right.xy().sub(*point);
        let s2 = self.top_right.xy().sub(*point);
        let s3 = self.top_left.xy().sub(*point);
        let t0 = half_angle_tangent(&s0, &s1);
        let t1 = half_angle_tangent(&s1, &s2);
        let t2 = half_angle_tangent(&s2, &s3);
        let t3 = half_angle_tangent(&s3, &s0);
        let mu0 = raw_weight(t3, t0, &s0);
        let mu1 = raw_weight(t0, t1, &s1);
        let mu2 = raw_weight(t1, t2, &s2);
        let mu3 = raw_weight(t2, t3, &s3);
        let sum = mu0.add(mu1).add(mu2).add(mu3);
        let weights: [T; 4] = [mu0.div(sum), mu1.div(sum), mu2.div(sum), mu3.div(sum)];
        assert(weights@ =~= self.weights_spec(*point));
        weights
    }

    pub fn color_at(&self, point: &Vector2<T>) -> (color: RgbColor)
        ensures
            color == self.color_at_spec(*point),
    {
        let weights = self.barycentric(point);
        let uv = uv_of(&weights);
        uv_color(&uv)
    }
}

impl<T: Scalar> Rectangle3D<T> {
    /// Whether a pixel lies in the box round the face: between the pixels of
    /// the least and the greatest corner coordinates, both included.
    pub open spec fn in_box_spec(self, pixel: (u16, u16), width: u16, height: u16) -> bool {
        let first = project_spec(self.bounding_min_spec(), width, height);
        let last = project_spec(self.bounding_max_spec(), width, height);
        first.0 <= pixel.0 <= last.0 && first.1 <= pixel.1 <= last.1
    }

    /// Whether a pixel takes the colour of the face: it lies in the box and
    /// the point it stands for lies in the face.
    pub open spec fn fills_spec(self, pixel: (u16, u16), width: u16, height: u16) -> bool {
        self.in_box_spec(pixel, width, height) && self.contains_spec(
            unproject_spec(pixel, width, height),
        )
    }

    /// Whether a pixel is the pixel of one of the four corners.
    pub open spec fn marks_spec(self, pixel: (u16, u16), width: u16, height: u16) -> bool {
        ||| pixel == project_spec(self.top_left.xy_spec(), width, height)
        ||| pixel == project_spec(self.top_right.xy_spec(), width, height)
        ||| pixel == project_spec(self.bottom_left.xy_spec(), width, height)
        ||| pixel == project_spec(self.bottom_right.xy_spec(), width, height)
    }

    /// The picture while the box is being filled column by column: of the
    /// pixels that the face fills, those in columns before `column`, and
    /// those in that column in rows before `row`, have their colour.
    pub open spec fn filling_spec(
        self,
        before: Map<(u16, u16), RgbColor>,
        width: u16,
        height: u16,
        column: int,
        row: int,
    ) -> Map<(u16, u16), RgbColor> {
        Map::new(
            |p: (u16, u16)| before.dom().contains(p),
            |p: (u16, u16)|
                if self.fills_spec(p, width, height) && (p.0 < column || (p.0 == column && p.1
                    < row)) {
                    self.color_at_spec(unproject_spec(p, width, height))
                } else {
                    before[p]
                },
        )
    }

    /// The picture after the face is drawn over `before`. A corner pixel has
    /// the palette colour of the face; any other pixel that the face fills
    /// has the colour of the face at that point; every other pixel is as it
    /// was.
    pub open spec fn painted_spec(
        self,
        before: Map<(u16, u16), RgbColor>,
        width: u16,
        height: u16,
        index: usize,
    ) -> Map<(u16, u16), RgbColor> {
        Map::new(
            |p: (u16, u16)| before.dom().contains(p),
            |p: (u16, u16)|
                if self.marks_spec(p, width, height) {
                    rainbow_spec(index as int)
                } else if self.fills_spec(p, width, height) {
                    self.color_at_spec(unproject_spec(p, width, height))
                } else {
                    before[p]
                },
        )
    }

    /// Draws the face into the grid: fills it, then marks its corners.
    pub fn render(&self, draw_buffer: &mut DrawBuffer, index: usize)
        requires
            old(draw_buffer).wf(),
        ensures
            final(draw_buffer).wf(),
            final(draw_buffer).width == old(draw_buffer).width,
            final(draw_buffer).height == old(draw_buffer).height,
            final(draw_buffer)@ == self.painted_spec(
                old(draw_buffer)@,
                old(draw_buffer).width,
                old(draw_buffer).height,
                index,
            ),
    {
        let width: u16 = draw_buffer.width;
        let height: u16 = draw_buffer.height;
        let ghost before = draw_buffer@;

        let bounding_box = self.bounding_box();
        let first: (u16, u16) = project(bounding_box.0, width, height);
        let last: (u16, u16) = project(bounding_box.1, width, height);

        assert(draw_buffer@ =~= self.filling_spec(
            before,
            width,
            height,
            first.0 as int,
            first.1 as int,
        ));
        let mut column: u32 = first.0 as u32;
        while column <= last.0 as u32
            invariant
                first.0 <= column,
                column <= last.0 + 1 || column == first.0,
                first == project_spec(self.bounding_min_spec(), width, height),
                last == project_spec(self.bounding_max_spec(), width, height),
                draw_buffer.wf(),
                draw_buffer.width == width,
                draw_buffer.height == height,
                before.dom() == draw_buffer@.dom(),
                draw_buffer@ == self.filling_spec(
                    before,
                    width,
                    height,
                    column as int,
                    first.1 as int,
                ),
            decreases last.0 + 1 - column,
        {
            let mut row: u32 = first.1 as u32;
            while row <= last.1 as u32
                invariant
                    first.0 <= column <= last.0,
                    first.1 <= row,
                    row <= last.1 + 1 || row == first.1,
                    first == project_spec(self.bounding_min_spec(), width, height),
                    last == project_spec(self.bounding_max_spec(), width, height),
                    draw_buffer.wf(),
                    draw_buffer.width == width,
                    draw_buffer.height == height,
                    before.dom() == draw_buffer@.dom(),
                    draw_buffer@ == self.filling_spec(
                        before,
                        width,
                        height,
                        column as int,
                        row as int,
                    ),
                decreases last.1 + 1 - row,
            {
                let pixel: (u16, u16) = (column as u16, row as u16);
                let point: Vector2<T> = unproject(pixel, width, height);
                if self.contains(&point) {
                    draw_buffer.set_color(pixel.0, pixel.1, dimmed(rainbow(index)));
                    draw_buffer.set_color(pixel.0, pixel.1, self.color_at(&point));
                }
                row += 1;
                assert(draw_buffer@ =~= self.filling_spec(
                    before,
                    width,
                    height,
                    column as int,
                    row as int,
                ));
            }
            column += 1;
            assert(draw_buffer@ =~= self.filling_spec(
                before,
                width,
                height,
                column as int,
                first.1 as int,
            ));
        }

        let color: RgbColor = rainbow(index);
        let top_left: (u16, u16) = project(self.top_left.xy(), width, height);
        let top_right: (u16, u16) = project(self.top_right.xy(), width, height);
        let bottom_left: (u16, u16) = project(self.bottom_left.xy(), width, height);
        let bottom_right: (u16, u16) = project(self.bottom_right.xy(), width, height);
        draw_buffer.set_color(top_left.0, top_left.1, color);
        draw_buffer.set_color(top_right.0, top_right.1, color);
        draw_buffer.set_color(bottom_left.0, bottom_left.1, color);
        draw_buffer.set_color(bottom_right.0, bottom_right.1, color);
        assert(draw_buffer@ =~= self.painted_spec(before, width, height, index));
    }
}

impl<T: Scalar> Rectangle3D<T> {
    /// Drawing a face changes no pixel outside the box round the face,
    /// unless it is the pixel of a corner.
    pub proof fn outside_box_unchanged(
        self,
        before: Map<(u16, u16), RgbColor>,
        width: u16,
        height: u16,
        index: usize,
        pixel: (u16, u16),
    )
        requires
            before.dom().contains(pixel),
            !self.in_box_spec(pixel, width, height),
            !self.marks_spec(pixel, width, height),
        ensures
            self.painted_spec(before, width, height, index)[pixel] == before[pixel],
    {
    }

    /// A face drawn into a blank picture colours the pixels that it fills
    /// and those of its corners; every other pixel stays black.
    pub proof fn drawn_on_blank(self, width: u16, height: u16, index: usize, pixel: (u16, u16))
        requires
            pixel.0 < width,
            pixel.1 < height,
        ensures
            self.painted_spec(DrawBuffer::blank(width, height), width, height, index)[pixel]
                == if self.marks_spec(pixel, width, height) {
                rainbow_spec(index as int)
            } else if self.fills_spec(pixel, width, height) {
                self.color_at_spec(unproject_spec(pixel, width, height))
            } else {
                RgbColor::black()
            },
    {
    }
}

impl<T: Scalar> Cube<T> {
    /// The picture after the first `faces` faces of the cuboid are drawn, in
    /// their order, over `before`: a face that is culled leaves the picture
    /// as it is, any other is painted over what the faces before it left.
    pub open spec fn frame_spec(
        self,
        before: Map<(u16, u16), RgbColor>,
        width: u16,
        height: u16,
        faces: int,
    ) -> Map<(u16, u16), RgbColor>
        decreases faces,
    {
        if faces <= 0 {
            before
        } else {
            let so_far = self.frame_spec(before, width, height, faces - 1);
            let face = self.face_spec(faces - 1);
            if face.is_culled_spec() {
                so_far
            } else {
                face.painted_spec(so_far, width, height, (faces - 1) as usize)
            }
        }
    }

    /// A pixel that no drawn face fills or marks is after the frame as it
    /// was before.
    pub proof fn frame_leaves_the_rest(
        self,
        before: Map<(u16, u16), RgbColor>,
        width: u16,
        height: u16,
        faces: int,
        pixel: (u16, u16),
    )
        requires
            0 <= faces <= 6,
            before.dom().contains(pixel),
            forall|face: int|
                0 <= face < faces ==> {
                    ||| (#[trigger] self.face_spec(face)).is_culled_spec()
                    ||| (!self.face_spec(face).marks_spec(pixel, width, height)
                        && !self.face_spec(face).fills_spec(pixel, width, height))
                },
        ensures
            self.frame_spec(before, width, height, faces).dom() == before.dom(),
            self.frame_spec(before, width, height, faces)[pixel] == before[pixel],
        decreases faces,
    {
        if faces > 0 {
            self.frame_leaves_the_rest(before, width, height, faces - 1, pixel);
            let so_far = self.frame_spec(before, width, height, faces - 1);
            let face = self.face_spec(faces - 1);
            assert(face.painted_spec(so_far, width, height, (faces - 1) as usize).dom()
                =~= so_far.dom());
        }
    }

    /// Draws the faces of the cuboid that are not culled into the grid.
    pub fn render(&self, draw_buffer: &mut DrawBuffer)
        requires
            old(draw_buffer).wf(),
        ensures
            final(draw_buffer).wf(),
            final(draw_buffer).width == old(draw_buffer).width,
            final(draw_buffer).height == old(draw_buffer).height,
            final(draw_buffer)@ == self.frame_spec(
                old(draw_buffer)@,
                old(draw_buffer).width,
                old(draw_buffer).height,
                6,
            ),
    {
        let faces = self.get_faces();
        let ghost before = draw_buffer@;
        let mut index: usize = 0;
        while index < 6
            invariant
                index <= 6,
                forall|face: int| 0 <= face < 6 ==> faces[face] == self.face_spec(face),
                draw_buffer.wf(),
                draw_buffer.width == old(draw_buffer).width,
                draw_buffer.height == old(draw_buffer).height,
                draw_buffer@ == self.frame_spec(
                    before,
                    old(draw_buffer).width,
                    old(draw_buffer).height,
                    index as int,
                ),
            decreases 6 - index,
        {
            let face: &Rectangle3D<T> = &faces[index];
            if !face.is_culled() {
                face.render(draw_buffer, index);
            }
            index += 1;
        }
    }
}

} // verus!
