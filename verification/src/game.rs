//! The scene and how the pointer turns it.

use crate::cube::Cube;
use crate::scalar::{one, one_spec, Scalar};
use crate::terminal_renderer::{buffer_size_spec, DrawBuffer};
use crate::vector3::Vector3;
use vstd::prelude::*;

verus! {

/// What the keyboard and the pointer can tell the scene. Positions are
/// `(column, row)` in character cells.
#[derive(Clone, Copy, PartialEq, Eq, Structural, Debug)]
pub enum Input {
    /// The key that ends the program.
    Escape,
    /// The left button went down.
    LeftDown(u16, u16),
    /// The pointer moved with the left button down.
    LeftDrag(u16, u16),
    /// The left button went up.
    LeftUp(u16, u16),
    /// Anything else.
    Other,
}

/// A cuboid on show: the grid it is drawn into, its orientation in degrees,
/// and where the pointer was when it last pressed or dragged.
pub struct Game<T> {
    pub draw_buffer: DrawBuffer,
    pub rotation: Vector3<T>,
    pub mouse_down_pos: (u16, u16),
}

/// `value` raised by the distance from `from` to `to`.
pub open spec fn raised_spec<T: Scalar>(value: T, from: u16, to: u16) -> T {
    if to >= from {
        value.add_spec(T::from_u16_spec((to - from) as u16))
    } else {
        value.sub_spec(T::from_u16_spec((from - to) as u16))
    }
}

/// `value` lowered by the distance from `from` to `to`.
pub open spec fn lowered_spec<T: Scalar>(value: T, from: u16, to: u16) -> T {
    if to >= from {
        value.sub_spec(T::from_u16_spec((to - from) as u16))
    } else {
        value.add_spec(T::from_u16_spec((from - to) as u16))
    }
}

/// The orientation after the pointer is dragged from `from` to `to`: a step
/// to the right turns by one degree about y, a step down by one degree
/// backwards about x.
pub open spec fn dragged_spec<T: Scalar>(
    rotation: Vector3<T>,
    from: (u16, u16),
    to: (u16, u16),
) -> Vector3<T> {
    Vector3 {
        x: lowered_spec(rotation.x, from.1, to.1),
        y: raised_spec(rotation.y, from.0, to.0),
        z: rotation.z,
    }
}

fn raised<T: Scalar>(value: T, from: u16, to: u16) -> (r: T)
    ensures
        r == raised_spec(value, from, to),
{
    if to >= from {
        value.add(T::from_u16(to - from))
    } else {
        value.sub(T::from_u16(from - to))
    }
}

fn lowered<T: Scalar>(value: T, from: u16, to: u16) -> (r: T)
    ensures
        r == lowered_spec(value, from, to),
{
    if to >= from {
        value.sub(T::from_u16(to - from))
    } else {
        value.add(T::from_u16(from - to))
    }
}

pub fn dragged<T: Scalar>(rotation: Vector3<T>, from: (u16, u16), to: (u16, u16)) -> (r: Vector3<
    T,
>)
    ensures
        r == dragged_spec(rotation, from, to),
{
    Vector3 {
        x: lowered(rotation.x, from.1, to.1),
        y: raised(rotation.y, from.0, to.0),
        z: rotation.z,
    }
}

impl<T: Scalar> Game<T> {
    /// The cuboid on show: at the origin, half a unit from its centre to
    /// each face, turned by `rotation`.
    pub open spec fn cube_spec(rotation: Vector3<T>) -> Cube<T> {
        let half = one_spec::<T>().div_spec(T::from_u16_spec(2));
        Cube {
            pos: Vector3::<T>::zero_spec(),
            size: Vector3 { x: half, y: half, z: half },
            euler_angles: rotation,
        }
    }

    /// A scene that is not turned yet, with a black grid of the given size.
    pub fn new(terminal_size: (u16, u16)) -> (game: Game<T>)
        requires
            buffer_size_spec(terminal_size.0, terminal_size.1) <= usize::MAX,
        ensures
            game.draw_buffer.wf(),
            game.draw_buffer.width == terminal_size.0,
            game.draw_buffer.height == terminal_size.1,
            game.draw_buffer@ == DrawBuffer::blank(terminal_size.0, terminal_size.1),
            game.rotation == Vector3::<T>::zero_spec(),
            game.mouse_down_pos == (0u16, 0u16),
    {
        Game {
            draw_buffer: DrawBuffer::new(terminal_size),
            rotation: Vector3::zero(),
            mouse_down_pos: (0, 0),
        }
    }

    /// Draws one frame: takes the size that the display has now, blanks the
    /// grid and draws the cuboid as it is turned.
    pub fn update(&mut self, terminal_size: (u16, u16))
        requires
            old(self).draw_buffer.wf(),
            buffer_size_spec(terminal_size.0, terminal_size.1) <= usize::MAX,
        ensures
            final(self).draw_buffer.wf(),
            final(self).draw_buffer.width == terminal_size.0,
            final(self).draw_buffer.height == terminal_size.1,
            final(self).draw_buffer@ == Self::cube_spec(old(self).rotation).frame_spec(
                DrawBuffer::blank(terminal_size.0, terminal_size.1),
                terminal_size.0,
                terminal_size.1,
                6,
            ),
            final(self).rotation == old(self).rotation,
            final(self).mouse_down_pos == old(self).mouse_down_pos,
    {
        self.draw_buffer.update_size(terminal_size);
        self.draw_buffer.clear();

        let half: T = one::<T>().div(T::from_u16(2));
        let cube = Cube {
            pos: Vector3::zero(),
            size: Vector3::new(half, half, half),
            euler_angles: self.rotation,
        };

        cube.render(&mut self.draw_buffer);
    }

    /// Takes one input and says whether the program is to end. Pressing the
    /// left button marks the place; dragging or releasing it turns the
    /// cuboid by the way from the marked place and marks the new one.
    pub fn handle(&mut self, input: Input) -> (exit: bool)
        ensures
            exit == (input == Input::Escape),
            final(self).draw_buffer == old(self).draw_buffer,
            final(self).mouse_down_pos == match input {
                Input::LeftDown(column, row) => (column, row),
                Input::LeftDrag(column, row) => (column, row),
                Input::LeftUp(column, row) => (column, row),
                _ => old(self).mouse_down_pos,
            },
            final(self).rotation == match input {
                Input::LeftDrag(column, row) => dragged_spec(
                    old(self).rotation,
                    old(self).mouse_down_pos,
                    (column, row),
                ),
                Input::LeftUp(column, row) => dragged_spec(
                    old(self).rotation,
                    old(self).mouse_down_pos,
                    (column, row),
                ),
                _ => old(self).rotation,
            },
    {
        match input {
            Input::Escape => true,
            Input::LeftDown(column, row) => {
                self.mouse_down_pos = (column, row);
                false
            },
            Input::LeftDrag(column, row) | Input::LeftUp(column, row) => {
                self.rotation = dragged(self.rotation, self.mouse_down_pos, (column, row));
                self.mouse_down_pos = (column, row);
                false
            },
            Input::Other => false,
        }
    }
}

} // verus!
