//! The pixel grid that a frame is drawn into.

use vstd::prelude::*;

verus! {

#[derive(Copy, Clone, PartialEq, Eq, Structural, Debug)]
pub struct RgbColor {
    pub r: u8,
    pub g: u8,
    pub b: u8,
}

impl RgbColor {
    pub open spec fn black() -> RgbColor {
        RgbColor { r: 0, g: 0, b: 0 }
    }
}

/// A grid of `width` by `height` pixels, stored row by row with three bytes
/// (red, green, blue) for each pixel.
pub struct DrawBuffer {
    pub buffer: Vec<u8>,
    pub width: u16,
    pub height: u16,
}

/// Number of bytes that a grid of the given size takes.
pub open spec fn buffer_size_spec(width: u16, height: u16) -> int {
    width * height * 3
}

/// Number of pixel rows that one character row of the display shows.
pub const HEIGHT_SCALE: u16 = 2;

/// What the display reports as `(columns, rows)`, turned into the size of
/// the pixel grid: `HEIGHT_SCALE` pixel rows for each character row. A
/// display that reports nothing counts as one column by one row.
pub open spec fn surface_size_spec(reported: Option<(u16, u16)>) -> (u16, u16) {
    match reported {
        Some((columns, rows)) => (columns, (rows * HEIGHT_SCALE) as u16),
        None => (1, HEIGHT_SCALE),
    }
}

/// The pixel-grid size for what the display reports as `(columns, rows)`.
pub fn surface_size(reported: Option<(u16, u16)>) -> (r: (u16, u16))
    requires
        reported matches Some((_, rows)) ==> rows * HEIGHT_SCALE <= u16::MAX,
    ensures
        r == surface_size_spec(reported),
{
    match reported {
        Some((columns, rows)) => (columns, rows * HEIGHT_SCALE),
        None => (1, HEIGHT_SCALE),
    }
}

/// The picture in the grid: the colour of each pixel, by `(column, row)`.
impl View for DrawBuffer {
    type V = Map<(u16, u16), RgbColor>;

    open spec fn view(&self) -> Map<(u16, u16), RgbColor> {
        Map::new(
            |p: (u16, u16)| self.in_bounds(p.0, p.1),
            |p: (u16, u16)| self.pixel(p.0, p.1),
        )
    }
}

impl DrawBuffer {
    /// The invariant of the grid: the byte sequence holds exactly the pixels.
    pub open spec fn wf(&self) -> bool {
        self.buffer@.len() == buffer_size_spec(self.width, self.height)
    }

    pub open spec fn in_bounds(&self, column: u16, row: u16) -> bool {
        column < self.width && row < self.height
    }

    /// Where the pixel at `column`, `row` starts in the byte sequence.
    pub open spec fn offset(&self, column: u16, row: u16) -> int {
        (row * self.width + column) * 3
    }

    /// The colour at `column`, `row`; black outside the grid.
    pub open spec fn pixel(&self, column: u16, row: u16) -> RgbColor {
        if self.in_bounds(column, row) {
            RgbColor {
                r: self.buffer@[self.offset(column, row)],
                g: self.buffer@[self.offset(column, row) + 1],
                b: self.buffer@[self.offset(column, row) + 2],
            }
        } else {
            RgbColor::black()
        }
    }

    pub open spec fn is_black(&self) -> bool {
        forall|i: int| 0 <= i < self.buffer@.len() ==> self.buffer@[i] == 0
    }

    /// The picture with every pixel of a `width` by `height` grid black.
    pub open spec fn blank(width: u16, height: u16) -> Map<(u16, u16), RgbColor> {
        Map::new(|p: (u16, u16)| p.0 < width && p.1 < height, |p: (u16, u16)| RgbColor::black())
    }

    /// A grid whose bytes are all zero shows the blank picture.
    pub proof fn black_is_blank(&self)
        requires
            self.wf(),
            self.is_black(),
        ensures
            self@ == Self::blank(self.width, self.height),
    {
        assert forall|p: (u16, u16)| self.in_bounds(p.0, p.1) implies self.pixel(p.0, p.1)
            == RgbColor::black() by {
            self.offset_in_range(p.0, p.1);
        }
        assert(self@ =~= Self::blank(self.width, self.height));
    }

    pub fn get_buffer_size(terminal_size: (u16, u16)) -> (r: usize)
        requires
            buffer_size_spec(terminal_size.0, terminal_size.1) <= usize::MAX,
        ensures
            r == buffer_size_spec(terminal_size.0, terminal_size.1),
    {
        let width: usize = terminal_size.0 as usize;
        let height: usize = terminal_size.1 as usize;
        assert(width * height <= width * height * 3) by (nonlinear_arith)
            requires
                0 <= width,
                0 <= height,
        ;
        width * height * 3
    }

    /// A black grid of the given size.
    pub fn new(terminal_size: (u16, u16)) -> (r: DrawBuffer)
        requires
            buffer_size_spec(terminal_size.0, terminal_size.1) <= usize::MAX,
        ensures
            r.wf(),
            r.width == terminal_size.0,
            r.height == terminal_size.1,
            r@ == Self::blank(terminal_size.0, terminal_size.1),
    {
        let buffer_size: usize = DrawBuffer::get_buffer_size(terminal_size);
        let buffer: Vec<u8> = vec![0u8; buffer_size];
        let r = DrawBuffer { buffer, width: terminal_size.0, height: terminal_size.1 };
        proof {
            r.black_is_blank();
        }
        r
    }

    /// Takes the size that the display has now. A grid that changes size
    /// comes out black; one that keeps its size keeps its pixels.
    pub fn update_size(&mut self, terminal_size: (u16, u16))
        requires
            old(self).wf(),
            buffer_size_spec(terminal_size.0, terminal_size.1) <= usize::MAX,
        ensures
            final(self).wf(),
            final(self).width == terminal_size.0,
            final(self).height == terminal_size.1,
            final(self)@ == if old(self).width == terminal_size.0 && old(self).height
                == terminal_size.1 {
                old(self)@
            } else {
                Self::blank(terminal_size.0, terminal_size.1)
            },
    {
        if self.width != terminal_size.0 || self.height != terminal_size.1 {
            let buffer_size: usize = DrawBuffer::get_buffer_size(terminal_size);
            self.buffer = vec![0u8; buffer_size];
            self.width = terminal_size.0;
            self.height = terminal_size.1;
            proof {
                self.black_is_blank();
            }
        }
    }

    /// Paints every pixel black.
    pub fn clear(&mut self)
        requires
            old(self).wf(),
        ensures
            final(self).wf(),
            final(self).width == old(self).width,
            final(self).height == old(self).height,
            final(self)@ == Self::blank(old(self).width, old(self).height),
    {
        let n: usize = self.buffer.len();
        let mut i: usize = 0;
        while i < n
            invariant
                i <= n,
                n == self.buffer@.len(),
                self.width == old(self).width,
                self.height == old(self).height,
                forall|j: int| 0 <= j < i ==> self.buffer@[j] == 0,
            decreases n - i,
        {
            self.buffer[i] = 0;
            i += 1;
        }
        proof {
            self.black_is_blank();
        }
    }

    pub fn get_color(&self, column: u16, row: u16) -> (r: RgbColor)
        requires
            self.wf(),
        ensures
            r == if self.in_bounds(column, row) {
                self@[(column, row)]
            } else {
                RgbColor::black()
            },
    {
        if column >= self.width || row >= self.height {
            return RgbColor { r: 0, g: 0, b: 0 };
        }
        let pos: usize = self.position(column, row);
        RgbColor { r: self.buffer[pos], g: self.buffer[pos + 1], b: self.buffer[pos + 2] }
    }

    /// The colours of the upper and the lower pixel that the character cell
    /// at `column`, `line` shows.
    pub fn cell_colors(&self, column: u16, line: u16) -> (r: (RgbColor, RgbColor))
        requires
            self.wf(),
            line * HEIGHT_SCALE + 1 <= u16::MAX,
        ensures
            r.0 == self.pixel(column, (line * HEIGHT_SCALE) as u16),
            r.1 == self.pixel(column, (line * HEIGHT_SCALE + 1) as u16),
    {
        let row: u16 = line * HEIGHT_SCALE;
        (self.get_color(column, row), self.get_color(column, row + 1))
    }

    /// Writes one pixel. A position outside the grid changes nothing.
    pub fn set_color(&mut self, column: u16, row: u16, color: RgbColor)
        requires
            old(self).wf(),
        ensures
            final(self).wf(),
            final(self).width == old(self).width,
            final(self).height == old(self).height,
            final(self)@ == if old(self).in_bounds(column, row) {
                old(self)@.insert((column, row), color)
            } else {
                old(self)@
            },
    {
        if column >= self.width || row >= self.height {
            return ;
        }
        let pos: usize = self.position(column, row);
        self.buffer[pos] = color.r;
        self.buffer[pos + 1] = color.g;
        self.buffer[pos + 2] = color.b;
        proof {
            assert forall|c: u16, r: u16| (c != column || r != row) implies #[trigger] self.pixel(
                c,
                r,
            ) == old(self).pixel(c, r) by {
                if self.in_bounds(c, r) {
                    self.offsets_apart(c, r, column, row);
                    old(self).offset_in_range(c, r);
                }
            }
            assert(self@ =~= old(self)@.insert((column, row), color));
        }
    }

    /// The byte index of a pixel inside the grid.
    fn position(&self, column: u16, row: u16) -> (pos: usize)
        requires
            self.wf(),
            self.in_bounds(column, row),
        ensures
            pos == self.offset(column, row),
            pos + 2 < self.buffer@.len(),
            pos + 2 < usize::MAX,
    {
        // The length of a vector fits `usize`, and so does every index below it.
        let len: usize = self.buffer.len();
        proof {
            self.offset_in_range(column, row);
        }
        let cell: usize = row as usize * self.width as usize + column as usize;
        cell * 3
    }

    /// A pixel inside the grid lies inside the byte sequence.
    pub proof fn offset_in_range(&self, column: u16, row: u16)
        requires
            self.wf(),
            self.in_bounds(column, row),
        ensures
            0 <= self.offset(column, row),
            self.offset(column, row) + 2 < self.buffer@.len(),
            row * self.width + column < self.width * self.height,
            row * self.width <= 65535 * 65535,
    {
        assert(row * self.width + self.width <= self.height * self.width) by (nonlinear_arith)
            requires
                row < self.height,
                0 <= self.width,
        ;
        assert(self.height * self.width == self.width * self.height) by (nonlinear_arith);
        assert(row * self.width <= 65535 * 65535) by (nonlinear_arith)
            requires
                0 <= row <= 65535,
                0 <= self.width <= 65535,
        ;
        assert(0 <= row * self.width) by (nonlinear_arith)
            requires
                0 <= row,
                0 <= self.width,
        ;
    }

    /// Every byte of the grid belongs to a pixel inside it: byte `i` is
    /// channel `i % 3` of the pixel in column `i / 3 % width` and row
    /// `i / 3 / width`.
    pub proof fn byte_in_pixel(&self, i: int)
        requires
            self.wf(),
            0 <= i < self.buffer@.len(),
        ensures
            self.width > 0,
            0 <= i / 3 / (self.width as int) < self.height,
            self.offset((i / 3 % (self.width as int)) as u16, (i / 3 / (self.width as int)) as u16)
                + i % 3 == i,
    {
        let w = self.width as int;
        let h = self.height as int;
        let cell = i / 3;
        assert(w > 0 && h > 0 && cell < w * h) by (nonlinear_arith)
            requires
                0 <= w,
                0 <= h,
                0 <= cell,
                cell * 3 <= i,
                i < w * h * 3,
        ;
        vstd::arithmetic::div_mod::lemma_fundamental_div_mod(cell, w);
        vstd::arithmetic::div_mod::lemma_div_pos_is_pos(cell, w);
        let row = cell / w;
        let column = cell % w;
        assert(row < h) by (nonlinear_arith)
            requires
                cell == w * row + column,
                0 <= column,
                cell < w * h,
                w > 0,
        ;
        assert(row * w + column == cell) by (nonlinear_arith)
            requires
                cell == w * row + column,
        ;
    }

    /// The picture and the size of a grid fix its bytes.
    pub proof fn picture_fixes_bytes(&self, other: &DrawBuffer)
        requires
            self.wf(),
            other.wf(),
            self.width == other.width,
            self.height == other.height,
            self@ == other@,
        ensures
            self.buffer@ == other.buffer@,
    {
        assert forall|i: int| 0 <= i < self.buffer@.len() implies self.buffer@[i]
            == other.buffer@[i] by {
            self.byte_in_pixel(i);
            let column = (i / 3 % (self.width as int)) as u16;
            let row = (i / 3 / (self.width as int)) as u16;
            assert(self.in_bounds(column, row) && other.in_bounds(column, row));
            assert(self@[(column, row)] == self.pixel(column, row));
            assert(other@[(column, row)] == other.pixel(column, row));
            let start = self.offset(column, row);
            assert(start == other.offset(column, row));
            assert(i == start || i == start + 1 || i == start + 2);
        }
        assert(self.buffer@ =~= other.buffer@);
    }

    /// Two different pixels inside the grid share no byte.
    pub proof fn offsets_apart(&self, c1: u16, r1: u16, c2: u16, r2: u16)
        requires
            self.in_bounds(c1, r1),
            self.in_bounds(c2, r2),
            c1 != c2 || r1 != r2,
        ensures
            self.offset(c1, r1) + 3 <= self.offset(c2, r2) || self.offset(c2, r2) + 3
                <= self.offset(c1, r1),
    {
        if r1 < r2 {
            assert(r1 * self.width + self.width <= r2 * self.width) by (nonlinear_arith)
                requires
                    r1 < r2,
                    0 <= self.width,
            ;
        } else if r2 < r1 {
            assert(r2 * self.width + self.width <= r1 * self.width) by (nonlinear_arith)
                requires
                    r2 < r1,
                    0 <= self.width,
            ;
        }
    }
}

} // verus!
