//! What to paint, as integers.
//!
//! `Gpu` keeps the last frame it was given and the side of one pixel on the
//! host's window, and turns frames and sprites into lists of squares. Opening
//! the window and filling the squares is left to the program that owns it.

use vstd::prelude::*;

verus! {

/// The largest pixel side that `Gpu` takes: every coordinate it computes then
/// fits 32 bits.
pub const MAX_SIZE_FACTOR: u32 = 0xFF_FFFF;

/// One square to fill: its top left corner, its side, and whether it shows a
/// set pixel.
#[derive(Clone, Copy, Debug, PartialEq, Eq, Structural)]
pub struct Square {
    pub x: u32,
    pub y: u32,
    pub side: u32,
    pub lit: bool,
}

/// What a `Gpu` holds, as a value.
pub ghost struct GpuModel {
    /// Side of one pixel on the window.
    pub size_factor: u32,
    /// The frame, `screen[col][row]`.
    pub screen: Seq<Seq<bool>>,
}

/// A grid of 64 columns of 32 pixels each.
pub open spec fn is_frame(screen: Seq<Seq<bool>>) -> bool {
    screen.len() == 64 && forall|col: int| 0 <= col < 64 ==> (#[trigger] screen[col]).len() == 32
}

/// The grid of a sequence of columns.
pub open spec fn grid_of(columns: Seq<Vec<bool>>) -> Seq<Seq<bool>> {
    Seq::new(columns.len(), |col: int| columns[col]@)
}

impl GpuModel {
    /// The frame has its shape and the pixel side is within the limit.
    pub open spec fn wf(self) -> bool {
        self.size_factor <= MAX_SIZE_FACTOR && is_frame(self.screen)
    }

    /// The square for the pixel in column `col` of row `row`.
    pub open spec fn square_at(self, col: int, row: int) -> Square {
        Square {
            x: (col * self.size_factor) as u32,
            y: (row * self.size_factor) as u32,
            side: self.size_factor,
            lit: self.screen[col][row],
        }
    }

    /// The whole frame as squares, column by column and top down in each.
    pub open spec fn render(self) -> Seq<Square> {
        Seq::new(2048, |k: int| self.square_at(k / 32, k % 32))
    }

    /// The squares for a sprite given as `(x, y, n, bytes)`: byte `i` of the
    /// sprite, bit `b` of it counted from the most significant, gives the
    /// square in column `x + i` and row `y + b`, lit where the bit is set.
    /// The third component is not looked at.
    pub open spec fn update_part(self, data: (u8, u8, u8, Seq<u8>)) -> Seq<Square> {
        Seq::new(
            data.3.len() * 8,
            |k: int|
                Square {
                    x: ((data.0 + k / 8) * self.size_factor) as u32,
                    y: ((data.1 + k % 8) * self.size_factor) as u32,
                    side: self.size_factor,
                    lit: data.3[k / 8] & (0x80u8 >> ((k % 8) as u8)) != 0,
                },
        )
    }
}

/// The painter's state.
#[derive(Clone, Debug)]
pub struct Gpu {
    size_factor: u32,
    screen: Vec<Vec<bool>>,
}

impl View for Gpu {
    type V = GpuModel;

    closed spec fn view(&self) -> GpuModel {
        GpuModel { size_factor: self.size_factor, screen: grid_of(self.screen@) }
    }
}

impl Gpu {
    /// The state is one that a painter can be in.
    pub open spec fn wf(&self) -> bool {
        self@.wf()
    }

    /// A painter for pixels of side `size_factor`, with a blank frame.
    pub fn new(size_factor: u32) -> (gpu: Gpu)
        requires
            size_factor <= MAX_SIZE_FACTOR,
        ensures
            gpu.wf(),
            gpu@.size_factor == size_factor,
            forall|col: int, row: int|
                0 <= col < 64 && 0 <= row < 32 ==> !(#[trigger] gpu@.screen[col][row]),
    {
        let mut screen: Vec<Vec<bool>> = Vec::new();
        let mut col: usize = 0;
        while col < 64
            invariant
                col <= 64,
                screen@.len() == col,
                forall|c: int| 0 <= c < col ==> (#[trigger] screen@[c])@.len() == 32,
                forall|c: int, r: int| 0 <= c < col && 0 <= r < 32 ==> !(#[trigger] screen@[c]@[r]),
            decreases 64 - col,
        {
            let mut column: Vec<bool> = Vec::new();
            let mut row: usize = 0;
            while row < 32
                invariant
                    row <= 32,
                    column@.len() == row,
                    forall|r: int| 0 <= r < row ==> !column@[r],
                decreases 32 - row,
            {
                column.push(false);
                row = row + 1;
            }
            screen.push(column);
            col = col + 1;
        }
        Gpu { size_factor, screen }
    }

    /// The size of the window that shows the whole frame: 64 pixels by 32.
    pub fn window_size(&self) -> (size: (u32, u32))
        requires
            self.wf(),
        ensures
            size.0 == 64 * self@.size_factor,
            size.1 == 32 * self@.size_factor,
    {
        (64 * self.size_factor, 32 * self.size_factor)
    }

    /// Takes a new frame, `screen_buffer[col][row]`, in place of the one held.
    pub fn update(&mut self, screen_buffer: Vec<Vec<bool>>)
        requires
            old(self).wf(),
            is_frame(grid_of(screen_buffer@)),
        ensures
            final(self).wf(),
            final(self)@.size_factor == old(self)@.size_factor,
            final(self)@.screen == grid_of(screen_buffer@),
    {
        self.screen = screen_buffer;
    }

    /// The frame held, as 2048 squares: column by column, and from the top
    /// down in each column.
    pub fn render(&self) -> (squares: Vec<Square>)
        requires
            self.wf(),
        ensures
            squares@ == self@.render(),
    {
        let mut squares: Vec<Square> = Vec::new();
        let mut col: usize = 0;
        while col < 64
            invariant
                self.wf(),
                col <= 64,
                squares@.len() == col * 32,
                forall|k: int| 0 <= k < col * 32 ==> squares@[k] == self@.square_at(k / 32, k % 32),
            decreases 64 - col,
        {
            let mut row: usize = 0;
            while row < 32
                invariant
                    self.wf(),
                    col < 64,
                    row <= 32,
                    squares@.len() == col * 32 + row,
                    forall|k: int|
                        0 <= k < col * 32 + row ==> squares@[k] == self@.square_at(k / 32, k % 32),
                decreases 32 - row,
            {
                assert(self@.screen[col as int] == self.screen@[col as int]@);
                assert(col * self.size_factor <= 63 * 0xFF_FFFF) by (nonlinear_arith)
                    requires
                        col <= 63,
                        self.size_factor <= 0xFF_FFFF,
                ;
                assert(row * self.size_factor <= 31 * 0xFF_FFFF) by (nonlinear_arith)
                    requires
                        row <= 31,
                        self.size_factor <= 0xFF_FFFF,
                ;
                let square = Square {
                    x: col as u32 * self.size_factor,
                    y: row as u32 * self.size_factor,
                    side: self.size_factor,
                    lit: self.screen[col][row],
                };
                squares.push(square);
                row = row + 1;
            }
            col = col + 1;
        }
        assert(squares@ =~= self@.render());
        squares
    }

    /// The squares that repaint one sprite, given as `(x, y, n, bytes)`: eight
    /// squares for each byte, most significant bit first. Byte `i` stands in
    /// column `x + i` and its bit `b` in row `y + b`; a square is lit where the
    /// bit is set.
    ///
    /// The sprite has to stay within 256 columns and rows of the origin:
    /// `x + bytes.len() <= 256`, and `y + 7 <= 255`.
    pub fn update_part(&self, data: &(u8, u8, u8, Vec<u8>)) -> (squares: Vec<Square>)
        requires
            self.wf(),
            data.0 + data.3@.len() <= 256,
            data.1 + 7 <= 255,
        ensures
            squares@ == self@.update_part((data.0, data.1, data.2, data.3@)),
    {
        let ghost model = self@.update_part((data.0, data.1, data.2, data.3@));
        let mut squares: Vec<Square> = Vec::new();
        let len: usize = data.3.len();
        let mut i: usize = 0;
        while i < len
            invariant
                self.wf(),
                len == data.3@.len(),
                data.0 + len <= 256,
                data.1 + 7 <= 255,
                i <= len,
                model == self@.update_part((data.0, data.1, data.2, data.3@)),
                squares@.len() == i * 8,
                forall|k: int| 0 <= k < i * 8 ==> squares@[k] == model[k],
            decreases len - i,
        {
            let byte: u8 = data.3[i];
            let x: u32 = data.0 as u32 + i as u32;
            let mut b: u8 = 0;
            while b < 8
                invariant
                    self.wf(),
                    len == data.3@.len(),
                    i < len,
                    data.1 + 7 <= 255,
                    b <= 8,
                    byte == data.3@[i as int],
                    x == data.0 + i,
                    x <= 255,
                    model == self@.update_part((data.0, data.1, data.2, data.3@)),
                    squares@.len() == i * 8 + b,
                    forall|k: int| 0 <= k < i * 8 + b ==> squares@[k] == model[k],
                decreases 8 - b,
            {
                let y: u32 = data.1 as u32 + b as u32;
                assert(x * self.size_factor <= 255 * 0xFF_FFFF) by (nonlinear_arith)
                    requires
                        x <= 255,
                        self.size_factor <= 0xFF_FFFF,
                ;
                assert(y * self.size_factor <= 255 * 0xFF_FFFF) by (nonlinear_arith)
                    requires
                        y <= 255,
                        self.size_factor <= 0xFF_FFFF,
                ;
                let square = Square {
                    x: x * self.size_factor,
                    y: y * self.size_factor,
                    side: self.size_factor,
                    lit: byte & (0x80u8 >> b) != 0,
                };
                proof {
                    let k = i * 8 + b;
                    assert(k / 8 == i && k % 8 == b);
                    assert(square == model[k]);
                }
                squares.push(square);
                b = b + 1;
            }
            i = i + 1;
        }
        assert(squares@ =~= model);
        squares
    }
}

} // verus!
