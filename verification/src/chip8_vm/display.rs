use vstd::prelude::*;

verus! {

pub const SCREEN_WIDTH: usize = 64;

pub const SCREEN_HEIGHT: usize = 32;

/// Bytes in the colour buffer: four per cell.
pub const COLOR_BUFFER_SIZE: usize = 8192;

/// What last happened to the framebuffer, for the front end to poll.
#[derive(Debug, Clone, Copy, PartialEq, Eq, Structural)]
pub enum DisplayState {
    Draw,
    Clear,
    Noop,
}

/// The mathematical value of a framebuffer: its rows of cells, top row first,
/// and the signal that the last writer left.
pub struct Screen {
    pub cells: Seq<Seq<u8>>,
    pub state: DisplayState,
}

/// A grid of the framebuffer's size with every cell dark.
pub open spec fn blank_cells() -> Seq<Seq<u8>> {
    Seq::new(SCREEN_HEIGHT as nat, |y: int| Seq::new(SCREEN_WIDTH as nat, |x: int| 0u8))
}

/// `cells` has the framebuffer's height and width.
pub open spec fn is_grid(cells: Seq<Seq<u8>>) -> bool {
    &&& cells.len() == SCREEN_HEIGHT
    &&& forall|y: int| 0 <= y < SCREEN_HEIGHT ==> (#[trigger] cells[y]).len() == SCREEN_WIDTH
}

/// `cells` with the cell in column `x` of row `y` flipped.
pub open spec fn flip_cell(cells: Seq<Seq<u8>>, x: int, y: int) -> Seq<Seq<u8>> {
    cells.update(y, cells[y].update(x, cells[y][x] ^ 1))
}

/// One byte of the colour buffer: cell `k / 4` in row-major order gives four
/// bytes, red, green and blue all 0 for a dark cell and all 255 for a lit one,
/// then an alpha of 255.
pub open spec fn color_byte(cells: Seq<Seq<u8>>, k: int) -> u8 {
    let cell = cells[(k / 4) / (SCREEN_WIDTH as int)][(k / 4) % (SCREEN_WIDTH as int)];
    if k % 4 == 3 || cell != 0 {
        255
    } else {
        0
    }
}

impl Screen {
    /// The screen after a clear: every cell dark, signal `Clear`.
    pub open spec fn cleared() -> Screen {
        Screen { cells: blank_cells(), state: DisplayState::Clear }
    }

    /// The screen after the cell in column `x` of row `y` was drawn: that cell
    /// flipped, signal `Draw`.
    pub open spec fn toggled(self, x: int, y: int) -> Screen {
        Screen { cells: flip_cell(self.cells, x, y), state: DisplayState::Draw }
    }

    /// The screen as opaque RGBA bytes, row-major.
    pub open spec fn colors(self) -> Seq<u8> {
        Seq::new(COLOR_BUFFER_SIZE as nat, |k: int| color_byte(self.cells, k))
    }
}

/// 64×32 one-bit framebuffer with the signal of its last writer.
pub struct Display {
    pub buffer: [[u8; SCREEN_WIDTH]; SCREEN_HEIGHT],
    pub state: DisplayState,
}

impl View for Display {
    type V = Screen;

    open spec fn view(&self) -> Screen {
        Screen {
            cells: Seq::new(SCREEN_HEIGHT as nat, |y: int| self.buffer@[y]@),
            state: self.state,
        }
    }
}

impl Display {
    /// Every framebuffer is 32 rows of 64 cells.
    pub proof fn lemma_is_grid(&self)
        ensures
            is_grid(self@.cells),
    {
    }

    pub fn new() -> (display: Self)
        ensures
            display@ == (Screen { cells: blank_cells(), state: DisplayState::Noop }),
    {
        let display = Display {
            buffer: [[0; SCREEN_WIDTH]; SCREEN_HEIGHT],
            state: DisplayState::Noop,
        };
        proof {
            assert forall|y: int| 0 <= y < SCREEN_HEIGHT implies #[trigger] display@.cells[y]
                =~= blank_cells()[y] by {}
            assert(display@.cells =~= blank_cells());
        }
        display
    }

    /// Darkens every cell and leaves the signal `Clear`.
    pub fn clear(&mut self)
        ensures
            final(self)@ == Screen::cleared(),
    {
        self.buffer = [[0; SCREEN_WIDTH]; SCREEN_HEIGHT];
        self.state = DisplayState::Clear;
        proof {
            assert forall|y: int| 0 <= y < SCREEN_HEIGHT implies #[trigger] self@.cells[y]
                =~= blank_cells()[y] by {}
            assert(self@.cells =~= blank_cells());
        }
    }

    /// Flips the cell in column `x` of row `y` and leaves the signal `Draw`.
    pub fn draw_pixel(&mut self, x: usize, y: usize)
        requires
            x < SCREEN_WIDTH,
            y < SCREEN_HEIGHT,
        ensures
            final(self)@ == old(self)@.toggled(x as int, y as int),
    {
        self.state = DisplayState::Draw;
        let mut row: [u8; SCREEN_WIDTH] = self.buffer[y];
        row[x] = row[x] ^ 1;
        self.buffer[y] = row;
        proof {
            assert(self@.cells =~= flip_cell(old(self)@.cells, x as int, y as int));
        }
    }

    /// The framebuffer as a flat buffer of opaque RGBA pixels, row-major: black
    /// for a dark cell, white for a lit one. The framebuffer stays as it is.
    pub fn get_color_buffer(&mut self) -> (color_buffer: Vec<u8>)
        ensures
            *final(self) == *old(self),
            color_buffer@ == old(self)@.colors(),
    {
        let mut color_buffer: Vec<u8> = Vec::new();
        let mut y: usize = 0;
        while y < SCREEN_HEIGHT
            invariant
                *self == *old(self),
                y <= SCREEN_HEIGHT,
                color_buffer@.len() == 4 * (y * SCREEN_WIDTH),
                forall|k: int|
                    0 <= k < color_buffer@.len() ==> color_buffer@[k] == color_byte(
                        self@.cells,
                        k,
                    ),
            decreases SCREEN_HEIGHT - y,
        {
            let mut x: usize = 0;
            while x < SCREEN_WIDTH
                invariant
                    *self == *old(self),
                    y < SCREEN_HEIGHT,
                    x <= SCREEN_WIDTH,
                    color_buffer@.len() == 4 * (y * SCREEN_WIDTH + x),
                    forall|k: int|
                        0 <= k < color_buffer@.len() ==> color_buffer@[k] == color_byte(
                            self@.cells,
                            k,
                        ),
                decreases SCREEN_WIDTH - x,
            {
                let shade: u8 = if self.buffer[y][x] == 0 {
                    0
                } else {
                    255
                };
                color_buffer.push(shade);
                color_buffer.push(shade);
                color_buffer.push(shade);
                color_buffer.push(255);
                x += 1;
            }
            y += 1;
        }
        assert(color_buffer@ =~= self@.colors());
        color_buffer
    }
}

/// Drawing the same cell twice gives back the grid as it was.
pub proof fn lemma_draw_pixel_twice(screen: Screen, x: int, y: int)
    requires
        is_grid(screen.cells),
        0 <= x < SCREEN_WIDTH,
        0 <= y < SCREEN_HEIGHT,
    ensures
        screen.toggled(x, y).toggled(x, y).cells == screen.cells,
        screen.toggled(x, y).toggled(x, y).state == DisplayState::Draw,
{
    let cell: u8 = screen.cells[y][x];
    assert((cell ^ 1) ^ 1 == cell) by (bit_vector);
    let once = screen.toggled(x, y).cells;
    let twice = screen.toggled(x, y).toggled(x, y).cells;
    assert(twice[y] =~= screen.cells[y]);
    assert(twice =~= screen.cells);
}

} // verus!
