use vstd::prelude::*;

use super::display::{is_grid, DisplayState, SCREEN_HEIGHT, SCREEN_WIDTH};
use super::model::{field_n, field_x, field_y, flag, sprite_bit, Canvas, Machine, FLAG};
use super::vm::{Instructions, NUM_REGISTERS};

verus! {

/// Whether one of the first `count` pixels of a sprite, eight to a row, is set
/// and lands on the cell in column `c` of row `r`, the sprite standing at
/// (`vx`, `vy`) and wrapping at the edges. The pixel that can land there lies
/// as far from the sprite's corner as the cell lies from (`vx`, `vy`), going
/// right and down round the grid.
pub open spec fn covered(
    ram: Seq<u8>,
    at: int,
    vx: u8,
    vy: u8,
    count: int,
    r: int,
    c: int,
) -> bool {
    let row = (r - vy) % (SCREEN_HEIGHT as int);
    let column = (c - vx) % (SCREEN_WIDTH as int);
    column < 8 && 8 * row + column < count && sprite_bit(ram[at + row], column)
}

/// Whether one of the first `count` pixels of a sprite is set and lands on a
/// cell of `cells` that holds 1.
pub open spec fn collides(
    cells: Seq<Seq<u8>>,
    ram: Seq<u8>,
    at: int,
    vx: u8,
    vy: u8,
    count: int,
) -> bool {
    exists|r: int, c: int|
        0 <= r < SCREEN_HEIGHT && 0 <= c < SCREEN_WIDTH && #[trigger] covered(
            ram,
            at,
            vx,
            vy,
            count,
            r,
            c,
        ) && cells[r][c] == 1
}

/// Whether any of the first `count` pixels of a sprite is set.
pub open spec fn any_pixel(ram: Seq<u8>, at: int, count: int) -> bool {
    exists|pixel: int| 0 <= pixel < count && #[trigger] sprite_bit(ram[at + pixel / 8], pixel % 8)
}

/// Going `distance` cells on from `start`, round a ring of `size` cells, and
/// then asking how far the cell reached lies from `start` gives `distance`
/// back.
proof fn lemma_there_and_back(start: int, distance: int, size: int)
    requires
        0 <= start < 256,
        0 <= distance < size,
        size == 32 || size == 64,
    ensures
        0 <= (start + distance) % size < size,
        (((start + distance) % size) - start) % size == distance,
{
}

/// Going as far from `start` as `cell` lies from it, round a ring of `size`
/// cells, ends on `cell`.
proof fn lemma_back_and_there(start: int, cell: int, size: int)
    requires
        0 <= start < 256,
        0 <= cell < size,
        size == 32 || size == 64,
    ensures
        0 <= (cell - start) % size < size,
        (start + (cell - start) % size) % size == cell,
{
}

/// One more pixel covers one more cell at most: the cell under that pixel,
/// where the pixel is set.
proof fn lemma_cover_grows(ram: Seq<u8>, at: int, vx: u8, vy: u8, count: int, r: int, c: int)
    requires
        0 < count <= 128,
        0 <= r < SCREEN_HEIGHT,
        0 <= c < SCREEN_WIDTH,
    ensures
        covered(ram, at, vx, vy, count, r, c) <==> covered(ram, at, vx, vy, count - 1, r, c) || (
        sprite_bit(ram[at + (count - 1) / 8], (count - 1) % 8) && r == (vy + (count - 1) / 8) % (
        SCREEN_HEIGHT as int) && c == (vx + (count - 1) % 8) % (SCREEN_WIDTH as int)),
{
    let row = (count - 1) / 8;
    let column = (count - 1) % 8;
    let row_of = (r - vy) % (SCREEN_HEIGHT as int);
    let column_of = (c - vx) % (SCREEN_WIDTH as int);
    lemma_there_and_back(vy as int, row, SCREEN_HEIGHT as int);
    lemma_there_and_back(vx as int, column, SCREEN_WIDTH as int);
    lemma_back_and_there(vy as int, r, SCREEN_HEIGHT as int);
    lemma_back_and_there(vx as int, c, SCREEN_WIDTH as int);
    if column_of < 8 && 8 * row_of + column_of == count - 1 {
        assert(row_of == row && column_of == column);
    }
}

/// The pixel that comes next lands on a cell that no earlier pixel covers.
proof fn lemma_next_cell_is_free(ram: Seq<u8>, at: int, vx: u8, vy: u8, count: int)
    requires
        0 <= count < 128,
    ensures
        !covered(
            ram,
            at,
            vx,
            vy,
            count,
            (vy + count / 8) % (SCREEN_HEIGHT as int),
            (vx + count % 8) % (SCREEN_WIDTH as int),
        ),
{
    lemma_there_and_back(vy as int, count / 8, SCREEN_HEIGHT as int);
    lemma_there_and_back(vx as int, count % 8, SCREEN_WIDTH as int);
}

/// What the first `count` pixels of a sprite do to the cells, for a sprite
/// that neither `Vx` nor `Vy` places by the flag register: every cell that a
/// set pixel lands on flips, and no other cell changes. No register but the
/// flag changes.
pub proof fn lemma_drawn_cells(canvas: Canvas, ram: Seq<u8>, at: int, x: int, y: int, count: nat)
    requires
        canvas.v.len() == NUM_REGISTERS,
        is_grid(canvas.display.cells),
        0 <= x < FLAG,
        0 <= y < FLAG,
        count <= 128,
    ensures
        canvas.drawn(ram, at, x, y, count).v.len() == NUM_REGISTERS,
        forall|k: int|
            0 <= k < FLAG ==> #[trigger] canvas.drawn(ram, at, x, y, count).v[k] == canvas.v[k],
        is_grid(canvas.drawn(ram, at, x, y, count).display.cells),
        forall|r: int, c: int|
            0 <= r < SCREEN_HEIGHT && 0 <= c < SCREEN_WIDTH ==> #[trigger] canvas.drawn(
                ram,
                at,
                x,
                y,
                count,
            ).display.cells[r][c] == if covered(
                ram,
                at,
                canvas.v[x],
                canvas.v[y],
                count as int,
                r,
                c,
            ) {
                canvas.display.cells[r][c] ^ 1
            } else {
                canvas.display.cells[r][c]
            },
    decreases count,
{
    let vx = canvas.v[x];
    let vy = canvas.v[y];
    let cells = canvas.display.cells;
    let after = canvas.drawn(ram, at, x, y, count);
    if count == 0 {
    } else {
        let shorter = (count - 1) as nat;
        let before = canvas.drawn(ram, at, x, y, shorter);
        lemma_drawn_cells(canvas, ram, at, x, y, shorter);
        let row = (count - 1) / 8;
        let column = (count - 1) % 8;
        let cx = (vx + column) % (SCREEN_WIDTH as int);
        let cy = (vy + row) % (SCREEN_HEIGHT as int);
        assert(before.v[x] == vx && before.v[y] == vy);
        lemma_next_cell_is_free(ram, at, vx, vy, shorter as int);
        assert forall|r: int, c: int| 0 <= r < SCREEN_HEIGHT && 0 <= c < SCREEN_WIDTH implies (
        #[trigger] after.display.cells[r][c]) == if covered(ram, at, vx, vy, count as int, r, c) {
            cells[r][c] ^ 1
        } else {
            cells[r][c]
        } by {
            lemma_cover_grows(ram, at, vx, vy, count as int, r, c);
        }
    }
}

/// What the first `count` pixels of a sprite do to the flag, for a sprite that
/// neither `Vx` nor `Vy` places by the flag register: the flag ends as 1
/// exactly where a set pixel lands on a cell that held 1 before the draw, and
/// as 0 otherwise.
pub proof fn lemma_drawn_flag(canvas: Canvas, ram: Seq<u8>, at: int, x: int, y: int, count: nat)
    requires
        canvas.v.len() == NUM_REGISTERS,
        is_grid(canvas.display.cells),
        0 <= x < FLAG,
        0 <= y < FLAG,
        count <= 128,
    ensures
        canvas.drawn(ram, at, x, y, count).v == canvas.v.update(
            FLAG as int,
            flag(collides(canvas.display.cells, ram, at, canvas.v[x], canvas.v[y], count as int)),
        ),
    decreases count,
{
    let vx = canvas.v[x];
    let vy = canvas.v[y];
    let cells = canvas.display.cells;
    let after = canvas.drawn(ram, at, x, y, count);
    if count == 0 {
        assert(!collides(cells, ram, at, vx, vy, 0));
    } else {
        let shorter = (count - 1) as nat;
        let before = canvas.drawn(ram, at, x, y, shorter);
        lemma_drawn_flag(canvas, ram, at, x, y, shorter);
        lemma_drawn_cells(canvas, ram, at, x, y, shorter);
        let row = (count - 1) / 8;
        let column = (count - 1) % 8;
        let cx = (vx + column) % (SCREEN_WIDTH as int);
        let cy = (vy + row) % (SCREEN_HEIGHT as int);
        let set = sprite_bit(ram[at + row], column);
        assert(before.v[x] == vx && before.v[y] == vy);
        lemma_next_cell_is_free(ram, at, vx, vy, shorter as int);
        lemma_there_and_back(vy as int, row, SCREEN_HEIGHT as int);
        lemma_there_and_back(vx as int, column, SCREEN_WIDTH as int);
        assert(before.display.cells[cy][cx] == cells[cy][cx]);
        let hit_before = collides(cells, ram, at, vx, vy, shorter as int);
        let hit_now = collides(cells, ram, at, vx, vy, count as int);
        if hit_before {
            let (r, c) = choose|r: int, c: int|
                0 <= r < SCREEN_HEIGHT && 0 <= c < SCREEN_WIDTH && #[trigger] covered(
                    ram,
                    at,
                    vx,
                    vy,
                    shorter as int,
                    r,
                    c,
                ) && cells[r][c] == 1;
            lemma_cover_grows(ram, at, vx, vy, count as int, r, c);
            assert(covered(ram, at, vx, vy, count as int, r, c));
        }
        if set && cells[cy][cx] == 1 {
            lemma_cover_grows(ram, at, vx, vy, count as int, cy, cx);
            assert(covered(ram, at, vx, vy, count as int, cy, cx));
        }
        if hit_now {
            let (r, c) = choose|r: int, c: int|
                0 <= r < SCREEN_HEIGHT && 0 <= c < SCREEN_WIDTH && #[trigger] covered(
                    ram,
                    at,
                    vx,
                    vy,
                    count as int,
                    r,
                    c,
                ) && cells[r][c] == 1;
            lemma_cover_grows(ram, at, vx, vy, count as int, r, c);
            if covered(ram, at, vx, vy, shorter as int, r, c) {
                assert(hit_before);
            }
        }
        assert(hit_now <==> hit_before || (set && cells[cy][cx] == 1));
        assert(after.v =~= canvas.v.update(FLAG as int, flag(hit_now)));
    }
}

/// What the first `count` pixels of a sprite do to the signal: it is `Draw`
/// where any of them is set and stays as it was otherwise.
pub proof fn lemma_drawn_signal(canvas: Canvas, ram: Seq<u8>, at: int, x: int, y: int, count: nat)
    ensures
        canvas.drawn(ram, at, x, y, count).display.state == if any_pixel(ram, at, count as int) {
            DisplayState::Draw
        } else {
            canvas.display.state
        },
    decreases count,
{
    if count == 0 {
        assert(!any_pixel(ram, at, 0));
    } else {
        let shorter = (count - 1) as nat;
        lemma_drawn_signal(canvas, ram, at, x, y, shorter);
        let set = sprite_bit(ram[at + (count - 1) / 8], (count - 1) % 8);
        if any_pixel(ram, at, shorter as int) {
            let pixel = choose|pixel: int|
                0 <= pixel < shorter && #[trigger] sprite_bit(ram[at + pixel / 8], pixel % 8);
            assert(sprite_bit(ram[at + pixel / 8], pixel % 8));
            assert(any_pixel(ram, at, count as int));
        }
        if set {
            assert(any_pixel(ram, at, count as int));
        }
        if any_pixel(ram, at, count as int) && !any_pixel(ram, at, shorter as int) {
            let pixel = choose|pixel: int|
                0 <= pixel < count && #[trigger] sprite_bit(ram[at + pixel / 8], pixel % 8);
            assert(pixel == count - 1);
        }
    }
}

/// What a sprite of `n` rows does when it is drawn, for a sprite that neither
/// `Vx` nor `Vy` places by the flag register. Drawn onto a cell that holds 1,
/// it leaves the flag at 1; drawn where none of its set pixels meets such a
/// cell, it leaves the flag at 0. A sprite that reaches over an edge goes on
/// at the opposite edge.
pub proof fn lemma_sprite_collision(
    canvas: Canvas,
    ram: Seq<u8>,
    at: int,
    x: int,
    y: int,
    n: int,
)
    requires
        canvas.v.len() == NUM_REGISTERS,
        is_grid(canvas.display.cells),
        0 <= x < FLAG,
        0 <= y < FLAG,
        0 <= n < 16,
    ensures
        canvas.drawn(ram, at, x, y, (8 * n) as nat).v[FLAG as int] == flag(
            exists|row: int, column: int|
                0 <= row < n && 0 <= column < 8 && #[trigger] sprite_bit(ram[at + row], column)
                    && canvas.display.cells[(canvas.v[y] + row) % (SCREEN_HEIGHT as int)][(
                canvas.v[x] + column) % (SCREEN_WIDTH as int)] == 1,
        ),
        forall|row: int, column: int|
            0 <= row < n && 0 <= column < 8 && #[trigger] sprite_bit(ram[at + row], column)
                ==> canvas.drawn(ram, at, x, y, (8 * n) as nat).display.cells[(canvas.v[y] + row)
                % (SCREEN_HEIGHT as int)][(canvas.v[x] + column) % (SCREEN_WIDTH as int)]
                == canvas.display.cells[(canvas.v[y] + row) % (SCREEN_HEIGHT as int)][(canvas.v[x]
                + column) % (SCREEN_WIDTH as int)] ^ 1,
{
    let vx = canvas.v[x];
    let vy = canvas.v[y];
    let cells = canvas.display.cells;
    let count = 8 * n;
    lemma_drawn_flag(canvas, ram, at, x, y, count as nat);
    lemma_drawn_cells(canvas, ram, at, x, y, count as nat);
    let by_pixel = exists|row: int, column: int|
        0 <= row < n && 0 <= column < 8 && #[trigger] sprite_bit(ram[at + row], column) && cells[(
        vy + row) % (SCREEN_HEIGHT as int)][(vx + column) % (SCREEN_WIDTH as int)] == 1;
    let by_cell = collides(cells, ram, at, vx, vy, count);
    assert forall|row: int, column: int|
        0 <= row < n && 0 <= column < 8 && #[trigger] sprite_bit(
            ram[at + row],
            column,
        ) implies covered(
        ram,
        at,
        vx,
        vy,
        count,
        (vy + row) % (SCREEN_HEIGHT as int),
        (vx + column) % (SCREEN_WIDTH as int),
    ) by {
        lemma_there_and_back(vy as int, row, SCREEN_HEIGHT as int);
        lemma_there_and_back(vx as int, column, SCREEN_WIDTH as int);
    }
    if by_pixel {
        let (row, column) = choose|row: int, column: int|
            0 <= row < n && 0 <= column < 8 && #[trigger] sprite_bit(ram[at + row], column)
                && cells[(vy + row) % (SCREEN_HEIGHT as int)][(vx + column) % (
            SCREEN_WIDTH as int)] == 1;
        assert(covered(
            ram,
            at,
            vx,
            vy,
            count,
            (vy + row) % (SCREEN_HEIGHT as int),
            (vx + column) % (SCREEN_WIDTH as int),
        ));
        assert(by_cell);
    }
    if by_cell {
        let (r, c) = choose|r: int, c: int|
            0 <= r < SCREEN_HEIGHT && 0 <= c < SCREEN_WIDTH && #[trigger] covered(
                ram,
                at,
                vx,
                vy,
                count,
                r,
                c,
            ) && cells[r][c] == 1;
        let row = (r - vy) % (SCREEN_HEIGHT as int);
        let column = (c - vx) % (SCREEN_WIDTH as int);
        lemma_back_and_there(vy as int, r, SCREEN_HEIGHT as int);
        lemma_back_and_there(vx as int, c, SCREEN_WIDTH as int);
        assert(sprite_bit(ram[at + row], column));
        assert(by_pixel);
    }
}

/// The draw instruction, for a sprite that neither operand places by the flag
/// register, leaves the flag at 1 where one of the sprite's set pixels lands
/// on a cell that held 1, and at 0 where none does.
pub proof fn lemma_draw_sets_collision_flag(machine: Machine, opcode: u16, random_byte: u8)
    requires
        machine.shaped(),
        field_x(opcode) != FLAG,
        field_y(opcode) != FLAG,
    ensures
        machine.effect(Instructions::Draw, opcode, random_byte).v[FLAG as int] == flag(
            exists|row: int, column: int|
                0 <= row < field_n(opcode) && 0 <= column < 8 && #[trigger] sprite_bit(
                    machine.ram[machine.i + row],
                    column,
                ) && machine.display.cells[(machine.v[field_y(opcode)] + row) % (
                SCREEN_HEIGHT as int)][(machine.v[field_x(opcode)] + column) % (
                SCREEN_WIDTH as int)] == 1,
        ),
{
    lemma_sprite_collision(
        machine.canvas(),
        machine.ram,
        machine.i as int,
        field_x(opcode),
        field_y(opcode),
        field_n(opcode),
    );
}

} // verus!
