//! The 64x32 monochrome display buffer with XOR sprite blitting and
//! collision detection.
//!
//! Cells are stored one byte per pixel, row-major, and every cell is always
//! 0 or 1. Sprites are eight pixels wide, one byte per row with the most
//! significant bit leftmost, and both axes wrap around: drawing is toroidal,
//! never clipped.

use vstd::prelude::*;

verus! {

/// Pixel columns on the display.
pub const DISPLAY_WIDTH: u16 = 64;

/// Pixel rows on the display.
pub const DISPLAY_HEIGHT: u16 = 32;

/// Cells in the flat, row-major buffer.
pub const DISPLAY_SIZE: usize = 2048;

/// The flat buffer index written by row `r`, bit `j` of a sprite drawn at
/// `(x, y)`: both axes wrap.
pub open spec fn cell_index(x: u8, y: u8, r: int, j: int) -> int {
    ((y + r) % (DISPLAY_HEIGHT as int)) * (DISPLAY_WIDTH as int) + ((x + j) % (DISPLAY_WIDTH as int))
}

/// Bit `j` of a sprite row byte, leftmost (most significant) first.
pub open spec fn sprite_bit(byte: u8, j: int) -> u8 {
    (byte >> ((7 - j) as u8)) & 1
}

/// Whether drawing `rows` sprite rows at `(x, y)` touches cell `c`.
pub open spec fn sprite_covers(x: u8, y: u8, rows: int, c: int) -> bool {
    exists|r: int, j: int| 0 <= r < rows && 0 <= j < 8 && #[trigger] cell_index(x, y, r, j) == c
}

/// Whether blitting `sprite` at `(x, y)` over `prior` erases some lit cell:
/// some lit sprite bit lands on a lit cell.
pub open spec fn draw_collision(prior: Seq<u8>, x: u8, y: u8, sprite: Seq<u8>) -> bool {
    exists|r: int, j: int|
        0 <= r < sprite.len() && 0 <= j < 8 && sprite_bit(sprite[r], j) == 1 && prior[#[trigger] cell_index(
            x,
            y,
            r,
            j,
        )] == 1
}

/// The full effect of one XOR blit: every targeted cell is the XOR of its
/// prior value and the sprite bit, every other cell is untouched, and
/// `collision` holds exactly when some previously lit cell was erased.
pub open spec fn draw_result(
    prior: Seq<u8>,
    x: u8,
    y: u8,
    sprite: Seq<u8>,
    updated: Seq<u8>,
    collision: bool,
) -> bool {
    &&& updated.len() == prior.len()
    &&& forall|r: int, j: int|
        0 <= r < sprite.len() && 0 <= j < 8 ==> updated[#[trigger] cell_index(x, y, r, j)] == (
        prior[cell_index(x, y, r, j)] ^ sprite_bit(sprite[r], j))
    &&& forall|c: int|
        0 <= c < prior.len() && !sprite_covers(x, y, sprite.len() as int, c) ==> updated[c]
            == prior[c]
    &&& (collision <==> draw_collision(prior, x, y, sprite))
}

/// Every sprite cell index lies inside the buffer.
pub proof fn lemma_cell_index_bounds(x: u8, y: u8, r: int, j: int)
    requires
        0 <= r,
        0 <= j,
    ensures
        0 <= cell_index(x, y, r, j) < DISPLAY_SIZE,
{
    assert(0 <= (y + r) % 32 < 32);
    assert(0 <= (x + j) % 64 < 64);
}

/// Within one blit of at most 32 rows, distinct (row, bit) pairs target
/// distinct cells.
pub proof fn lemma_cell_index_injective(
    x: u8,
    y: u8,
    rows: int,
    r1: int,
    j1: int,
    r2: int,
    j2: int,
)
    requires
        rows <= 32,
        0 <= r1 < rows,
        0 <= j1 < 8,
        0 <= r2 < rows,
        0 <= j2 < 8,
        cell_index(x, y, r1, j1) == cell_index(x, y, r2, j2),
    ensures
        r1 == r2,
        j1 == j2,
{
    let row1 = (y + r1) % 32;
    let row2 = (y + r2) % 32;
    let col1 = (x + j1) % 64;
    let col2 = (x + j2) % 64;
    assert(0 <= row1 < 32 && 0 <= row2 < 32 && 0 <= col1 < 64 && 0 <= col2 < 64);
    assert(row1 == row2 && col1 == col2) by {
        assert(row1 * 64 + col1 == row2 * 64 + col2);
    };
    assert((y + r1) == 32 * ((y + r1) / 32) + row1);
    assert((y + r2) == 32 * ((y + r2) / 32) + row2);
    assert((x + j1) == 64 * ((x + j1) / 64) + col1);
    assert((x + j2) == 64 * ((x + j2) / 64) + col2);
}

/// One (row, bit) pair of the blit in progress has been applied already:
/// the outer loop stands at row `r`, the inner loop at bit `j`.
pub open spec fn pair_done(r: int, j: int, rr: int, jj: int) -> bool {
    rr < r || (rr == r && jj < j)
}

pub struct Display {
    /// The flat cell buffer, row-major, 64 columns by 32 rows, each cell
    /// 0 or 1. Exposed for the rendering host to read; it must not write.
    pub buffer: Vec<u8>,
}

impl Display {
    /// The cells as a sequence.
    pub open spec fn cells(&self) -> Seq<u8> {
        self.buffer@
    }

    /// Well-formedness: exactly 2048 cells, each 0 or 1.
    pub open spec fn wf(&self) -> bool {
        &&& self.buffer@.len() == DISPLAY_SIZE
        &&& forall|i: int| 0 <= i < DISPLAY_SIZE ==> self.buffer@[i] == 0 || #[trigger] self.buffer@[i] == 1
    }

    /// A fresh display, all cells dark.
    pub fn new() -> (r: Display)
        ensures
            r.wf(),
            forall|i: int| 0 <= i < DISPLAY_SIZE ==> r.cells()[i] == 0,
    {
        let mut buffer: Vec<u8> = Vec::new();
        let mut k: usize = 0;
        while k < DISPLAY_SIZE
            invariant
                k <= DISPLAY_SIZE,
                buffer@.len() == k,
                forall|i: int| 0 <= i < k ==> buffer@[i] == 0u8,
            decreases DISPLAY_SIZE - k,
        {
            buffer.push(0u8);
            k = k + 1;
        }
        Display { buffer }
    }

    /// Darken every cell.
    pub fn clear(&mut self)
        requires
            old(self).wf(),
        ensures
            final(self).wf(),
            final(self).cells().len() == DISPLAY_SIZE,
            forall|i: int| 0 <= i < DISPLAY_SIZE ==> final(self).cells()[i] == 0,
    {
        let fresh = Display::new();
        self.buffer = fresh.buffer;
    }

    /// XOR-blit a sprite at `(x, y)`, wrapping on both axes, and report
    /// whether any previously lit cell was turned dark.
    pub fn draw(&mut self, x: u8, y: u8, sprite_data: &Vec<u8>) -> (collision: bool)
        requires
            old(self).wf(),
            sprite_data@.len() <= 15,
        ensures
            final(self).wf(),
            draw_result(old(self).cells(), x, y, sprite_data@, final(self).cells(), collision),
    {
        let ghost prior = old(self).cells();
        let ghost sprite = sprite_data@;
        let rows = sprite_data.len();
        let mut erased = false;
        let mut r: usize = 0;
        while r < rows
            invariant
                self.buffer@.len() == DISPLAY_SIZE,
                forall|i: int| 0 <= i < DISPLAY_SIZE ==> self.buffer@[i] == 0 || #[trigger] self.buffer@[i] == 1,
                rows == sprite.len() <= 15,
                sprite == sprite_data@,
                prior.len() == DISPLAY_SIZE,
                r <= rows,
                forall|rr: int, jj: int|
                    0 <= rr < rows && 0 <= jj < 8 && pair_done(r as int, 0, rr, jj)
                        ==> self.buffer@[#[trigger] cell_index(x, y, rr, jj)] == (
                    prior[cell_index(x, y, rr, jj)] ^ sprite_bit(sprite[rr], jj)),
                forall|c: int|
                    0 <= c < DISPLAY_SIZE && !(exists|rr: int, jj: int|
                        0 <= rr < rows && 0 <= jj < 8 && pair_done(r as int, 0, rr, jj)
                            && #[trigger] cell_index(x, y, rr, jj) == c) ==> self.buffer@[c]
                        == prior[c],
                erased <==> exists|rr: int, jj: int|
                    0 <= rr < rows && 0 <= jj < 8 && pair_done(r as int, 0, rr, jj)
                        && sprite_bit(sprite[rr], jj) == 1 && prior[#[trigger] cell_index(
                        x,
                        y,
                        rr,
                        jj,
                    )] == 1,
            decreases rows - r,
        {
            let byte = sprite_data[r];
            let current_y: u16 = ((y as u16) + (r as u16)) % DISPLAY_HEIGHT;
            let mut j: usize = 0;
            while j < 8
                invariant
                    self.buffer@.len() == DISPLAY_SIZE,
                    forall|i: int| 0 <= i < DISPLAY_SIZE ==> self.buffer@[i] == 0 || #[trigger] self.buffer@[i] == 1,
                    rows == sprite.len() <= 15,
                    sprite == sprite_data@,
                    prior.len() == DISPLAY_SIZE,
                    r < rows,
                    j <= 8,
                    byte == sprite[r as int],
                    current_y == (y + r) % 32,
                    forall|rr: int, jj: int|
                        0 <= rr < rows && 0 <= jj < 8 && pair_done(r as int, j as int, rr, jj)
                            ==> self.buffer@[#[trigger] cell_index(x, y, rr, jj)] == (
                        prior[cell_index(x, y, rr, jj)] ^ sprite_bit(sprite[rr], jj)),
                    forall|c: int|
                        0 <= c < DISPLAY_SIZE && !(exists|rr: int, jj: int|
                            0 <= rr < rows && 0 <= jj < 8 && pair_done(r as int, j as int, rr, jj)
                                && #[trigger] cell_index(x, y, rr, jj) == c) ==> self.buffer@[c]
                            == prior[c],
                    erased <==> exists|rr: int, jj: int|
                        0 <= rr < rows && 0 <= jj < 8 && pair_done(r as int, j as int, rr, jj)
                            && sprite_bit(sprite[rr], jj) == 1 && prior[#[trigger] cell_index(
                            x,
                            y,
                            rr,
                            jj,
                        )] == 1,
                decreases 8 - j,
            {
                let current_x: u16 = ((x as u16) + (j as u16)) % DISPLAY_WIDTH;
                let buffer_index: usize = ((current_y * DISPLAY_WIDTH) + current_x) as usize;
                proof {
                    lemma_cell_index_bounds(x, y, r as int, j as int);
                    assert(buffer_index == cell_index(x, y, r as int, j as int));
                    // The cell written now has not been written yet.
                    if exists|rr: int, jj: int|
                        0 <= rr < rows && 0 <= jj < 8 && pair_done(r as int, j as int, rr, jj)
                            && #[trigger] cell_index(x, y, rr, jj) == buffer_index {
                        let (rr, jj) = choose|rr: int, jj: int|
                            0 <= rr < rows && 0 <= jj < 8 && pair_done(r as int, j as int, rr, jj)
                                && #[trigger] cell_index(x, y, rr, jj) == buffer_index;
                        lemma_cell_index_injective(x, y, rows as int, rr, jj, r as int, j as int);
                        assert(false);
                    }
                }
                let old_pixel = self.buffer[buffer_index];
                let shift: u8 = 7 - (j as u8);
                let current_bit = (byte >> shift) & 1;
                proof {
                    let b = byte;
                    let s = shift;
                    assert(((b >> s) & 1) == 0 || ((b >> s) & 1) == 1) by (bit_vector);
                    let p = old_pixel;
                    let cb = (b >> s) & 1;
                    assert((cb ^ p) == (p ^ cb)) by (bit_vector);
                    assert(p <= 1 && cb <= 1 ==> ((cb ^ p) <= 1 && ((p == 1 && (cb ^ p) == 0) <==> (
                    p == 1 && cb == 1)))) by (bit_vector);
                }
                let new_pixel = current_bit ^ old_pixel;
                self.buffer.set(buffer_index, new_pixel);
                if old_pixel == 1 && new_pixel == 0 {
                    erased = true;
                }
                proof {
                    // Cells already written keep their values: they differ
                    // from the one written now.
                    assert forall|rr: int, jj: int|
                        0 <= rr < rows && 0 <= jj < 8 && pair_done(r as int, (j + 1) as int, rr, jj)
                            implies self.buffer@[#[trigger] cell_index(x, y, rr, jj)] == (
                        prior[cell_index(x, y, rr, jj)] ^ sprite_bit(sprite[rr], jj)) by {
                        if rr == r as int && jj == j as int {
                        } else {
                            assert(pair_done(r as int, j as int, rr, jj));
                            if cell_index(x, y, rr, jj) == buffer_index {
                                lemma_cell_index_injective(
                                    x,
                                    y,
                                    rows as int,
                                    rr,
                                    jj,
                                    r as int,
                                    j as int,
                                );
                            }
                        }
                    }
                }
                j = j + 1;
            }
            r = r + 1;
        }
        erased
    }
}

/// Drawing the same sprite twice in a row at the same coordinates restores
/// the display exactly, and the second blit reports a collision if and only
/// if the sprite has any lit pixel: the XOR blit is self-inverse.
pub proof fn lemma_draw_self_inverse(
    prior: Seq<u8>,
    x: u8,
    y: u8,
    sprite: Seq<u8>,
    mid: Seq<u8>,
    updated: Seq<u8>,
    c1: bool,
    c2: bool,
)
    requires
        prior.len() == DISPLAY_SIZE,
        forall|i: int| 0 <= i < DISPLAY_SIZE ==> prior[i] == 0 || #[trigger] prior[i] == 1,
        sprite.len() <= 15,
        draw_result(prior, x, y, sprite, mid, c1),
        draw_result(mid, x, y, sprite, updated, c2),
    ensures
        updated =~= prior,
{
    assert forall|c: int| 0 <= c < DISPLAY_SIZE implies updated[c] == prior[c] by {
        if sprite_covers(x, y, sprite.len() as int, c) {
            let (r, j) = choose|r: int, j: int|
                0 <= r < sprite.len() && 0 <= j < 8 && #[trigger] cell_index(x, y, r, j) == c;
            let p = prior[c];
            let b = sprite_bit(sprite[r], j);
            assert(mid[c] == (p ^ b));
            assert(updated[c] == ((p ^ b) ^ b));
            assert(((p ^ b) ^ b) == p) by (bit_vector);
        }
    }
}

/// Drawing any sprite onto a cleared display and then drawing it again
/// leaves the display cleared, and the second blit reports a collision
/// exactly when the sprite has a lit pixel.
pub proof fn lemma_draw_twice_on_clear(
    prior: Seq<u8>,
    x: u8,
    y: u8,
    sprite: Seq<u8>,
    mid: Seq<u8>,
    updated: Seq<u8>,
    c1: bool,
    c2: bool,
)
    requires
        prior.len() == DISPLAY_SIZE,
        forall|i: int| 0 <= i < DISPLAY_SIZE ==> prior[i] == 0,
        sprite.len() <= 15,
        draw_result(prior, x, y, sprite, mid, c1),
        draw_result(mid, x, y, sprite, updated, c2),
    ensures
        forall|i: int| 0 <= i < DISPLAY_SIZE ==> updated[i] == 0,
        c2 <==> exists|r: int, j: int|
            0 <= r < sprite.len() && 0 <= j < 8 && #[trigger] sprite_bit(sprite[r], j) == 1,
{
    assert(forall|i: int| 0 <= i < DISPLAY_SIZE ==> prior[i] == 0 || #[trigger] prior[i] == 1);
    lemma_draw_self_inverse(prior, x, y, sprite, mid, updated, c1, c2);
    if exists|r: int, j: int|
        0 <= r < sprite.len() && 0 <= j < 8 && #[trigger] sprite_bit(sprite[r], j) == 1 {
        let (r, j) = choose|r: int, j: int|
            0 <= r < sprite.len() && 0 <= j < 8 && #[trigger] sprite_bit(sprite[r], j) == 1;
        lemma_cell_index_bounds(x, y, r, j);
        let c = cell_index(x, y, r, j);
        let b = sprite_bit(sprite[r], j);
        assert(mid[c] == (prior[c] ^ b));
        let p = prior[c];
        assert(p == 0 && b == 1 ==> (p ^ b) == 1) by (bit_vector);
        assert(c2);
    }
    if c2 {
        let (r, j) = choose|r: int, j: int|
            0 <= r < sprite.len() && 0 <= j < 8 && sprite_bit(sprite[r], j) == 1 && mid[#[trigger] cell_index(
                x,
                y,
                r,
                j,
            )] == 1;
        assert(sprite_bit(sprite[r], j) == 1);
    }
}

} // verus!
