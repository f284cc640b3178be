//! The 64x32 monochrome framebuffer and the sprite blitter.
//!
//! The framebuffer is a flat array of 2048 cells in row-major order: the cell
//! in column `col` of row `row` has index `row * 64 + col`. A sprite is a run
//! of bytes, one per row, each byte eight pixels wide with its most significant
//! bit leftmost. Drawing toggles the cell under every set sprite pixel, the
//! coordinates wrapping round both edges of the screen.

use vstd::prelude::*;

verus! {

/// Columns of the screen.
pub const SCREEN_WIDTH: usize = 64;

/// Rows of the screen.
pub const SCREEN_HEIGHT: usize = 32;

/// The index of the cell in column `col` of row `row`.
pub open spec fn cell_index(col: int, row: int) -> int {
    row * 64 + col
}

/// Pixel `c` of a sprite row, counted from the left, is set.
pub open spec fn sprite_bit(byte: u8, c: u8) -> bool {
    byte & (0x80u8 >> c) != 0
}

/// The sprite `rows`, drawn with its top left corner at `(px, py)`, has a set
/// pixel over the cell in column `col` of row `row`.
///
/// The sprite pixel `(c, r)` lies over the cell in column `(px + c) % 64` of row
/// `(py + r) % 32`; so the pixel over a given cell, if there is one, is the one
/// at the cell's distance from the corner, taken round the screen.
pub open spec fn sprite_lights(px: u8, py: u8, rows: Seq<u8>, col: int, row: int) -> bool {
    let c = (col - px) % 64;
    let r = (row - py) % 32;
    c < 8 && r < rows.len() && sprite_bit(rows[r], c as u8)
}

/// `sprite_lights` for the cell with index `k`.
pub open spec fn cell_lit(px: u8, py: u8, rows: Seq<u8>, k: int) -> bool {
    sprite_lights(px, py, rows, k % 64, k / 64)
}

/// The framebuffer after the sprite has been drawn: every cell under a set
/// sprite pixel is toggled, every other cell is kept.
pub open spec fn blit(screen: Seq<bool>, px: u8, py: u8, rows: Seq<u8>) -> Seq<bool> {
    Seq::new(2048, |k: int| screen[k] != cell_lit(px, py, rows, k))
}

/// Drawing the sprite turns off at least one cell that was on.
pub open spec fn collides(screen: Seq<bool>, px: u8, py: u8, rows: Seq<u8>) -> bool {
    exists|k: int| 0 <= k < 2048 && screen[k] && #[trigger] cell_lit(px, py, rows, k)
}

/// The framebuffer with every cell off.
pub open spec fn blank() -> Seq<bool> {
    Seq::new(2048, |k: int| false)
}

/// The index of the cell under pixel `c` of row `r` of a sprite whose top left
/// corner is at `(px, py)`.
pub open spec fn pixel_cell(px: u8, py: u8, c: int, r: int) -> int {
    cell_index((px + c) % 64, (py + r) % 32)
}

/// The part of `cell_lit` that the blitter has done when it stands before
/// pixel `c` of sprite row `r`: the pixels of the rows above and those to the
/// left in the row itself.
spec fn lit_so_far(px: u8, py: u8, rows: Seq<u8>, r: int, c: int, k: int) -> bool {
    let dc = (k % 64 - px) % 64;
    let dr = (k / 64 - py) % 32;
    cell_lit(px, py, rows, k) && (dr < r || (dr == r && dc < c))
}

/// A cell is under pixel `(c, r)` of the sprite exactly when it is the cell
/// that `pixel_cell` names.
proof fn lemma_pixel_cell(px: u8, py: u8, c: int, r: int, k: int)
    requires
        0 <= c < 8,
        0 <= r < 32,
        0 <= k < 2048,
    ensures
        0 <= pixel_cell(px, py, c, r) < 2048,
        k == pixel_cell(px, py, c, r) <==> ((k % 64 - px) % 64 == c && (k / 64 - py) % 32 == r),
{
    let col = (px + c) % 64;
    let row = (py + r) % 32;
    let at = row * 64 + col;
    assert(at % 64 == col && at / 64 == row);
    assert((col - px) % 64 == c);
    assert((row - py) % 32 == r);
    if (k % 64 - px) % 64 == c && (k / 64 - py) % 32 == r {
        assert(k % 64 == col);
        assert(k / 64 == row);
    }
}

/// Handling one more pixel adds the cell under it to what has been lit, if the
/// pixel is set, and nothing else.
proof fn lemma_lit_step(px: u8, py: u8, rows: Seq<u8>, r: int, c: int, k: int)
    requires
        0 <= r < rows.len() <= 32,
        0 <= c < 8,
        0 <= k < 2048,
    ensures
        lit_so_far(px, py, rows, r, c + 1, k) == (lit_so_far(px, py, rows, r, c, k) || (k
            == pixel_cell(px, py, c, r) && sprite_bit(rows[r], c as u8))),
        k == pixel_cell(px, py, c, r) ==> !lit_so_far(px, py, rows, r, c, k),
{
    lemma_pixel_cell(px, py, c, r, k);
}

/// Turns every cell of the framebuffer off.
pub fn clear_screen(screen: &mut [bool; 2048])
    ensures
        final(screen)@ == blank(),
        forall|k: int| 0 <= k < 2048 ==> !final(screen)@[k],
{
    let mut k: usize = 0;
    while k < 2048
        invariant
            k <= 2048,
            forall|j: int| 0 <= j < k ==> !screen@[j],
        decreases 2048 - k,
    {
        screen[k] = false;
        k = k + 1;
    }
}

/// Draws a sprite onto the framebuffer with its top left corner at
/// `(px, py)`, and reports whether that turned off a cell that was on.
///
/// A sprite is at most as tall as the screen, so that no cell lies under two of
/// its pixels.
pub fn draw_sprite(screen: &mut [bool; 2048], px: u8, py: u8, rows: &[u8]) -> (hit: bool)
    requires
        rows@.len() <= 32,
    ensures
        final(screen)@ == blit(old(screen)@, px, py, rows@),
        hit == collides(old(screen)@, px, py, rows@),
{
    let ghost before = screen@;
    let height: usize = rows.len();
    let mut hit: bool = false;
    let mut r: usize = 0;
    while r < height
        invariant
            height == rows@.len(),
            r <= height <= 32,
            forall|k: int|
                0 <= k < 2048 ==> #[trigger] screen@[k] == (before[k] != lit_so_far(
                    px,
                    py,
                    rows@,
                    r as int,
                    0,
                    k,
                )),
            hit == (exists|k: int|
                0 <= k < 2048 && before[k] && #[trigger] lit_so_far(px, py, rows@, r as int, 0, k)),
        decreases height - r,
    {
        let byte: u8 = rows[r];
        let row: usize = (py as usize + r) % SCREEN_HEIGHT;
        let mut c: u8 = 0;
        while c < 8
            invariant
                height == rows@.len(),
                r < height <= 32,
                c <= 8,
                byte == rows@[r as int],
                row == (py + r) % 32,
                forall|k: int|
                    0 <= k < 2048 ==> #[trigger] screen@[k] == (before[k] != lit_so_far(
                        px,
                        py,
                        rows@,
                        r as int,
                        c as int,
                        k,
                    )),
                hit == (exists|k: int|
                    0 <= k < 2048 && before[k] && #[trigger] lit_so_far(
                        px,
                        py,
                        rows@,
                        r as int,
                        c as int,
                        k,
                    )),
            decreases 8 - c,
        {
            let col: usize = (px as usize + c as usize) % SCREEN_WIDTH;
            let at: usize = row * SCREEN_WIDTH + col;
            let set: bool = byte & (0x80u8 >> c) != 0;
            let ghost hit_before = hit;
            let ghost screen_before = screen@;
            proof {
                lemma_pixel_cell(px, py, c as int, r as int, 0);
            }
            if set {
                if screen[at] {
                    hit = true;
                }
                screen[at] = !screen[at];
            }
            proof {
                let r0 = r as int;
                let c0 = c as int;
                let here = at as int;
                assert(here == pixel_cell(px, py, c0, r0));
                assert forall|k: int| 0 <= k < 2048 implies #[trigger] screen@[k] == (before[k]
                    != lit_so_far(px, py, rows@, r0, c0 + 1, k)) by {
                    lemma_lit_step(px, py, rows@, r0, c0, k);
                    assert(screen_before[k] == (before[k] != lit_so_far(px, py, rows@, r0, c0, k)));
                }
                lemma_lit_step(px, py, rows@, r0, c0, here);
                assert(screen_before[here] == before[here]);
                if hit_before {
                    let w = choose|k: int|
                        0 <= k < 2048 && before[k] && #[trigger] lit_so_far(px, py, rows@, r0, c0, k);
                    lemma_lit_step(px, py, rows@, r0, c0, w);
                    assert(lit_so_far(px, py, rows@, r0, c0 + 1, w));
                } else if set && before[here] {
                    assert(lit_so_far(px, py, rows@, r0, c0 + 1, here));
                } else {
                    assert forall|k: int| 0 <= k < 2048 && before[k] implies !#[trigger] lit_so_far(
                        px,
                        py,
                        rows@,
                        r0,
                        c0 + 1,
                        k,
                    ) by {
                        lemma_lit_step(px, py, rows@, r0, c0, k);
                        assert(!lit_so_far(px, py, rows@, r0, c0, k));
                    }
                }
            }
            c = c + 1;
        }
        proof {
            let r0 = r as int;
            assert forall|k: int| 0 <= k < 2048 implies #[trigger] lit_so_far(
                px,
                py,
                rows@,
                r0 + 1,
                0,
                k,
            ) == lit_so_far(px, py, rows@, r0, 8, k) by {}
            if hit {
                let w = choose|k: int|
                    0 <= k < 2048 && before[k] && #[trigger] lit_so_far(px, py, rows@, r0, 8, k);
                assert(lit_so_far(px, py, rows@, r0 + 1, 0, w));
            }
        }
        r = r + 1;
    }
    proof {
        let h = height as int;
        assert forall|k: int| 0 <= k < 2048 implies #[trigger] lit_so_far(px, py, rows@, h, 0, k)
            == cell_lit(px, py, rows@, k) by {}
        assert(screen@ =~= blit(before, px, py, rows@));
        if hit {
            let w = choose|k: int|
                0 <= k < 2048 && before[k] && #[trigger] lit_so_far(px, py, rows@, h, 0, k);
            assert(cell_lit(px, py, rows@, w));
        }
        if collides(before, px, py, rows@) {
            let w = choose|k: int| 0 <= k < 2048 && before[k] && #[trigger] cell_lit(px, py, rows@, k);
            assert(lit_so_far(px, py, rows@, h, 0, w));
        }
    }
    hit
}

/// A cell is toggled exactly when some set pixel of the sprite lands on it,
/// pixel `(c, r)` landing in column `(px + c) % 64` of row `(py + r) % 32`.
pub proof fn lemma_cell_lit_iff_pixel_lands(px: u8, py: u8, rows: Seq<u8>, k: int)
    requires
        rows.len() <= 32,
        0 <= k < 2048,
    ensures
        cell_lit(px, py, rows, k) <==> (exists|c: int, r: int|
            0 <= c < 8 && 0 <= r < rows.len() && sprite_bit(rows[r], c as u8) && #[trigger] pixel_cell(
                px,
                py,
                c,
                r,
            ) == k),
{
    if cell_lit(px, py, rows, k) {
        let c = (k % 64 - px) % 64;
        let r = (k / 64 - py) % 32;
        lemma_pixel_cell(px, py, c, r, k);
        assert(pixel_cell(px, py, c, r) == k);
    }
    if exists|c: int, r: int|
        0 <= c < 8 && 0 <= r < rows.len() && sprite_bit(rows[r], c as u8) && #[trigger] pixel_cell(
            px,
            py,
            c,
            r,
        ) == k {
        let (c, r) = choose|c: int, r: int|
            0 <= c < 8 && 0 <= r < rows.len() && sprite_bit(rows[r], c as u8) && #[trigger] pixel_cell(
                px,
                py,
                c,
                r,
            ) == k;
        lemma_pixel_cell(px, py, c, r, k);
    }
}

/// Drawing a sprite a second time in the same place undoes the first drawing:
/// the cells it had turned on go off again, those it had turned off come back
/// on, and every other cell was never touched.
pub proof fn lemma_blit_twice_restores(screen: Seq<bool>, px: u8, py: u8, rows: Seq<u8>)
    requires
        screen.len() == 2048,
    ensures
        blit(blit(screen, px, py, rows), px, py, rows) == screen,
{
    assert(blit(blit(screen, px, py, rows), px, py, rows) =~= screen);
}

/// The second of two drawings of one sprite in one place reports a collision
/// exactly when the first one turned a cell on, that is when some set pixel of
/// the sprite lay over a cell that was off.
pub proof fn lemma_second_blit_collides(screen: Seq<bool>, px: u8, py: u8, rows: Seq<u8>)
    requires
        screen.len() == 2048,
    ensures
        collides(blit(screen, px, py, rows), px, py, rows) <==> (exists|k: int|
            0 <= k < 2048 && !screen[k] && #[trigger] cell_lit(px, py, rows, k)),
{
    let drawn = blit(screen, px, py, rows);
    if collides(drawn, px, py, rows) {
        let k = choose|k: int| 0 <= k < 2048 && drawn[k] && #[trigger] cell_lit(px, py, rows, k);
        assert(!screen[k]);
    }
    if exists|k: int| 0 <= k < 2048 && !screen[k] && #[trigger] cell_lit(px, py, rows, k) {
        let k = choose|k: int| 0 <= k < 2048 && !screen[k] && #[trigger] cell_lit(px, py, rows, k);
        assert(drawn[k]);
    }
}

} // verus!
