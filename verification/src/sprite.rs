//! Reasoning about a sprite that is part-way drawn: which pixels the rows
//! and columns handled so far have toggled, and how one more step changes that.

use vstd::prelude::*;
use crate::machine::pixel_position;
use crate::machine::sprite_bit;
use crate::machine::Machine;

verus! {

/// Column of the sprite drawn at horizontal offset `vx` that falls on position `p`.
#[verifier::opaque]
pub open spec fn sprite_col(vx: u8, p: int) -> int {
    (p % 64 - vx) % 64
}

/// Row of the sprite drawn at vertical offset `vy` that falls on position `p`.
#[verifier::opaque]
pub open spec fn sprite_row(vy: u8, p: int) -> int {
    (p / 64 - vy) % 32
}

/// Sprite coordinates lie within the display.
pub proof fn lemma_sprite_coordinates(vx: u8, vy: u8, p: int)
    ensures
        0 <= sprite_col(vx, p) < 64,
        0 <= sprite_row(vy, p) < 32,
{
    reveal(sprite_col);
    reveal(sprite_row);
}

/// Whether the part of the sprite that comes before column `col` of row
/// `row`, in drawing order, toggles the pixel at position `p`.
pub open spec fn toggled_before(m: Machine, vx: u8, vy: u8, row: int, col: int, p: int) -> bool {
    let c = sprite_col(vx, p);
    let r = sprite_row(vy, p);
    c < 8 && (r < row || (r == row && c < col)) && sprite_bit(m.memory[m.index + r], c as u8)
}

/// Whether the part of the sprite that comes before column `col` of row
/// `row` toggles a pixel that was lit.
pub open spec fn collided_before(m: Machine, vx: u8, vy: u8, row: int, col: int) -> bool {
    exists|p: int| 0 <= p < 2048 && m.display[p] && #[trigger] toggled_before(m, vx, vy, row, col, p)
}

/// The display once the part of the sprite before column `col` of row `row` is drawn.
pub open spec fn drawn_before(m: Machine, vx: u8, vy: u8, row: int, col: int, display: Seq<bool>) -> bool {
    &&& display.len() == 2048
    &&& m.display.len() == 2048
    &&& forall|p: int|
        0 <= p < 2048 ==> #[trigger] display[p] == (m.display[p] != toggled_before(
            m,
            vx,
            vy,
            row,
            col,
            p,
        ))
}

/// The one position whose sprite coordinates are `(row, col)` is `pixel_position`.
pub proof fn lemma_pixel_position(vx: u8, vy: u8, row: int, col: int, p: int)
    requires
        0 <= row < 32,
        0 <= col < 64,
        0 <= p < 2048,
    ensures
        0 <= pixel_position(vx, vy, row, col) < 2048,
        (sprite_col(vx, p) == col && sprite_row(vy, p) == row) <==> p == pixel_position(
            vx,
            vy,
            row,
            col,
        ),
        0 <= sprite_col(vx, p) < 64,
        0 <= sprite_row(vy, p) < 32,
{
    reveal(sprite_col);
    reveal(sprite_row);
}

/// Nothing is drawn before the first column of the first row.
pub proof fn lemma_draw_start(m: Machine, vx: u8, vy: u8)
    requires
        m.display.len() == 2048,
    ensures
        drawn_before(m, vx, vy, 0, 0, m.display),
        !collided_before(m, vx, vy, 0, 0),
{
    assert forall|p: int| !toggled_before(m, vx, vy, 0, 0, p) by {
        lemma_sprite_coordinates(vx, vy, p);
    }
}

/// A column whose bit is clear changes nothing.
pub proof fn lemma_draw_clear_bit(m: Machine, vx: u8, vy: u8, row: int, col: int, display: Seq<bool>)
    requires
        0 <= row < 16,
        0 <= col < 8,
        drawn_before(m, vx, vy, row, col, display),
        !sprite_bit(m.memory[m.index + row], col as u8),
    ensures
        drawn_before(m, vx, vy, row, col + 1, display),
        collided_before(m, vx, vy, row, col + 1) == collided_before(m, vx, vy, row, col),
{
    assert forall|p: int| 0 <= p < 2048 implies toggled_before(m, vx, vy, row, col + 1, p)
        == toggled_before(m, vx, vy, row, col, p) by {}
    if collided_before(m, vx, vy, row, col) {
        let p = choose|p: int|
            0 <= p < 2048 && m.display[p] && #[trigger] toggled_before(m, vx, vy, row, col, p);
        assert(toggled_before(m, vx, vy, row, col + 1, p));
    }
    if collided_before(m, vx, vy, row, col + 1) {
        let p = choose|p: int|
            0 <= p < 2048 && m.display[p] && #[trigger] toggled_before(m, vx, vy, row, col + 1, p);
        assert(toggled_before(m, vx, vy, row, col, p));
    }
}

/// A column whose bit is set inverts the pixel it falls on, and collides
/// exactly if that pixel was lit.
pub proof fn lemma_draw_set_bit(m: Machine, vx: u8, vy: u8, row: int, col: int, display: Seq<bool>)
    requires
        0 <= row < 16,
        0 <= col < 8,
        drawn_before(m, vx, vy, row, col, display),
        sprite_bit(m.memory[m.index + row], col as u8),
    ensures
        ({
            let q = pixel_position(vx, vy, row, col);
            &&& 0 <= q < 2048
            &&& display[q] == m.display[q]
            &&& drawn_before(m, vx, vy, row, col + 1, display.update(q, !display[q]))
            &&& collided_before(m, vx, vy, row, col + 1) == (collided_before(m, vx, vy, row, col)
                || display[q])
        }),
{
    let q = pixel_position(vx, vy, row, col);
    lemma_pixel_position(vx, vy, row, col, q);
    assert(!toggled_before(m, vx, vy, row, col, q));
    assert(toggled_before(m, vx, vy, row, col + 1, q));
    assert forall|p: int| 0 <= p < 2048 && p != q implies toggled_before(m, vx, vy, row, col + 1, p)
        == toggled_before(m, vx, vy, row, col, p) by {
        lemma_pixel_position(vx, vy, row, col, p);
    }
    let after = display.update(q, !display[q]);
    assert forall|p: int| 0 <= p < 2048 implies #[trigger] after[p] == (m.display[p] != toggled_before(
        m,
        vx,
        vy,
        row,
        col + 1,
        p,
    )) by {
        if p != q {
            assert(toggled_before(m, vx, vy, row, col, p) == toggled_before(m, vx, vy, row, col + 1, p));
        }
    }
    if collided_before(m, vx, vy, row, col) {
        let p = choose|p: int|
            0 <= p < 2048 && m.display[p] && #[trigger] toggled_before(m, vx, vy, row, col, p);
        assert(p != q);
        assert(toggled_before(m, vx, vy, row, col + 1, p));
    }
    if collided_before(m, vx, vy, row, col + 1) {
        let p = choose|p: int|
            0 <= p < 2048 && m.display[p] && #[trigger] toggled_before(m, vx, vy, row, col + 1, p);
        if p != q {
            assert(toggled_before(m, vx, vy, row, col, p));
        }
    }
}

/// The end of one row is the start of the next.
pub proof fn lemma_draw_next_row(m: Machine, vx: u8, vy: u8, row: int, display: Seq<bool>)
    requires
        0 <= row < 16,
        drawn_before(m, vx, vy, row, 8, display),
    ensures
        drawn_before(m, vx, vy, row + 1, 0, display),
        collided_before(m, vx, vy, row + 1, 0) == collided_before(m, vx, vy, row, 8),
{
    assert forall|p: int| 0 <= p < 2048 implies toggled_before(m, vx, vy, row + 1, 0, p)
        == toggled_before(m, vx, vy, row, 8, p) by {
        lemma_sprite_coordinates(vx, vy, p);
    }
    if collided_before(m, vx, vy, row, 8) {
        let p = choose|p: int|
            0 <= p < 2048 && m.display[p] && #[trigger] toggled_before(m, vx, vy, row, 8, p);
        assert(toggled_before(m, vx, vy, row + 1, 0, p));
    }
    if collided_before(m, vx, vy, row + 1, 0) {
        let p = choose|p: int|
            0 <= p < 2048 && m.display[p] && #[trigger] toggled_before(m, vx, vy, row + 1, 0, p);
        assert(toggled_before(m, vx, vy, row, 8, p));
    }
}

/// Once every row is handled the whole sprite is drawn.
pub proof fn lemma_draw_done(m: Machine, vx: u8, vy: u8, rows: u8, display: Seq<bool>)
    requires
        rows < 16,
        drawn_before(m, vx, vy, rows as int, 0, display),
    ensures
        display == m.drawn_display(vx, vy, rows),
        collided_before(m, vx, vy, rows as int, 0) == m.sprite_collides(vx, vy, rows),
{
    assert forall|p: int| 0 <= p < 2048 implies toggled_before(m, vx, vy, rows as int, 0, p)
        == m.sprite_toggles(vx, vy, rows, p) by {
        reveal(sprite_col);
        reveal(sprite_row);
    }
    assert(display =~= m.drawn_display(vx, vy, rows));
    if collided_before(m, vx, vy, rows as int, 0) {
        let p = choose|p: int|
            0 <= p < 2048 && m.display[p] && #[trigger] toggled_before(m, vx, vy, rows as int, 0, p);
        assert(m.sprite_toggles(vx, vy, rows, p));
    }
    if m.sprite_collides(vx, vy, rows) {
        let p = choose|p: int|
            0 <= p < 2048 && m.display[p] && #[trigger] m.sprite_toggles(vx, vy, rows, p);
        assert(toggled_before(m, vx, vy, rows as int, 0, p));
    }
}

} // verus!
