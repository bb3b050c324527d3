//! How far a draw has come: the predicates that the drawing loops keep, and
//! the steps that carry them from one pixel and one row to the next.

use vstd::prelude::*;
use crate::instruction::Instruction;
use crate::semantics::{sprite_bit, sprite_offset, sprite_row_covers};
use crate::state::MachineState;

verus! {

/// The display of `now` is that of `start` with the first `columns` pixels
/// of the sprite row `data` XORed onto row `y` from column `left` on.
pub(crate) closed spec fn row_drawn(
    start: MachineState,
    now: MachineState,
    data: u8,
    left: int,
    y: int,
    columns: int,
) -> bool {
    forall|px: int, py: int|
        0 <= px < 64 && 0 <= py < 32 ==> #[trigger] now.pixel(px, py) == (start.pixel(px, py) != (py
            == y && sprite_row_covers(data, left, px) && sprite_offset(left, px, 64) < columns))
}

/// One of the first `columns` pixels of the sprite row `data` is set and
/// falls on a lit pixel of row `y` of `start`.
pub(crate) closed spec fn row_hit(
    start: MachineState,
    data: u8,
    left: int,
    y: int,
    columns: int,
) -> bool {
    exists|px: int|
        0 <= px < 64 && start.pixel(px, y) && #[trigger] sprite_row_covers(data, left, px)
            && sprite_offset(left, px, 64) < columns
}

/// The display of `now` is that of `start` with the first `rows` rows of the
/// sprite of `ins` XORed onto it.
pub(crate) closed spec fn sprite_drawn(
    start: MachineState,
    now: MachineState,
    ins: Instruction,
    rows: int,
) -> bool {
    forall|px: int, py: int|
        0 <= px < 64 && 0 <= py < 32 ==> #[trigger] now.pixel(px, py) == (start.pixel(px, py) != (
        start.sprite_covers(ins, px, py) && sprite_offset(start.sprite_top(ins), py, 32) < rows))
}

/// One of the first `rows` rows of the sprite of `ins` has a set pixel on a
/// lit pixel of `start`.
pub(crate) closed spec fn sprite_hit(start: MachineState, ins: Instruction, rows: int) -> bool {
    exists|px: int, py: int|
        0 <= px < 64 && 0 <= py < 32 && start.pixel(px, py) && #[trigger] start.sprite_covers(
            ins,
            px,
            py,
        ) && sprite_offset(start.sprite_top(ins), py, 32) < rows
}

/// On an axis that wraps around, the position `offset` after `origin` lies
/// `offset` after it, and no other position does.
pub(crate) proof fn lemma_offset_of_position(origin: int, offset: int, size: int)
    requires
        0 <= origin < size,
        0 <= offset < size,
    ensures
        0 <= (origin + offset) % size < size,
        sprite_offset(origin, (origin + offset) % size, size) == offset,
        forall|position: int|
            0 <= position < size && position != (origin + offset) % size ==> #[trigger] sprite_offset(
                origin,
                position,
                size,
            ) != offset,
{
    let target = (origin + offset) % size;
    if origin + offset < size {
        vstd::arithmetic::div_mod::lemma_small_mod((origin + offset) as nat, size as nat);
    } else {
        vstd::arithmetic::div_mod::lemma_small_mod((origin + offset - size) as nat, size as nat);
        vstd::arithmetic::div_mod::lemma_mod_add_multiples_vanish(origin + offset - size, size);
    }
    assert forall|position: int| 0 <= position < size implies (#[trigger] sprite_offset(
        origin,
        position,
        size,
    ) == if position >= origin {
        position - origin
    } else {
        position - origin + size
    }) by {
        if position >= origin {
            vstd::arithmetic::div_mod::lemma_small_mod((position - origin) as nat, size as nat);
            vstd::arithmetic::div_mod::lemma_mod_add_multiples_vanish(position - origin, size);
        } else {
            vstd::arithmetic::div_mod::lemma_small_mod(
                (position - origin + size) as nat,
                size as nat,
            );
        }
    }
    assert(sprite_offset(origin, target, size) == offset);
}

/// Before the first pixel of a row nothing is drawn and nothing is hit.
pub(crate) proof fn lemma_row_start(start: MachineState, data: u8, left: int, y: int)
    ensures
        row_drawn(start, start, data, left, y, 0),
        !row_hit(start, data, left, y, 0),
{
}

/// One pixel further along a row: the pixel in sprite column `column` lands
/// in display column `(left + column) % 64`, is flipped where the sprite
/// has it set, and is a hit where it was lit.
pub(crate) proof fn lemma_row_step(
    start: MachineState,
    before: MachineState,
    now: MachineState,
    data: u8,
    left: int,
    y: int,
    column: int,
)
    requires
        0 <= left < 64,
        0 <= y < 32,
        0 <= column < 8,
        row_drawn(start, before, data, left, y, column),
        forall|px: int, py: int|
            0 <= px < 64 && 0 <= py < 32 ==> #[trigger] now.pixel(px, py) == (if px == (left
                + column) % 64 && py == y {
                before.pixel(px, py) != sprite_bit(data, column as u8)
            } else {
                before.pixel(px, py)
            }),
    ensures
        row_drawn(start, now, data, left, y, column + 1),
        before.pixel((left + column) % 64, y) == start.pixel((left + column) % 64, y),
        row_hit(start, data, left, y, column + 1) == (row_hit(start, data, left, y, column) || (
        sprite_bit(data, column as u8) && start.pixel((left + column) % 64, y))),
{
    let x = (left + column) % 64;
    lemma_offset_of_position(left, column, 64);
    assert(before.pixel(x, y) == start.pixel(x, y));
    assert forall|px: int, py: int| 0 <= px < 64 && 0 <= py < 32 implies #[trigger] now.pixel(
        px,
        py,
    ) == (start.pixel(px, py) != (py == y && sprite_row_covers(data, left, px) && sprite_offset(
        left,
        px,
        64,
    ) < column + 1)) by {
        assert(before.pixel(px, py) == (start.pixel(px, py) != (py == y && sprite_row_covers(
            data,
            left,
            px,
        ) && sprite_offset(left, px, 64) < column)));
    }
    if row_hit(start, data, left, y, column + 1) {
        let px = choose|px: int|
            0 <= px < 64 && start.pixel(px, y) && #[trigger] sprite_row_covers(data, left, px)
                && sprite_offset(left, px, 64) < column + 1;
    }
    if row_hit(start, data, left, y, column) {
        let px = choose|px: int|
            0 <= px < 64 && start.pixel(px, y) && #[trigger] sprite_row_covers(data, left, px)
                && sprite_offset(left, px, 64) < column;
        assert(sprite_row_covers(data, left, px));
    }
    if sprite_bit(data, column as u8) && start.pixel(x, y) {
        assert(sprite_row_covers(data, left, x));
    }
}

/// Before the first row of a sprite nothing is drawn and nothing is hit.
pub(crate) proof fn lemma_sprite_start(start: MachineState, ins: Instruction)
    ensures
        sprite_drawn(start, start, ins, 0),
        !sprite_hit(start, ins, 0),
{
}

/// One row further down a sprite: row `row` of the sprite lands in display
/// row `(top + row) % 32`.
pub(crate) proof fn lemma_sprite_step(
    start: MachineState,
    before: MachineState,
    now: MachineState,
    ins: Instruction,
    row: int,
)
    requires
        start.wf(),
        ins.wf(),
        0 <= row < ins.n,
        sprite_drawn(start, before, ins, row),
        row_drawn(
            before,
            now,
            start.memory[start.index + row],
            start.sprite_left(ins),
            (start.sprite_top(ins) + row) % 32,
            8,
        ),
    ensures
        sprite_drawn(start, now, ins, row + 1),
        sprite_hit(start, ins, row + 1) == (sprite_hit(start, ins, row) || row_hit(
            before,
            start.memory[start.index + row],
            start.sprite_left(ins),
            (start.sprite_top(ins) + row) % 32,
            8,
        )),
{
    let data = start.memory[start.index + row];
    let left = start.sprite_left(ins);
    let top = start.sprite_top(ins);
    let y = (top + row) % 32;
    lemma_offset_of_position(top, row, 32);
    assert forall|px: int, py: int| 0 <= px < 64 && 0 <= py < 32 implies #[trigger] now.pixel(
        px,
        py,
    ) == (start.pixel(px, py) != (start.sprite_covers(ins, px, py) && sprite_offset(top, py, 32)
        < row + 1)) by {
        assert(before.pixel(px, py) == (start.pixel(px, py) != (start.sprite_covers(ins, px, py)
            && sprite_offset(top, py, 32) < row)));
    }
    assert forall|px: int| 0 <= px < 64 implies before.pixel(px, y) == start.pixel(px, y) by {
        assert(before.pixel(px, y) == (start.pixel(px, y) != (start.sprite_covers(ins, px, y)
            && sprite_offset(top, y, 32) < row)));
    }
    if sprite_hit(start, ins, row + 1) {
        let (px, py) = choose|px: int, py: int|
            0 <= px < 64 && 0 <= py < 32 && start.pixel(px, py) && #[trigger] start.sprite_covers(
                ins,
                px,
                py,
            ) && sprite_offset(top, py, 32) < row + 1;
        if sprite_offset(top, py, 32) == row {
            assert(sprite_row_covers(data, left, px));
        }
    }
    if sprite_hit(start, ins, row) {
        let (px, py) = choose|px: int, py: int|
            0 <= px < 64 && 0 <= py < 32 && start.pixel(px, py) && #[trigger] start.sprite_covers(
                ins,
                px,
                py,
            ) && sprite_offset(top, py, 32) < row;
        assert(start.sprite_covers(ins, px, py));
    }
    if row_hit(before, data, left, y, 8) {
        let px = choose|px: int|
            0 <= px < 64 && before.pixel(px, y) && #[trigger] sprite_row_covers(data, left, px)
                && sprite_offset(left, px, 64) < 8;
        assert(start.sprite_covers(ins, px, y));
    }
}

/// After the last row the display is the one that the draw is to leave, and
/// a pixel was hit exactly where the sprite collides.
pub(crate) proof fn lemma_sprite_done(start: MachineState, now: MachineState, ins: Instruction)
    requires
        start.wf(),
        now.wf(),
        ins.wf(),
        sprite_drawn(start, now, ins, ins.n as int),
    ensures
        now.display == start.display_after_draw(ins),
        sprite_hit(start, ins, ins.n as int) == start.sprite_collides(ins),
{
    let next = start.display_after_draw(ins);
    assert forall|py: int| 0 <= py < 32 implies #[trigger] now.display[py] =~= next[py] by {
        assert forall|px: int| 0 <= px < 64 implies now.display[py][px] == next[py][px] by {
            assert(now.pixel(px, py) == (start.pixel(px, py) != start.sprite_covers(ins, px, py)));
        }
    }
    assert(now.display =~= next);
    if start.sprite_collides(ins) {
        let (px, py) = choose|px: int, py: int|
            0 <= px < 64 && 0 <= py < 32 && start.pixel(px, py) && #[trigger] start.sprite_covers(
                ins,
                px,
                py,
            );
        assert(sprite_offset(start.sprite_top(ins), py, 32) < ins.n);
    }
    if sprite_hit(start, ins, ins.n as int) {
        let (px, py) = choose|px: int, py: int|
            0 <= px < 64 && 0 <= py < 32 && start.pixel(px, py) && #[trigger] start.sprite_covers(
                ins,
                px,
                py,
            ) && sprite_offset(start.sprite_top(ins), py, 32) < ins.n;
        assert(start.sprite_covers(ins, px, py));
    }
}

} // verus!
