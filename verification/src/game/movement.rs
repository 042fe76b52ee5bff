use vstd::prelude::*;
use crate::game::map::{GridPosition, MapBounds};

verus! {

/// A request to move the player by a number of columns and rows.
#[derive(Debug, Clone, Copy, PartialEq, Eq, Structural)]
pub struct MoveIntentionEvent {
    pub d_col: i32,
    pub d_row: i32,
}

/// One move: the player goes to the target cell when it is passable (and
/// within the range of `i32`), and stays otherwise.
pub open spec fn step_position(bounds: &MapBounds, pos: GridPosition, ev: MoveIntentionEvent) -> GridPosition {
    let col = pos.col + ev.d_col;
    let row = pos.row + ev.d_row;
    if i32::MIN <= col <= i32::MAX && i32::MIN <= row <= i32::MAX && bounds.passable(col, row) {
        GridPosition { col: col as i32, row: row as i32 }
    } else {
        pos
    }
}

/// The position after the moves, taken in order.
pub open spec fn final_position(bounds: &MapBounds, pos: GridPosition, evs: Seq<MoveIntentionEvent>) -> GridPosition
    decreases evs.len(),
{
    if evs.len() == 0 {
        pos
    } else {
        step_position(bounds, final_position(bounds, pos, evs.drop_last()), evs.last())
    }
}

/// Applies the move intentions of one frame to the player's position.
pub fn process_movement_intention(bounds: &MapBounds, pos: &mut GridPosition, intentions: &[MoveIntentionEvent])
    ensures
        *final(pos) == final_position(bounds, *old(pos), intentions@),
{
    let mut i: usize = 0;
    while i < intentions.len()
        invariant
            i <= intentions@.len(),
            *pos == final_position(bounds, *old(pos), intentions@.take(i as int)),
        decreases intentions@.len() - i,
    {
        let intention = intentions[i];
        assert(intentions@.take(i + 1).drop_last() == intentions@.take(i as int));
        match (pos.col.checked_add(intention.d_col), pos.row.checked_add(intention.d_row)) {
            (Some(new_col), Some(new_row)) => {
                if bounds.is_passable(new_col, new_row) {
                    pos.col = new_col;
                    pos.row = new_row;
                }
            },
            _ => {},
        }
        i = i + 1;
    }
    assert(intentions@.take(intentions@.len() as int) == intentions@);
}

/// The player never stands anywhere but where it started or on a passable
/// cell: every move that would leave the passable area is refused.
pub proof fn law_moves_stay_passable(bounds: &MapBounds, pos: GridPosition, evs: Seq<MoveIntentionEvent>)
    ensures
        final_position(bounds, pos, evs) == pos
            || bounds.passable(final_position(bounds, pos, evs).col as int, final_position(bounds, pos, evs).row as int),
    decreases evs.len(),
{
    if evs.len() > 0 {
        law_moves_stay_passable(bounds, pos, evs.drop_last());
    }
}

/// A player on a passable cell stays on passable cells.
pub proof fn law_passable_is_kept(bounds: &MapBounds, pos: GridPosition, evs: Seq<MoveIntentionEvent>)
    requires
        bounds.passable(pos.col as int, pos.row as int),
    ensures
        bounds.passable(final_position(bounds, pos, evs).col as int, final_position(bounds, pos, evs).row as int),
{
    law_moves_stay_passable(bounds, pos, evs);
}

} // verus!
