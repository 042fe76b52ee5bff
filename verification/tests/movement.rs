use vim_engine::game::map::{GridPosition, MapBounds};
use vim_engine::game::movement::{process_movement_intention, MoveIntentionEvent};

#[test]
fn move_within_bounds() {
    let bounds = MapBounds::default();
    let mut pos = GridPosition { col: 5, row: 2 };

    process_movement_intention(&bounds, &mut pos, &[MoveIntentionEvent { d_col: 1, d_row: -1 }]);

    assert_eq!(pos.col, 6);
    assert_eq!(pos.row, 1);
}

#[test]
fn move_blocks_at_boundaries() {
    let bounds = MapBounds::default();
    let mut pos = GridPosition { col: 0, row: 0 };

    process_movement_intention(&bounds, &mut pos, &[MoveIntentionEvent { d_col: -1, d_row: -1 }]);

    assert_eq!(pos.col, 0);
    assert_eq!(pos.row, 0);
}

#[test]
fn move_blocks_at_enemy_spawn_boundary() {
    let bounds = MapBounds::default();
    // Passable area is 0-7. Col 8 and 9 are spawn areas.
    let mut pos = GridPosition { col: 7, row: 0 };

    process_movement_intention(&bounds, &mut pos, &[MoveIntentionEvent { d_col: 1, d_row: 0 }]);

    assert_eq!(pos.col, 7); // Blocked at col 8
}

#[test]
fn move_multiple_events_processed_in_one_frame() {
    let bounds = MapBounds::default();
    let mut pos = GridPosition { col: 5, row: 2 };

    process_movement_intention(
        &bounds,
        &mut pos,
        &[
            MoveIntentionEvent { d_col: 1, d_row: 0 },
            MoveIntentionEvent { d_col: 1, d_row: 0 },
            MoveIntentionEvent { d_col: 0, d_row: -1 },
        ],
    );

    assert_eq!(pos.col, 7);
    assert_eq!(pos.row, 1);
}

#[test]
fn move_ignores_invalid_intentions_and_keeps_valid_ones() {
    let bounds = MapBounds::default();
    let mut pos = GridPosition { col: 0, row: 0 };

    process_movement_intention(
        &bounds,
        &mut pos,
        &[MoveIntentionEvent { d_col: -1, d_row: 0 }, MoveIntentionEvent { d_col: 0, d_row: 1 }],
    );

    assert_eq!(pos.col, 0);
    assert_eq!(pos.row, 1);
}
