use vstd::prelude::*;

verus! {

/// A cell of the grid.
#[derive(Debug, Clone, Copy, PartialEq, Eq, Structural)]
pub struct GridPosition {
    pub col: i32,
    pub row: i32,
}

/// The playing field. Columns and rows are closed intervals, including min
/// and max; the rightmost `enemy_spawn_cols` columns are where enemies
/// spawn and cannot be entered.
pub struct MapBounds {
    pub min_col: i32,
    pub max_col: i32,
    pub min_row: i32,
    pub max_row: i32,
    /// num of right cols where enemies spawn
    pub enemy_spawn_cols: i32,
    /// Cells that cannot be entered (a set: order and repetition do not matter).
    pub obstacles: Vec<(i32, i32)>,
}

impl MapBounds {
    /// Whether `(col, row)` is one of the obstacles.
    pub open spec fn is_obstacle(&self, col: int, row: int) -> bool {
        exists|i: int| 0 <= i < self.obstacles@.len() && #[trigger] self.obstacles@[i].0 == col && self.obstacles@[i].1 == row
    }

    /// Whether `(col, row)` lies inside the map, left of the spawn columns,
    /// and is no obstacle.
    pub open spec fn passable(&self, col: int, row: int) -> bool {
        &&& self.min_col <= col
        &&& col <= self.max_col - self.enemy_spawn_cols
        &&& self.min_row <= row
        &&& row <= self.max_row
        &&& !self.is_obstacle(col, row)
    }

    /// Whether the player may stand on `(col, row)`.
    pub fn is_passable(&self, col: i32, row: i32) -> (r: bool)
        ensures
            r == self.passable(col as int, row as int),
    {
        let last_col = self.max_col as i64 - self.enemy_spawn_cols as i64;
        if col < self.min_col || col as i64 > last_col || row < self.min_row || row > self.max_row {
            return false;
        }
        let mut i: usize = 0;
        while i < self.obstacles.len()
            invariant
                i <= self.obstacles@.len(),
                forall|j: int| 0 <= j < i ==> !(self.obstacles@[j].0 == col && self.obstacles@[j].1 == row),
            decreases self.obstacles@.len() - i,
        {
            let (o_col, o_row) = self.obstacles[i];
            if o_col == col && o_row == row {
                return false;
            }
            i = i + 1;
        }
        true
    }
}

impl Default for MapBounds {
    /// A map of 10 columns and 6 rows whose two rightmost columns are spawn
    /// columns, with no obstacles.
    fn default() -> (r: Self)
        ensures
            r.min_col == 0,
            r.max_col == 9,
            r.min_row == 0,
            r.max_row == 5,
            r.enemy_spawn_cols == 2,
            r.obstacles@ == Seq::<(i32, i32)>::empty(),
    {
        MapBounds { min_col: 0, max_col: 9, min_row: 0, max_row: 5, enemy_spawn_cols: 2, obstacles: Vec::new() }
    }
}

} // verus!
