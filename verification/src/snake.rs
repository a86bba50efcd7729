use vstd::prelude::*;

use crate::keys::KeyCode;
use crate::types::Snake;

verus! {

/// The number of cells along each side of the board.
pub const BOARD_SIZE: i8 = 13;

/// What a cell of the board shows.
#[derive(Debug, Clone, Copy, PartialEq, Eq, Structural)]
pub enum SnakeCell {
    Empty,
    Body,
    Head,
    Fruit,
}

impl Snake {
    /// What the cell at `pos` shows: the fruit is drawn over the head, and
    /// the head over the rest of the body.
    pub open spec fn cell_at(&self, pos: (i8, i8)) -> SnakeCell {
        if self.fruit_pos == pos {
            SnakeCell::Fruit
        } else if self.tiles@[0] == pos {
            SnakeCell::Head
        } else if self.tiles@.contains(pos) {
            SnakeCell::Body
        } else {
            SnakeCell::Empty
        }
    }

    /// A new game: a snake of three cells in the middle row heading right,
    /// with the fruit ahead of it.
    pub fn make_game() -> (r: Snake)
        ensures
            r.current_dir == (1i8, 0i8),
            r.tiles@ == seq![(3i8, 6i8), (2i8, 6i8), (1i8, 6i8)],
            r.fruit_pos == (8i8, 6i8),
    {
        Snake { current_dir: (1, 0), tiles: vec![(3, 6), (2, 6), (1, 6)], fruit_pos: (8, 6) }
    }

    /// Applies one key press: `w` turns the snake upwards; every other key
    /// does nothing.
    pub fn handle_key(&mut self, key: KeyCode)
        ensures
            final(self).tiles == old(self).tiles,
            final(self).fruit_pos == old(self).fruit_pos,
            final(self).current_dir == if key == KeyCode::Char('w') {
                (0i8, -1i8)
            } else {
                old(self).current_dir
            },
    {
        if key == KeyCode::Char('w') {
            self.current_dir = (0, -1);
        }
    }

    /// What the cell at `pos` shows.
    pub fn cell(&self, pos: (i8, i8)) -> (r: SnakeCell)
        requires
            self.tiles@.len() > 0,
        ensures
            r == self.cell_at(pos),
    {
        if self.fruit_pos.0 == pos.0 && self.fruit_pos.1 == pos.1 {
            return SnakeCell::Fruit;
        }
        if self.tiles[0].0 == pos.0 && self.tiles[0].1 == pos.1 {
            return SnakeCell::Head;
        }
        assert(self.fruit_pos != pos);
        assert(self.tiles@[0] != pos);
        let mut i: usize = 1;
        while i < self.tiles.len()
            invariant
                1 <= i <= self.tiles@.len(),
                self.fruit_pos != pos,
                self.tiles@[0] != pos,
                forall|j: int| 0 <= j < i ==> self.tiles@[j] != pos,
            decreases self.tiles@.len() - i,
        {
            if self.tiles[i].0 == pos.0 && self.tiles[i].1 == pos.1 {
                assert(self.tiles@[i as int] == pos);
                return SnakeCell::Body;
            }
            i = i + 1;
        }
        SnakeCell::Empty
    }

    /// What every cell of the board shows, row by row: the cell in row `y`
    /// and column `x` is the one at position `(x, y)`.
    pub fn board(&self) -> (r: Vec<Vec<SnakeCell>>)
        requires
            self.tiles@.len() > 0,
        ensures
            r@.len() == BOARD_SIZE,
            forall|y: int| 0 <= y < BOARD_SIZE ==> (#[trigger] r@[y])@.len() == BOARD_SIZE,
            forall|y: int, x: int|
                0 <= y < BOARD_SIZE && 0 <= x < BOARD_SIZE ==> #[trigger] r@[y]@[x] == self.cell_at(
                    (x as i8, y as i8),
                ),
    {
        let mut rows: Vec<Vec<SnakeCell>> = Vec::new();
        let mut y: i8 = 0;
        while y < BOARD_SIZE
            invariant
                0 <= y <= BOARD_SIZE,
                self.tiles@.len() > 0,
                rows@.len() == y,
                forall|r: int| 0 <= r < y ==> (#[trigger] rows@[r])@.len() == BOARD_SIZE,
                forall|r: int, x: int|
                    0 <= r < y && 0 <= x < BOARD_SIZE ==> #[trigger] rows@[r]@[x] == self.cell_at(
                        (x as i8, r as i8),
                    ),
            decreases BOARD_SIZE - y,
        {
            let mut cells: Vec<SnakeCell> = Vec::new();
            let mut x: i8 = 0;
            while x < BOARD_SIZE
                invariant
                    0 <= x <= BOARD_SIZE,
                    0 <= y < BOARD_SIZE,
                    self.tiles@.len() > 0,
                    cells@.len() == x,
                    forall|k: int| 0 <= k < x ==> #[trigger] cells@[k] == self.cell_at((k as i8, y)),
                decreases BOARD_SIZE - x,
            {
                cells.push(self.cell((x, y)));
                x = x + 1;
            }
            rows.push(cells);
            y = y + 1;
        }
        rows
    }
}

} // verus!
