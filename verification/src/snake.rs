//! The snake on its square grid.
//!
//! The snake is the queue of cells that it covers, oldest first, together
//! with the cell of its head. Each move steps the head by one offset; the
//! snake grows by a cell when the head reaches the award and otherwise
//! gives up its oldest cell.

use crate::highscore::record_score;
use crate::random::random_usize;
use std::collections::VecDeque;
use vstd::prelude::*;
use vstd::set_lib::{lemma_int_range, lemma_len_subset, set_int_range};

verus! {

/// Number of rows, and of columns, of the grid.
pub const GRID_SIZE: usize = 15;

/// How often [`place_award`] draws a cell at random before it settles for
/// the first free one.
pub const AWARD_DRAWS: usize = 1024;

/// `(x, y)` names a cell of the grid.
pub open spec fn in_grid(x: int, y: int) -> bool {
    0 <= x < GRID_SIZE && 0 <= y < GRID_SIZE
}

/// The snake: the cell of its head, by column `grid_x` and row `grid_y`,
/// and the cells that it covers, oldest first.
#[derive(Debug)]
pub struct Snake {
    pub grid_x: usize,
    pub grid_y: usize,
    pub history: VecDeque<(usize, usize)>,
}

impl Snake {
    /// The cells that the snake covers, oldest first.
    pub open spec fn cells(&self) -> Seq<(usize, usize)> {
        self.history@
    }

    /// The head and every covered cell lie on the grid, the snake covers
    /// at least one cell, and no cell twice.
    pub open spec fn wf(&self) -> bool {
        &&& in_grid(self.grid_x as int, self.grid_y as int)
        &&& self.cells().len() >= 1
        &&& forall|i: int|
            0 <= i < self.cells().len() ==> in_grid(
                (#[trigger] self.cells()[i]).0 as int,
                self.cells()[i].1 as int,
            )
        &&& self.cells().no_duplicates()
    }

    /// The cell that the head steps to when moved by `(dx, dy)`.
    pub open spec fn target(&self, dx: int, dy: int) -> (int, int) {
        (self.grid_x + dx, self.grid_y + dy)
    }

    /// A move by `(dx, dy)` ends the game: the head would leave the grid or
    /// run into a cell that the snake covers.
    pub open spec fn crashes(&self, dx: int, dy: int) -> bool {
        let (x, y) = self.target(dx, dy);
        !in_grid(x, y) || self.cells().contains((x as usize, y as usize))
    }

    /// A move by `(dx, dy)` reaches the award at `award_pos` without
    /// crashing.
    pub open spec fn eats(&self, dx: int, dy: int, award_pos: (usize, usize)) -> bool {
        let (x, y) = self.target(dx, dy);
        !self.crashes(dx, dy) && award_pos.0 == x && award_pos.1 == y
    }

    /// The head after a move by `(dx, dy)`: each coordinate follows the
    /// move on its own, where that keeps it on the grid.
    pub open spec fn head_after(&self, dx: int, dy: int) -> (int, int) {
        let (x, y) = self.target(dx, dy);
        (
            if 0 <= x < GRID_SIZE {
                x
            } else {
                self.grid_x as int
            },
            if 0 <= y < GRID_SIZE {
                y
            } else {
                self.grid_y as int
            },
        )
    }

    /// The covered cells after a move by `(dx, dy)` with the award at
    /// `award_pos`. A move that crashes leaves them as they are. Otherwise
    /// the cell stepped to is covered as the newest one, and unless the
    /// award lies there the oldest one is given up.
    pub open spec fn cells_after(&self, dx: int, dy: int, award_pos: (usize, usize)) -> Seq<
        (usize, usize),
    > {
        let (x, y) = self.target(dx, dy);
        if self.crashes(dx, dy) {
            self.cells()
        } else if self.eats(dx, dy, award_pos) {
            self.cells().push((x as usize, y as usize))
        } else {
            self.cells().push((x as usize, y as usize)).drop_first()
        }
    }

    /// The cell `(x, y)` lies on the grid and the snake does not cover it.
    pub open spec fn is_free(&self, x: int, y: int) -> bool {
        in_grid(x, y) && !self.cells().contains((x as usize, y as usize))
    }

    /// The snake covers every cell of the grid.
    pub open spec fn fills_grid(&self) -> bool {
        forall|x: int, y: int| !self.is_free(x, y)
    }

    /// A snake of one cell in the top-left corner, its head one row below.
    pub fn new() -> (s: Snake)
        ensures
            s.grid_x == 0,
            s.grid_y == 1,
            s.cells() == seq![(0usize, 0usize)],
            s.wf(),
    {
        let mut history = VecDeque::new();
        history.push_back((0, 0));
        Snake { grid_x: 0, grid_y: 1, history }
    }

    /// Whether the snake covers the cell `(x, y)`.
    pub fn occupies(&self, x: usize, y: usize) -> (found: bool)
        ensures
            found == self.cells().contains((x, y)),
    {
        let mut i: usize = 0;
        while i < self.history.len()
            invariant
                i <= self.history@.len(),
                forall|j: int| 0 <= j < i ==> self.cells()[j] != (x, y),
            decreases self.history@.len() - i,
        {
            let cell = self.history[i];
            if cell.0 == x && cell.1 == y {
                assert(self.cells()[i as int] == (x, y));
                return true;
            }
            i += 1;
        }
        false
    }

    /// Moves the head by `(dx, dy)`, with the award lying at `award_pos`.
    /// Returns whether the award was eaten and whether the game is over;
    /// see [`Snake::head_after`] and [`Snake::cells_after`].
    pub fn move_snake(&mut self, dx: isize, dy: isize, award_pos: (usize, usize)) -> (r: (
        bool,
        bool,
    ))
        ensures
            r.0 == old(self).eats(dx as int, dy as int, award_pos),
            r.1 == old(self).crashes(dx as int, dy as int),
            (final(self).grid_x as int, final(self).grid_y as int) == old(self).head_after(
                dx as int,
                dy as int,
            ),
            final(self).cells() == old(self).cells_after(dx as int, dy as int, award_pos),
            old(self).wf() ==> final(self).wf(),
    {
        let new_x: i128 = self.grid_x as i128 + dx as i128;
        let new_y: i128 = self.grid_y as i128 + dy as i128;
        let x_fits = 0 <= new_x && new_x < GRID_SIZE as i128;
        let y_fits = 0 <= new_y && new_y < GRID_SIZE as i128;

        if x_fits {
            self.grid_x = new_x as usize;
        }
        if y_fits {
            self.grid_y = new_y as usize;
        }
        if !(x_fits && y_fits) {
            return (false, true);
        }
        if self.occupies(self.grid_x, self.grid_y) {
            return (false, true);
        }
        let head = (self.grid_x, self.grid_y);
        self.history.push_back(head);
        proof {
            if old(self).wf() {
                lemma_push_fresh(old(self).cells(), head);
            }
        }
        if award_pos.0 == self.grid_x && award_pos.1 == self.grid_y {
            (true, false)
        } else {
            self.history.pop_front();
            proof {
                if old(self).wf() {
                    lemma_drop_first(old(self).cells().push(head));
                }
            }
            (false, false)
        }
    }
}

/// Appending a cell that a sequence does not hold keeps it free of
/// duplicates.
proof fn lemma_push_fresh(cells: Seq<(usize, usize)>, cell: (usize, usize))
    requires
        cells.no_duplicates(),
        !cells.contains(cell),
    ensures
        cells.push(cell).no_duplicates(),
{
    let longer = cells.push(cell);
    assert forall|i: int, j: int| 0 <= i < longer.len() && 0 <= j < longer.len() && i != j implies longer[i]
        != longer[j] by {
        if i < cells.len() && j < cells.len() {
        } else if i < cells.len() {
            assert(cells.contains(cells[i]));
        } else {
            assert(cells.contains(cells[j]));
        }
    }
}

/// Dropping the first cell keeps a sequence free of duplicates, and what
/// is left are cells of the sequence.
proof fn lemma_drop_first(cells: Seq<(usize, usize)>)
    requires
        cells.len() >= 1,
        cells.no_duplicates(),
    ensures
        cells.drop_first().no_duplicates(),
        cells.drop_first() == cells.subrange(1, cells.len() as int),
        forall|i: int| 0 <= i < cells.drop_first().len() ==> cells.drop_first()[i] == cells[i + 1],
{
}

/// A snake that lies on the grid without covering a cell twice covers no
/// more cells than the grid has.
pub proof fn lemma_snake_fits_grid(cells: Seq<(usize, usize)>)
    requires
        cells.no_duplicates(),
        forall|i: int|
            0 <= i < cells.len() ==> in_grid((#[trigger] cells[i]).0 as int, cells[i].1 as int),
    ensures
        cells.len() <= GRID_SIZE * GRID_SIZE,
{
    let numbers = Seq::new(cells.len(), |i: int| cells[i].0 * 15 + cells[i].1);
    assert forall|i: int, j: int|
        0 <= i < numbers.len() && 0 <= j < numbers.len() && i != j implies numbers[i]
        != numbers[j] by {
        assert(in_grid(cells[i].0 as int, cells[i].1 as int));
        assert(in_grid(cells[j].0 as int, cells[j].1 as int));
        assert(cells[i] != cells[j]);
    }
    numbers.unique_seq_to_set();
    lemma_int_range(0, 225);
    assert forall|n: int| numbers.to_set().contains(n) implies set_int_range(0, 225).contains(
        n,
    ) by {
        let i = choose|i: int| 0 <= i < numbers.len() && numbers[i] == n;
        assert(in_grid(cells[i].0 as int, cells[i].1 as int));
    }
    lemma_len_subset(numbers.to_set(), set_int_range(0, 225));
}

/// The first cell, column by column from the left and from the top down in
/// each column, that `snake` does not cover; `None` when it fills the grid.
pub fn first_free_cell(snake: &Snake) -> (pos: Option<(usize, usize)>)
    ensures
        pos is None <==> snake.fills_grid(),
        pos matches Some(p) ==> {
            &&& snake.is_free(p.0 as int, p.1 as int)
            &&& forall|x: int, y: int|
                in_grid(x, y) && (x < p.0 || (x == p.0 && y < p.1)) ==> !snake.is_free(x, y)
        },
{
    let mut x: usize = 0;
    while x < GRID_SIZE
        invariant
            x <= GRID_SIZE,
            forall|a: int, b: int| in_grid(a, b) && a < x ==> !snake.is_free(a, b),
        decreases GRID_SIZE - x,
    {
        let mut y: usize = 0;
        while y < GRID_SIZE
            invariant
                x < GRID_SIZE,
                y <= GRID_SIZE,
                forall|a: int, b: int|
                    in_grid(a, b) && (a < x || (a == x && b < y)) ==> !snake.is_free(a, b),
            decreases GRID_SIZE - y,
        {
            if !snake.occupies(x, y) {
                assert(snake.is_free(x as int, y as int));
                return Some((x, y));
            }
            y += 1;
        }
        x += 1;
    }
    None
}

/// Picks a cell for the next award: one on the grid that `snake` does not
/// cover, or `None` when it fills the grid.
///
/// Cells are drawn at random until a free one comes up; after
/// [`AWARD_DRAWS`] draws without one, the first free cell is taken.
pub fn place_award(snake: &Snake) -> (pos: Option<(usize, usize)>)
    ensures
        pos is None <==> snake.fills_grid(),
        pos matches Some(p) ==> snake.is_free(p.0 as int, p.1 as int),
{
    let mut draws: usize = 0;
    while draws < AWARD_DRAWS
        invariant
            draws <= AWARD_DRAWS,
        decreases AWARD_DRAWS - draws,
    {
        let x = random_usize(0, GRID_SIZE);
        let y = random_usize(0, GRID_SIZE);
        if !snake.occupies(x, y) {
            assert(snake.is_free(x as int, y as int));
            return Some((x, y));
        }
        draws += 1;
    }
    first_free_cell(snake)
}

/// The keys that are held in a frame.
#[derive(Clone, Copy, Debug, PartialEq, Eq, Structural)]
pub struct Keys {
    pub up: bool,
    pub down: bool,
    pub left: bool,
    pub right: bool,
    pub space: bool,
}

/// The direction of the next move. Of the arrow keys held, the first in
/// the order up, down, left, right counts, unless it would turn the snake
/// back on itself; with none that counts, the direction stays.
pub open spec fn steered(direction: (isize, isize), keys: Keys) -> (isize, isize) {
    if keys.up && direction != (0isize, 1isize) {
        (0isize, -1isize)
    } else if keys.down && direction != (0isize, -1isize) {
        (0isize, 1isize)
    } else if keys.left && direction != (1isize, 0isize) {
        (-1isize, 0isize)
    } else if keys.right && direction != (-1isize, 0isize) {
        (1isize, 0isize)
    } else {
        direction
    }
}

/// Computes the direction of the next move; see [`steered`].
pub fn steer(direction: (isize, isize), keys: &Keys) -> (next: (isize, isize))
    ensures
        next == steered(direction, *keys),
{
    if keys.up && !(direction.0 == 0 && direction.1 == 1) {
        (0, -1)
    } else if keys.down && !(direction.0 == 0 && direction.1 == -1) {
        (0, 1)
    } else if keys.left && !(direction.0 == 1 && direction.1 == 0) {
        (-1, 0)
    } else if keys.right && !(direction.0 == -1 && direction.1 == 0) {
        (1, 0)
    } else {
        direction
    }
}

/// A game of snake: the snake, the award, and the scores.
#[derive(Debug)]
pub struct SnakeGame {
    pub snake: Snake,
    pub award_pos: (usize, usize),
    pub score: i32,
    pub direction: (isize, isize),
    pub game_over: bool,
    pub high_score: i32,
}

impl SnakeGame {
    /// The snake is well formed and one point is scored for each cell
    /// that it has grown by.
    pub open spec fn wf(&self) -> bool {
        &&& self.snake.wf()
        &&& self.score + 1 == self.snake.cells().len()
    }

    /// In a well-formed game fewer points are scored than the grid has
    /// cells.
    pub proof fn lemma_score_bound(&self)
        requires
            self.wf(),
        ensures
            0 <= self.score < GRID_SIZE * GRID_SIZE,
    {
        lemma_snake_fits_grid(self.snake.cells());
    }

    /// A game as it starts, with the best score so far: the snake heads
    /// right and an award lies on a free cell.
    pub fn new(high_score: i32) -> (g: SnakeGame)
        ensures
            g.wf(),
            g.snake.grid_x == 0,
            g.snake.grid_y == 1,
            g.snake.cells() == seq![(0usize, 0usize)],
            g.snake.is_free(g.award_pos.0 as int, g.award_pos.1 as int),
            g.score == 0,
            g.direction == (1isize, 0isize),
            !g.game_over,
            g.high_score == high_score,
    {
        let snake = Snake::new();
        let award_pos = match place_award(&snake) {
            Some(pos) => pos,
            None => {
                // Never taken: a snake of one cell leaves cells free.
                assert(snake.is_free(1, 1));
                (1, 1)
            },
        };
        SnakeGame { snake, award_pos, score: 0, direction: (1, 0), game_over: false, high_score }
    }

    /// Plays one frame with the keys `keys` held. Returns the score that
    /// is to be stored as the new best one, if there is one.
    ///
    /// While the game is on, the snake is steered and moved. When it eats
    /// the award it scores a point and a new award is placed on a free
    /// cell, if there is one. When it crashes the game is over.
    ///
    /// Once the game is over, a score above the best one so far becomes
    /// the best one and is returned, and the space key starts a new game,
    /// in which the award stays where it was.
    pub fn step(&mut self, keys: &Keys) -> (saved: Option<i32>)
        requires
            old(self).score < i32::MAX,
        ensures
            old(self).wf() ==> final(self).wf(),
            !old(self).game_over ==> {
                let d = steered(old(self).direction, *keys);
                let ate = old(self).snake.eats(d.0 as int, d.1 as int, old(self).award_pos);
                &&& saved is None
                &&& final(self).direction == d
                &&& (final(self).snake.grid_x as int, final(self).snake.grid_y as int) == old(
                    self,
                ).snake.head_after(d.0 as int, d.1 as int)
                &&& final(self).snake.cells() == old(self).snake.cells_after(
                    d.0 as int,
                    d.1 as int,
                    old(self).award_pos,
                )
                &&& final(self).game_over == old(self).snake.crashes(d.0 as int, d.1 as int)
                &&& final(self).score == old(self).score + if ate {
                    1int
                } else {
                    0int
                }
                &&& final(self).high_score == old(self).high_score
                &&& if ate && !final(self).snake.fills_grid() {
                    final(self).snake.is_free(
                        final(self).award_pos.0 as int,
                        final(self).award_pos.1 as int,
                    )
                } else {
                    final(self).award_pos == old(self).award_pos
                }
            },
            old(self).game_over ==> {
                &&& saved == if old(self).score > old(self).high_score {
                    Some(old(self).score)
                } else {
                    None
                }
                &&& final(self).high_score == if old(self).score > old(self).high_score {
                    old(self).score
                } else {
                    old(self).high_score
                }
                &&& final(self).award_pos == old(self).award_pos
                &&& if keys.space {
                    &&& !final(self).game_over
                    &&& final(self).snake.grid_x == 0
                    &&& final(self).snake.grid_y == 1
                    &&& final(self).snake.cells() == seq![(0usize, 0usize)]
                    &&& final(self).direction == (1isize, 0isize)
                    &&& final(self).score == 0
                } else {
                    &&& final(self).game_over
                    &&& final(self).snake.grid_x == old(self).snake.grid_x
                    &&& final(self).snake.grid_y == old(self).snake.grid_y
                    &&& final(self).snake.cells() == old(self).snake.cells()
                    &&& final(self).direction == old(self).direction
                    &&& final(self).score == old(self).score
                }
            },
    {
        if !self.game_over {
            self.direction = steer(self.direction, keys);
            let (ate, crashed) = self.snake.move_snake(
                self.direction.0,
                self.direction.1,
                self.award_pos,
            );
            if ate {
                if let Some(pos) = place_award(&self.snake) {
                    self.award_pos = pos;
                }
                self.score += 1;
            }
            if crashed {
                self.game_over = true;
            }
            None
        } else {
            let saved = if record_score(self.score, &mut self.high_score) {
                Some(self.score)
            } else {
                None
            };
            if keys.space {
                self.game_over = false;
                self.snake = Snake::new();
                self.direction = (1, 0);
                self.score = 0;
            }
            saved
        }
    }
}

} // verus!
