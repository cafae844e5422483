//! The rules of tic-tac-toe on a three by three board.
//!
//! Two players, X first, take turns claiming an empty cell. A move that
//! completes a row, a column or one of the two diagonals wins the game;
//! a move that fills the board without doing so ends it in a draw.

use vstd::prelude::*;

verus! {

/// Number of rows, and of columns, of the board.
pub const BOARD_SIZE: usize = 3;

#[derive(Clone, Copy, Debug, PartialEq, Eq, Structural)]
pub enum Player {
    X,
    O,
}

#[derive(Clone, Copy, Debug, PartialEq, Eq, Structural)]
pub enum CellState {
    Empty,
    Occupied(Player),
}

/// The line of three that decided a game.
#[derive(Clone, Copy, Debug, PartialEq, Eq, Structural)]
pub enum WinType {
    Row(usize),
    Column(usize),
    /// From the top-left corner to the bottom-right one.
    Diagonal,
    /// From the top-right corner to the bottom-left one.
    AntiDiagonal,
}

#[derive(Clone, Copy, Debug, PartialEq, Eq, Structural)]
pub enum GameState {
    Playing,
    Win(Player, WinType),
    Draw,
}

/// A game in progress or finished: the board, indexed by row and then by
/// column, the player whose turn it is, and how far the game has come.
#[derive(Clone, Copy, Debug)]
pub struct Game {
    pub board: [[CellState; 3]; 3],
    pub current_player: Player,
    pub game_state: GameState,
}

/// The player who moves after `p`.
pub open spec fn opponent(p: Player) -> Player {
    match p {
        Player::X => Player::O,
        Player::O => Player::X,
    }
}

/// `(r, c)` names a cell of the board.
pub open spec fn on_board(r: int, c: int) -> bool {
    0 <= r < 3 && 0 <= c < 3
}

impl Game {
    /// The cell in row `r` and column `c`.
    pub open spec fn cell(self, r: int, c: int) -> CellState {
        self.board[r][c]
    }

    /// Player `p` holds the cell in row `r` and column `c`.
    pub open spec fn owns(self, p: Player, r: int, c: int) -> bool {
        self.cell(r, c) == CellState::Occupied(p)
    }

    pub open spec fn owns_row(self, p: Player, r: int) -> bool {
        self.owns(p, r, 0) && self.owns(p, r, 1) && self.owns(p, r, 2)
    }

    pub open spec fn owns_column(self, p: Player, c: int) -> bool {
        self.owns(p, 0, c) && self.owns(p, 1, c) && self.owns(p, 2, c)
    }

    pub open spec fn owns_diagonal(self, p: Player) -> bool {
        self.owns(p, 0, 0) && self.owns(p, 1, 1) && self.owns(p, 2, 2)
    }

    pub open spec fn owns_anti_diagonal(self, p: Player) -> bool {
        self.owns(p, 0, 2) && self.owns(p, 1, 1) && self.owns(p, 2, 0)
    }

    /// No cell of the board is empty.
    pub open spec fn is_full(self) -> bool {
        forall|r: int, c: int| on_board(r, c) ==> #[trigger] self.cell(r, c) != CellState::Empty
    }

    /// Every cell of the board is empty.
    pub open spec fn is_blank(self) -> bool {
        forall|r: int, c: int| on_board(r, c) ==> #[trigger] self.cell(r, c) == CellState::Empty
    }

    /// The two boards hold the same cells, but that `self` has `mark` at
    /// row `row` and column `col`.
    pub open spec fn differs_at(self, before: Game, row: int, col: int, mark: CellState) -> bool {
        forall|r: int, c: int|
            on_board(r, c) ==> #[trigger] self.cell(r, c) == if r == row && c == col {
                mark
            } else {
                before.cell(r, c)
            }
    }

    /// The verdict on the mark at row `row` and column `col`, read from the
    /// board alone. Only the lines through that cell are looked at, in this
    /// order: its row, its column, the diagonal, the anti-diagonal. The
    /// first complete one wins the game for the owner of the cell. If none
    /// is complete and the board is full, the game is drawn. `None` means
    /// that the mark decides nothing, as does an empty cell.
    pub open spec fn verdict(self, row: int, col: int) -> Option<GameState> {
        match self.cell(row, col) {
            CellState::Empty => None,
            CellState::Occupied(p) => {
                if self.owns_row(p, row) {
                    Some(GameState::Win(p, WinType::Row(row as usize)))
                } else if self.owns_column(p, col) {
                    Some(GameState::Win(p, WinType::Column(col as usize)))
                } else if row == col && self.owns_diagonal(p) {
                    Some(GameState::Win(p, WinType::Diagonal))
                } else if row + col == 2 && self.owns_anti_diagonal(p) {
                    Some(GameState::Win(p, WinType::AntiDiagonal))
                } else if self.is_full() {
                    Some(GameState::Draw)
                } else {
                    None
                }
            },
        }
    }

    /// The state that follows `before` once the mark at row `row` and
    /// column `col` has been judged.
    pub open spec fn state_after(self, before: GameState, row: int, col: int) -> GameState {
        match self.verdict(row, col) {
            Some(state) => state,
            None => before,
        }
    }

    /// Player `p` holds every cell of `line`.
    pub open spec fn owns_line(self, p: Player, line: WinType) -> bool {
        match line {
            WinType::Row(r) => r < 3 && self.owns_row(p, r as int),
            WinType::Column(c) => c < 3 && self.owns_column(p, c as int),
            WinType::Diagonal => self.owns_diagonal(p),
            WinType::AntiDiagonal => self.owns_anti_diagonal(p),
        }
    }

    /// A move at row `row` and column `col` is taken: the game is still
    /// being played and the cell is empty.
    pub open spec fn accepts(self, row: int, col: int) -> bool {
        self.game_state == GameState::Playing && self.cell(row, col) == CellState::Empty
    }

    /// A fresh game: blank board, X to move.
    pub fn new() -> (g: Game)
        ensures
            g.is_blank(),
            g.current_player == Player::X,
            g.game_state == GameState::Playing,
    {
        Game {
            board: [[CellState::Empty; 3]; 3],
            current_player: Player::X,
            game_state: GameState::Playing,
        }
    }

    /// The current player claims the cell at row `row` and column `col`.
    /// The move is ignored when the game is over or the cell is taken.
    /// Otherwise the cell is marked, the game is judged, and the turn
    /// passes to the other player, also when the move ended the game.
    pub fn make_move(&mut self, row: usize, col: usize)
        requires
            row < 3,
            col < 3,
        ensures
            !old(self).accepts(row as int, col as int) ==> *final(self) == *old(self),
            old(self).accepts(row as int, col as int) ==> {
                &&& final(self).differs_at(
                    *old(self),
                    row as int,
                    col as int,
                    CellState::Occupied(old(self).current_player),
                )
                &&& final(self).current_player == opponent(old(self).current_player)
                &&& final(self).game_state == final(self).state_after(
                    GameState::Playing,
                    row as int,
                    col as int,
                )
            },
    {
        if let GameState::Playing = self.game_state {
            if let CellState::Empty = self.board[row][col] {
                self.board[row][col] = CellState::Occupied(self.current_player);
                let ghost marked = *self;
                assert(marked.differs_at(
                    *old(self),
                    row as int,
                    col as int,
                    CellState::Occupied(self.current_player),
                ));
                self.check_game_state(row, col);
                self.switch_player();
                assert forall|r: int, c: int|
                    #![trigger self.cell(r, c)]
                    #![trigger marked.cell(r, c)]
                    self.cell(r, c) == marked.cell(r, c) by {}
            }
        }
    }

    /// Passes the turn to the other player.
    pub fn switch_player(&mut self)
        ensures
            final(self).current_player == opponent(old(self).current_player),
            final(self).board == old(self).board,
            final(self).game_state == old(self).game_state,
    {
        self.current_player = match self.current_player {
            Player::X => Player::O,
            Player::O => Player::X,
        };
    }

    /// Judges the game after a mark was placed at row `row` and column `col`.
    pub fn check_game_state(&mut self, row: usize, col: usize)
        requires
            row < 3,
            col < 3,
        ensures
            final(self).game_state == old(self).state_after(
                old(self).game_state,
                row as int,
                col as int,
            ),
            final(self).board == old(self).board,
            final(self).current_player == old(self).current_player,
    {
        let player = match self.board[row][col] {
            CellState::Occupied(p) => p,
            _ => {
                return ;
            },
        };
        let mine = CellState::Occupied(player);

        if self.board[row][0] == mine && self.board[row][1] == mine && self.board[row][2] == mine {
            self.game_state = GameState::Win(player, WinType::Row(row));
            return ;
        }
        if self.board[0][col] == mine && self.board[1][col] == mine && self.board[2][col] == mine {
            self.game_state = GameState::Win(player, WinType::Column(col));
            return ;
        }
        if row == col && self.board[0][0] == mine && self.board[1][1] == mine && self.board[2][2]
            == mine {
            self.game_state = GameState::Win(player, WinType::Diagonal);
            return ;
        }
        if row + col == BOARD_SIZE - 1 && self.board[0][2] == mine && self.board[1][1] == mine
            && self.board[2][0] == mine {
            self.game_state = GameState::Win(player, WinType::AntiDiagonal);
            return ;
        }
        if self.board_is_full() {
            self.game_state = GameState::Draw;
        }
    }

    /// Whether no cell of the board is empty.
    pub fn board_is_full(&self) -> (full: bool)
        ensures
            full == self.is_full(),
    {
        let mut row: usize = 0;
        while row < BOARD_SIZE
            invariant
                row <= 3,
                forall|r: int, c: int| 0 <= r < row && 0 <= c < 3 ==> self.cell(r, c)
                    != CellState::Empty,
            decreases 3 - row,
        {
            let mut col: usize = 0;
            while col < BOARD_SIZE
                invariant
                    row < 3,
                    col <= 3,
                    forall|r: int, c: int| 0 <= r < row && 0 <= c < 3 ==> self.cell(r, c)
                        != CellState::Empty,
                    forall|c: int| 0 <= c < col ==> self.cell(row as int, c) != CellState::Empty,
                decreases 3 - col,
            {
                if self.board[row][col] == CellState::Empty {
                    assert(on_board(row as int, col as int) && self.cell(row as int, col as int)
                        == CellState::Empty);
                    return false;
                }
                col += 1;
            }
            row += 1;
        }
        true
    }

    /// Starts over with a fresh game.
    pub fn reset(&mut self)
        ensures
            final(self).is_blank(),
            final(self).current_player == Player::X,
            final(self).game_state == GameState::Playing,
    {
        *self = Game::new();
    }

    /// Acts on a click: first the move at the cell under the pointer, if
    /// there is one, then the button that starts over, if the pointer is
    /// on it.
    pub fn click(&mut self, hovered_cell: Option<(usize, usize)>, button_hovered: bool)
        requires
            hovered_cell matches Some(cell) ==> cell.0 < 3 && cell.1 < 3,
        ensures
            button_hovered ==> {
                &&& final(self).is_blank()
                &&& final(self).current_player == Player::X
                &&& final(self).game_state == GameState::Playing
            },
            !button_hovered ==> match hovered_cell {
                Some(cell) if old(self).accepts(cell.0 as int, cell.1 as int) => {
                    &&& final(self).differs_at(
                        *old(self),
                        cell.0 as int,
                        cell.1 as int,
                        CellState::Occupied(old(self).current_player),
                    )
                    &&& final(self).current_player == opponent(old(self).current_player)
                    &&& final(self).game_state == final(self).state_after(
                        GameState::Playing,
                        cell.0 as int,
                        cell.1 as int,
                    )
                },
                _ => *final(self) == *old(self),
            },
    {
        if let Some((row, col)) = hovered_cell {
            self.make_move(row, col);
        }
        if button_hovered {
            self.reset();
        }
    }
}

/// A win is only ever awarded to the owner of the judged cell, for a line
/// that this player holds completely and that runs through the cell; a draw
/// is only ever declared on a full board.
pub proof fn lemma_verdict_is_sound(g: Game, row: int, col: int)
    requires
        on_board(row, col),
    ensures
        g.verdict(row, col) matches Some(GameState::Win(p, line)) ==> {
            &&& g.owns(p, row, col)
            &&& g.owns_line(p, line)
            &&& match line {
                WinType::Row(r) => r == row,
                WinType::Column(c) => c == col,
                WinType::Diagonal => row == col,
                WinType::AntiDiagonal => row + col == 2,
            }
        },
        g.verdict(row, col) == Some(GameState::Draw) ==> g.is_full(),
        g.verdict(row, col) != Some(GameState::Playing),
        g.verdict(row, col) is None ==> !g.is_full(),
{
    if g.verdict(row, col) is None && g.cell(row, col) == CellState::Empty {
        assert(on_board(row, col));
    }
}

/// The opponent of a player is the other player, and the opponent of the
/// opponent is the player again.
pub proof fn lemma_opponent_alternates(p: Player)
    ensures
        opponent(p) != p,
        opponent(opponent(p)) == p,
{
}

} // verus!
