//! The board engine: a 3x3 grid of tiles, mark placement, and incremental
//! win detection that inspects only the lines through the cell just played.

use vstd::prelude::*;

verus! {

/// A mark occupying one cell of the board.
#[derive(Copy, Clone, PartialEq, Eq, Structural, Debug)]
pub enum Tile {
    Cross,
    Circle,
    Empty,
}

impl Tile {
    /// The glyph a tile is rendered as.
    pub open spec fn spec_char(self) -> char {
        match self {
            Tile::Cross => 'X',
            Tile::Circle => 'O',
            Tile::Empty => ' ',
        }
    }

    pub fn to_char(&self) -> (c: char)
        ensures
            c == self.spec_char(),
    {
        match self {
            Tile::Cross => 'X',
            Tile::Circle => 'O',
            Tile::Empty => ' ',
        }
    }
}

/// Who owns a mark: the local participant, the remote one, or nobody.
#[derive(Copy, Clone, PartialEq, Eq, Structural, Debug)]
pub enum Player {
    You,
    Opponent,
    Noone,
}

impl Player {
    /// The tile a player places.
    pub open spec fn spec_tile(self) -> Tile {
        match self {
            Player::You => Tile::Circle,
            Player::Opponent => Tile::Cross,
            Player::Noone => Tile::Empty,
        }
    }

    pub fn tile(&self) -> (t: Tile)
        ensures
            t == self.spec_tile(),
    {
        match self {
            Player::You => Tile::Circle,
            Player::Opponent => Tile::Cross,
            Player::Noone => Tile::Empty,
        }
    }
}

/// Which diagonal(s) a cell lies on: the main diagonal, the anti-diagonal,
/// or both (the center cell).
#[derive(Copy, Clone, PartialEq, Eq, Structural, Debug)]
pub enum Diagonal {
    Direct,
    Undirect,
    Middle,
}

/// A coordinate outside the board, by axis.
#[derive(Copy, Clone, PartialEq, Eq, Structural, Debug)]
pub enum CoordinateError {
    InvalidX,
    InvalidY,
}

/// Why a placement was rejected: a coordinate outside `0..3`, or a cell
/// that already holds a mark.
#[derive(Copy, Clone, PartialEq, Eq, Structural, Debug)]
pub enum GameError {
    InvalidValue,
    OccupiedField,
}

/// The mathematical model of a board: three rows of three tiles.
pub open spec fn grid_wf(g: Seq<Seq<Tile>>) -> bool {
    g.len() == 3 && (forall|r: int| 0 <= r < 3 ==> (#[trigger] g[r]).len() == 3)
}

/// The board with every cell empty.
pub open spec fn empty_grid() -> Seq<Seq<Tile>> {
    Seq::new(3, |r: int| Seq::new(3, |c: int| Tile::Empty))
}

/// The board after writing tile `t` at `(x, y)`.
pub open spec fn grid_update(g: Seq<Seq<Tile>>, x: int, y: int, t: Tile) -> Seq<Seq<Tile>> {
    g.update(x, g[x].update(y, t))
}

/// Three cells all holding tile `t`.
pub open spec fn line_all(
    g: Seq<Seq<Tile>>,
    t: Tile,
    x0: int, y0: int,
    x1: int, y1: int,
    x2: int, y2: int,
) -> bool {
    g[x0][y0] == t && g[x1][y1] == t && g[x2][y2] == t
}

pub open spec fn wins_row(g: Seq<Seq<Tile>>, t: Tile, x: int) -> bool {
    line_all(g, t, x, 0, x, 1, x, 2)
}

pub open spec fn wins_col(g: Seq<Seq<Tile>>, t: Tile, y: int) -> bool {
    line_all(g, t, 0, y, 1, y, 2, y)
}

pub open spec fn wins_main_diagonal(g: Seq<Seq<Tile>>, t: Tile) -> bool {
    line_all(g, t, 0, 0, 1, 1, 2, 2)
}

pub open spec fn wins_anti_diagonal(g: Seq<Seq<Tile>>, t: Tile) -> bool {
    line_all(g, t, 0, 2, 1, 1, 2, 0)
}

/// The brute-force criterion: some of the eight lines of the whole board is
/// filled with tile `t`.
pub open spec fn board_wins(g: Seq<Seq<Tile>>, t: Tile) -> bool {
    ||| wins_row(g, t, 0)
    ||| wins_row(g, t, 1)
    ||| wins_row(g, t, 2)
    ||| wins_col(g, t, 0)
    ||| wins_col(g, t, 1)
    ||| wins_col(g, t, 2)
    ||| wins_main_diagonal(g, t)
    ||| wins_anti_diagonal(g, t)
}

/// The incremental criterion: some line passing through `(x, y)` is filled
/// with tile `t`.  Only the row, the column, and the diagonal(s) through the
/// cell are inspected.
pub open spec fn wins_through(g: Seq<Seq<Tile>>, t: Tile, x: int, y: int) -> bool {
    ||| wins_row(g, t, x)
    ||| wins_col(g, t, y)
    ||| (x == y && wins_main_diagonal(g, t))
    ||| (x + y == 2 && wins_anti_diagonal(g, t))
}

/// The main diagonal's cells, top-left to bottom-right.
pub open spec fn main_diag(g: Seq<Seq<Tile>>) -> Seq<Tile> {
    seq![g[0][0], g[1][1], g[2][2]]
}

/// The anti-diagonal's cells, top-right to bottom-left.
pub open spec fn anti_diag(g: Seq<Seq<Tile>>) -> Seq<Tile> {
    seq![g[0][2], g[1][1], g[2][0]]
}

/// Which diagonal(s) pass through `(x, y)`: the four corners lie on exactly
/// one, the center on both, every other cell on none.
pub open spec fn spec_diagonal_type(x: int, y: int) -> Option<Diagonal> {
    if (x == 0 && y == 0) || (x == 2 && y == 2) {
        Some(Diagonal::Direct)
    } else if (x == 2 && y == 0) || (x == 0 && y == 2) {
        Some(Diagonal::Undirect)
    } else if x == 1 && y == 1 {
        Some(Diagonal::Middle)
    } else {
        None
    }
}

/// How one placement relates a board and its recorded winner to the next:
/// coordinates outside `0..3` and occupied cells are rejected without any
/// change; otherwise the mover's tile is written and the winner is recorded
/// exactly when the new mark completes a line through its cell.
pub open spec fn turn_post(
    pre: TicTacToe,
    post: TicTacToe,
    player: Player,
    x: int,
    y: int,
    r: Result<(), GameError>,
) -> bool {
    if !(0 <= x < 3 && 0 <= y < 3) {
        r == Err::<(), GameError>(GameError::InvalidValue) && post == pre
    } else if pre.grid()[x][y] != Tile::Empty {
        r == Err::<(), GameError>(GameError::OccupiedField) && post == pre
    } else {
        let g2 = grid_update(pre.grid(), x, y, player.spec_tile());
        &&& r == Ok::<(), GameError>(())
        &&& post.grid() == g2
        &&& post.spec_winner() == (if wins_through(g2, player.spec_tile(), x, y) {
            player
        } else {
            pre.spec_winner()
        })
    }
}

/// The 3x3 board together with the winner recorded so far.
pub struct TicTacToe {
    state: [[Tile; 3]; 3],
    winner: Player,
}

impl TicTacToe {
    /// The board as a sequence of rows.
    pub closed spec fn grid(self) -> Seq<Seq<Tile>> {
        Seq::new(3, |r: int| Seq::new(3, |c: int| self.state@[r]@[c]))
    }

    /// The winner recorded so far (`Noone` while the game is open).
    pub closed spec fn spec_winner(self) -> Player {
        self.winner
    }

    /// Every board this type holds is a well-formed 3x3 grid, so the grid
    /// lemmas below apply to it.
    pub proof fn lemma_grid_wf(self)
        ensures
            grid_wf(self.grid()),
    {
    }

    /// A fresh game: every cell empty, no winner.
    pub fn new() -> (g: TicTacToe)
        ensures
            g.grid() == empty_grid(),
            g.spec_winner() == Player::Noone,
    {
        let g = TicTacToe { state: [[Tile::Empty; 3]; 3], winner: Player::Noone };
        proof {
            assert(g.grid() =~~= empty_grid());
        }
        g
    }

    /// Places the local participant's mark.
    pub fn make_my_turn(&mut self, x: usize, y: usize) -> (r: Result<(), GameError>)
        ensures
            turn_post(*old(self), *final(self), Player::You, x as int, y as int, r),
    {
        self.make_turn_universal(Player::You, x, y)
    }

    /// Places the remote participant's mark.
    pub fn make_opponent_turn(&mut self, x: usize, y: usize) -> (r: Result<(), GameError>)
        ensures
            turn_post(*old(self), *final(self), Player::Opponent, x as int, y as int, r),
    {
        self.make_turn_universal(Player::Opponent, x, y)
    }

    fn make_turn_universal(&mut self, player: Player, x: usize, y: usize) -> (r: Result<
        (),
        GameError,
    >)
        ensures
            turn_post(*old(self), *final(self), player, x as int, y as int, r),
    {
        if !(x <= 2) || !(y <= 2) {
            return Err(GameError::InvalidValue);
        }
        if self.state[x][y] != Tile::Empty {
            return Err(GameError::OccupiedField);
        }
        let is_winning_turn = self.make_turn(player.tile(), x, y);
        if is_winning_turn {
            self.winner = player;
        }
        Ok(())
    }

    /// Whether the local participant has won.
    pub fn am_i_winner(&self) -> (w: bool)
        ensures
            w == (self.spec_winner() == Player::You),
    {
        self.winner == Player::You
    }

    /// Whether the remote participant has won.
    pub fn is_opponent_winner(&self) -> (w: bool)
        ensures
            w == (self.spec_winner() == Player::Opponent),
    {
        self.winner == Player::Opponent
    }

    /// The board as displayable glyphs, row by row.
    pub fn get_state(&self) -> (s: [[char; 3]; 3])
        ensures
            forall|r: int, c: int|
                0 <= r < 3 && 0 <= c < 3 ==> s@[r]@[c] == self.grid()[r][c].spec_char(),
    {
        [
            [self.state[0][0].to_char(), self.state[0][1].to_char(), self.state[0][2].to_char()],
            [self.state[1][0].to_char(), self.state[1][1].to_char(), self.state[1][2].to_char()],
            [self.state[2][0].to_char(), self.state[2][1].to_char(), self.state[2][2].to_char()],
        ]
    }

    /// Clears the board and the recorded winner.
    pub fn reset(&mut self)
        ensures
            final(self).grid() == empty_grid(),
            final(self).spec_winner() == Player::Noone,
    {
        self.state = [[Tile::Empty; 3]; 3];
        self.winner = Player::Noone;
        proof {
            assert(self.grid() =~~= empty_grid());
        }
    }

    /// Writes a tile unconditionally and reports whether it completed a line
    /// through its cell.  The recorded winner is untouched.
    pub fn make_turn(&mut self, tile: Tile, x: usize, y: usize) -> (won: bool)
        requires
            x < 3,
            y < 3,
        ensures
            final(self).grid() == grid_update(old(self).grid(), x as int, y as int, tile),
            final(self).spec_winner() == old(self).spec_winner(),
            won == wins_through(final(self).grid(), tile, x as int, y as int),
    {
        self.state[x][y] = tile;
        proof {
            assert(self.grid() =~~= grid_update(old(self).grid(), x as int, y as int, tile));
        }
        self.check_win(tile, x, y)
    }

    /// The incremental win check: inspects the row, the column, and the
    /// diagonal(s) through `(x, y)`, never the other lines.
    pub fn check_win(&self, tile: Tile, x: usize, y: usize) -> (won: bool)
        requires
            x < 3,
            y < 3,
        ensures
            won == wins_through(self.grid(), tile, x as int, y as int),
    {
        let col = [self.state[0][y], self.state[1][y], self.state[2][y]];
        let row = self.state[x];
        proof {
            assert(three_all(col@, tile) == wins_col(self.grid(), tile, y as int));
            assert(three_all(row@, tile) == wins_row(self.grid(), tile, x as int));
        }
        let mut won = Self::line_wins(&col, tile) || Self::line_wins(&row, tile);
        let diagonal_lines = self.get_diagonal(x, y);
        if let Some(diagonals) = diagonal_lines {
            let mut k: usize = 0;
            while k < diagonals.len()
                invariant
                    k <= diagonals.len(),
                    x < 3,
                    y < 3,
                    self.get_diagonal_post(&diagonals, x as int, y as int),
                    won == ({
                        ||| wins_row(self.grid(), tile, x as int)
                        ||| wins_col(self.grid(), tile, y as int)
                        ||| exists|j: int| 0 <= j < k && three_all(#[trigger] diagonals@[j]@, tile)
                    }),
                decreases diagonals.len() - k,
            {
                if Self::line_wins(&diagonals[k], tile) {
                    won = true;
                }
                k += 1;
            }
            proof {
                assert(won == wins_through(self.grid(), tile, x as int, y as int)) by {
                    if x == y || x + y == 2 {
                        assert(diagonals@.len() >= 1);
                    }
                };
            }
            won
        } else {
            won
        }
    }

    /// The `get_diagonal` contract: which diagonal lines are handed out for
    /// each cell.
    pub open spec fn get_diagonal_post(self, v: &Vec<[Tile; 3]>, x: int, y: int) -> bool {
        match spec_diagonal_type(x, y) {
            Some(Diagonal::Direct) => v@.len() == 1 && v@[0]@ == main_diag(self.grid()),
            Some(Diagonal::Undirect) => v@.len() == 1 && v@[0]@ == anti_diag(self.grid()),
            Some(Diagonal::Middle) => v@.len() == 2 && v@[0]@ == main_diag(self.grid())
                && v@[1]@ == anti_diag(self.grid()),
            None => false,
        }
    }

    /// The diagonal lines passing through `(x, y)`, if any.
    pub fn get_diagonal(&self, x: usize, y: usize) -> (r: Option<Vec<[Tile; 3]>>)
        requires
            x < 3,
            y < 3,
        ensures
            match r {
                None => spec_diagonal_type(x as int, y as int) is None,
                Some(v) => self.get_diagonal_post(&v, x as int, y as int),
            },
    {
        let direct = [self.state[0][0], self.state[1][1], self.state[2][2]];
        let undirect = [self.state[0][2], self.state[1][1], self.state[2][0]];
        proof {
            assert(direct@ =~= main_diag(self.grid()));
            assert(undirect@ =~= anti_diag(self.grid()));
        }
        match Self::get_diagonal_type(x, y) {
            Some(Diagonal::Direct) => Some(vec![direct]),
            Some(Diagonal::Undirect) => Some(vec![undirect]),
            Some(Diagonal::Middle) => Some(vec![direct, undirect]),
            None => None,
        }
    }

    /// The diagonal-membership lookup table.
    pub fn get_diagonal_type(x: usize, y: usize) -> (d: Option<Diagonal>)
        ensures
            d == spec_diagonal_type(x as int, y as int),
    {
        match (x, y) {
            (0, 0) | (2, 2) => Some(Diagonal::Direct),
            (2, 0) | (0, 2) => Some(Diagonal::Undirect),
            (1, 1) => Some(Diagonal::Middle),
            _ => None,
        }
    }

    /// Whether a whole line holds the given tile.
    pub fn line_wins(line: &[Tile; 3], tile: Tile) -> (w: bool)
        ensures
            w == three_all(line@, tile),
    {
        line[0] == tile && line[1] == tile && line[2] == tile
    }
}

/// A three-cell sequence entirely filled with tile `t`.
pub open spec fn three_all(l: Seq<Tile>, t: Tile) -> bool {
    l.len() == 3 && l[0] == t && l[1] == t && l[2] == t
}

/// A win through the just-played cell is a win of the whole board.
pub proof fn lemma_win_through_is_win(g: Seq<Seq<Tile>>, t: Tile, x: int, y: int)
    requires
        0 <= x < 3,
        0 <= y < 3,
        wins_through(g, t, x, y),
    ensures
        board_wins(g, t),
{
}

/// Incremental win detection agrees with the brute-force full-board scan:
/// on a board with no winning line for `t`, writing `t` at `(x, y)` yields a
/// winning board exactly when some line through `(x, y)` is now filled —
/// a fresh win can only arise on a line through the just-played cell.
pub proof fn lemma_incremental_win_detection(g: Seq<Seq<Tile>>, t: Tile, x: int, y: int)
    requires
        grid_wf(g),
        0 <= x < 3,
        0 <= y < 3,
        !board_wins(g, t),
    ensures
        board_wins(grid_update(g, x, y, t), t) <==> wins_through(grid_update(g, x, y, t), t, x, y),
{
    let g2 = grid_update(g, x, y, t);
    assert(forall|r: int, c: int|
        0 <= r < 3 && 0 <= c < 3 && !(r == x && c == y) ==> g2[r][c] == #[trigger] g[r][c]);
}

} // verus!
