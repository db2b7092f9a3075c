//! The game state machine: board, scores, turn, cursor, and the operations
//! that drive one round of play.

use vstd::prelude::*;
use vstd::string::StrSliceExecFns;

verus! {

/// One cell of the 3x3 board: empty, or holding one side's mark.
#[derive(Clone, Copy, PartialEq, Eq, Structural, Debug)]
pub enum Cell {
    Empty,
    Player,
    Opponent,
}

/// Whose turn it is to place a mark.
#[derive(Clone, Copy, PartialEq, Eq, Structural, Debug)]
pub enum Turn {
    Player,
    Opponent,
}

/// The mark that a side places.
pub open spec fn mark_for(t: Turn) -> Cell {
    match t {
        Turn::Player => Cell::Player,
        Turn::Opponent => Cell::Opponent,
    }
}

/// How many random cells the automated opponent samples before giving up.
/// Far more than enough while an empty cell exists; a fail-fast bound for the
/// full board, which would otherwise spin forever.
pub const BOT_ATTEMPT_CAP: u32 = 10000;

/// One recognized input command, or anything else.
#[derive(Clone, Copy, PartialEq, Eq, Structural, Debug)]
pub enum Command {
    Up,
    Down,
    Left,
    Right,
    Commit,
    Unrecognized,
}

/// What one command did to the state.
#[derive(Clone, Copy, PartialEq, Eq, Structural, Debug)]
pub enum TurnResult {
    /// A directional command moved (or clamped) the cursor.
    Moved,
    /// A commit placed the current side's mark, and the opponent's reply,
    /// where one was due, was played.
    Placed,
    /// A commit placed the player's mark, but the automated reply exhausted
    /// its sampling without finding an empty cell and placed nothing. The
    /// caller should fail fast rather than play on.
    ReplyFailed,
    /// A commit aimed at an occupied cell was dropped.
    Rejected,
    /// An unrecognized command was dropped.
    Ignored,
}

/// The command that a trimmed input token stands for. The five tokens are
/// exact and case-sensitive; every other token — the empty one included — is
/// unrecognized.
pub open spec fn spec_parse(s: Seq<char>) -> Command {
    if s == "u"@ {
        Command::Up
    } else if s == "d"@ {
        Command::Down
    } else if s == "l"@ {
        Command::Left
    } else if s == "r"@ {
        Command::Right
    } else if s == "turn"@ {
        Command::Commit
    } else {
        Command::Unrecognized
    }
}

/// Recognize one trimmed input token.
pub fn parse_command(s: &str) -> (c: Command)
    ensures
        c == spec_parse(s@),
{
    proof {
        reveal_strlit("u");
        reveal_strlit("d");
        reveal_strlit("l");
        reveal_strlit("r");
        reveal_strlit("turn");
    }
    let n = s.unicode_len();
    if n == 1 {
        let ch = s.get_char(0);
        proof {
            assert(ch == 'u' ==> s@ =~= "u"@);
            assert(ch == 'd' ==> s@ =~= "d"@);
            assert(ch == 'l' ==> s@ =~= "l"@);
            assert(ch == 'r' ==> s@ =~= "r"@);
        }
        if ch == 'u' {
            Command::Up
        } else if ch == 'd' {
            Command::Down
        } else if ch == 'l' {
            Command::Left
        } else if ch == 'r' {
            Command::Right
        } else {
            Command::Unrecognized
        }
    } else if n == 4 {
        if s.get_char(0) == 't' && s.get_char(1) == 'u' && s.get_char(2) == 'r' && s.get_char(3)
            == 'n' {
            proof {
                assert(s@ =~= "turn"@);
            }
            Command::Commit
        } else {
            Command::Unrecognized
        }
    } else {
        Command::Unrecognized
    }
}

/// Whether the command is one of the four cursor directions.
pub open spec fn is_direction(c: Command) -> bool {
    c == Command::Up || c == Command::Down || c == Command::Left || c == Command::Right
}

/// The direction that undoes `c`.
pub open spec fn inverse_direction(c: Command) -> Command {
    match c {
        Command::Up => Command::Down,
        Command::Down => Command::Up,
        Command::Left => Command::Right,
        Command::Right => Command::Left,
        _ => c,
    }
}

/// The cursor `(x, y)` after moving one cell in direction `c`, clamped to the
/// board: a move off the edge leaves the cursor where it is.
pub open spec fn cursor_after(c: Command, x: int, y: int) -> (int, int) {
    match c {
        Command::Up => (x, if y > 0 { y - 1 } else { 0 }),
        Command::Down => (x, if y < 2 { y + 1 } else { 2 }),
        Command::Left => ((if x > 0 { x - 1 } else { 0 }), y),
        Command::Right => ((if x < 2 { x + 1 } else { 2 }), y),
        _ => (x, y),
    }
}

/// The cursor `(x, y)` already sits on the board edge that direction `c`
/// points at.
pub open spec fn at_edge(c: Command, x: int, y: int) -> bool {
    match c {
        Command::Up => y == 0,
        Command::Down => y == 2,
        Command::Left => x == 0,
        Command::Right => x == 2,
        _ => false,
    }
}

/// Moving in a direction and then in its inverse returns the cursor to where
/// it started, provided it did not begin on the edge that the first move
/// points at.
pub proof fn lemma_direction_round_trip(c: Command, x: int, y: int)
    requires
        0 <= x < 3,
        0 <= y < 3,
        is_direction(c),
        !at_edge(c, x, y),
    ensures
        cursor_after(inverse_direction(c), cursor_after(c, x, y).0, cursor_after(c, x, y).1) == (
            x,
            y,
        ),
{
}

/// The boundary clamp is idempotent: a move in a direction whose edge the
/// cursor already sits on leaves the cursor unchanged.
pub proof fn lemma_edge_clamp_noop(c: Command, x: int, y: int)
    requires
        0 <= x < 3,
        0 <= y < 3,
        at_edge(c, x, y),
    ensures
        cursor_after(c, x, y) == (x, y),
{
}

/// The error of a placement aimed at a cell that already holds a mark.
#[derive(Clone, Copy, PartialEq, Eq, Structural, Debug)]
pub struct CellOccupied;

/// The cell at row `y`, column `x` of a row-major 3x3 board.
pub open spec fn at(b: Seq<Cell>, y: int, x: int) -> Cell {
    b[y * 3 + x]
}

/// Row `y` consists entirely of the mark `m`.
pub open spec fn row_all(b: Seq<Cell>, y: int, m: Cell) -> bool {
    at(b, y, 0) == m && at(b, y, 1) == m && at(b, y, 2) == m
}

/// Column `x` consists entirely of the mark `m`.
pub open spec fn col_all(b: Seq<Cell>, x: int, m: Cell) -> bool {
    at(b, 0, x) == m && at(b, 1, x) == m && at(b, 2, x) == m
}

/// The main diagonal consists entirely of the mark `m`.
pub open spec fn diag_all(b: Seq<Cell>, m: Cell) -> bool {
    at(b, 0, 0) == m && at(b, 1, 1) == m && at(b, 2, 2) == m
}

/// The anti-diagonal consists entirely of the mark `m`.
pub open spec fn anti_diag_all(b: Seq<Cell>, m: Cell) -> bool {
    at(b, 0, 2) == m && at(b, 1, 1) == m && at(b, 2, 0) == m
}

/// The mark `m` has won: some row, column, or diagonal of the board consists
/// entirely of `m`.
pub open spec fn wins(b: Seq<Cell>, m: Cell) -> bool {
    ||| row_all(b, 0, m)
    ||| row_all(b, 1, m)
    ||| row_all(b, 2, m)
    ||| col_all(b, 0, m)
    ||| col_all(b, 1, m)
    ||| col_all(b, 2, m)
    ||| diag_all(b, m)
    ||| anti_diag_all(b, m)
}

/// Every cell of the board holds a mark.
pub open spec fn board_full(b: Seq<Cell>) -> bool {
    forall|i: int| 0 <= i < 9 ==> b[i] != Cell::Empty
}

/// The whole game state: a flat row-major 3x3 board, the two scores, whose
/// turn it is, and the cursor position.
pub struct Game {
    /// Row-major: the cell at row `y`, column `x` is `field[y * 3 + x]`.
    pub field: [Cell; 9],
    pub player_score: u32,
    pub robot_score: u32,
    pub current_turn: Turn,
    /// Cursor column, always in `[0, 2]`.
    pub cursor_x: usize,
    /// Cursor row, always in `[0, 2]`.
    pub cursor_y: usize,
}

impl Game {
    /// The state invariant: the cursor stays on the board.
    pub open spec fn wf(&self) -> bool {
        self.cursor_x < 3 && self.cursor_y < 3
    }

    /// A fresh game: empty board, zero scores, player to move, cursor at the
    /// center cell (1, 1).
    pub fn new() -> (g: Game)
        ensures
            g.wf(),
            forall|i: int| 0 <= i < 9 ==> g.field@[i] == Cell::Empty,
            g.player_score == 0,
            g.robot_score == 0,
            g.current_turn == Turn::Player,
            g.cursor_x == 1,
            g.cursor_y == 1,
    {
        Game {
            field: [Cell::Empty; 9],
            player_score: 0,
            robot_score: 0,
            current_turn: Turn::Player,
            cursor_x: 1,
            cursor_y: 1,
        }
    }

    /// Whether the mark `m` has completed a row, a column, or a diagonal.
    pub fn check_winner(&self, m: Cell) -> (r: bool)
        ensures
            r == wins(self.field@, m),
    {
        let f = &self.field;
        (f[0] == m && f[1] == m && f[2] == m)
            || (f[3] == m && f[4] == m && f[5] == m)
            || (f[6] == m && f[7] == m && f[8] == m)
            || (f[0] == m && f[3] == m && f[6] == m)
            || (f[1] == m && f[4] == m && f[7] == m)
            || (f[2] == m && f[5] == m && f[8] == m)
            || (f[0] == m && f[4] == m && f[8] == m)
            || (f[2] == m && f[4] == m && f[6] == m)
    }

    /// Place `mark` at row `y`, column `x`. Succeeds and sets the cell only
    /// when that cell is empty; a cell that already holds a mark leaves the
    /// whole state untouched.
    pub fn apply_placement(&mut self, y: usize, x: usize, mark: Cell) -> (r: Result<
        (),
        CellOccupied,
    >)
        requires
            y < 3,
            x < 3,
        ensures
            at(old(self).field@, y as int, x as int) == Cell::Empty ==> r == Ok::<
                (),
                CellOccupied,
            >(()) && final(self).field@ == old(self).field@.update(
                y as int * 3 + x as int,
                mark,
            ),
            at(old(self).field@, y as int, x as int) != Cell::Empty ==> r == Err::<
                (),
                CellOccupied,
            >(CellOccupied) && final(self).field@ == old(self).field@,
            final(self).player_score == old(self).player_score,
            final(self).robot_score == old(self).robot_score,
            final(self).current_turn == old(self).current_turn,
            final(self).cursor_x == old(self).cursor_x,
            final(self).cursor_y == old(self).cursor_y,
    {
        let idx = y * 3 + x;
        if self.field[idx] == Cell::Empty {
            self.field[idx] = mark;
            Ok(())
        } else {
            Err(CellOccupied)
        }
    }

    /// Close the round if somebody has won: the winner's score — and only the
    /// winner's, with the player taking precedence should both marks somehow
    /// hold a line — goes up by exactly one, the board is cleared, the cursor
    /// re-centered and the move given back to the player. With no winner,
    /// nothing changes and the round goes on.
    pub fn resolve_round(&mut self) -> (w: Option<Turn>)
        requires
            wins(old(self).field@, Cell::Player) ==> old(self).player_score < u32::MAX,
            wins(old(self).field@, Cell::Opponent) ==> old(self).robot_score < u32::MAX,
        ensures
            wins(old(self).field@, Cell::Player) ==> w == Some(Turn::Player)
                && final(self).player_score == old(self).player_score + 1
                && final(self).robot_score == old(self).robot_score,
            !wins(old(self).field@, Cell::Player) && wins(old(self).field@, Cell::Opponent) ==> w
                == Some(Turn::Opponent) && final(self).robot_score == old(self).robot_score + 1
                && final(self).player_score == old(self).player_score,
            w is Some ==> final(self).wf() && (forall|i: int|
                0 <= i < 9 ==> final(self).field@[i] == Cell::Empty) && final(self).current_turn
                == Turn::Player && final(self).cursor_x == 1 && final(self).cursor_y == 1,
            !wins(old(self).field@, Cell::Player) && !wins(old(self).field@, Cell::Opponent)
                ==> w is None,
            w is None ==> !wins(old(self).field@, Cell::Player) && !wins(
                old(self).field@,
                Cell::Opponent,
            ) && final(self).field@ == old(self).field@ && final(self).player_score == old(
                self,
            ).player_score && final(self).robot_score == old(self).robot_score
                && final(self).current_turn == old(self).current_turn && final(self).cursor_x
                == old(self).cursor_x && final(self).cursor_y == old(self).cursor_y,
    {
        if self.check_winner(Cell::Player) {
            self.player_score = self.player_score + 1;
            self.reset_game();
            Some(Turn::Player)
        } else if self.check_winner(Cell::Opponent) {
            self.robot_score = self.robot_score + 1;
            self.reset_game();
            Some(Turn::Opponent)
        } else {
            None
        }
    }

    /// Clear the board, re-center the cursor, and give the player the move;
    /// the scores are left as they are.
    pub fn reset_game(&mut self)
        ensures
            final(self).wf(),
            forall|i: int| 0 <= i < 9 ==> final(self).field@[i] == Cell::Empty,
            final(self).player_score == old(self).player_score,
            final(self).robot_score == old(self).robot_score,
            final(self).current_turn == Turn::Player,
            final(self).cursor_x == 1,
            final(self).cursor_y == 1,
    {
        self.field = [Cell::Empty; 9];
        self.current_turn = Turn::Player;
        self.cursor_x = 1;
        self.cursor_y = 1;
    }

    /// The automated opponent's move: sample random cells until an empty one
    /// is found, then place the opponent's mark there. The sampling is capped
    /// so that a board with no empty cell (or astronomically bad luck) fails
    /// fast instead of spinning forever; on failure the board is untouched.
    pub fn bot_move(&mut self) -> (placed: bool)
        ensures
            placed ==> exists|i: int|
                0 <= i < 9 && old(self).field@[i] == Cell::Empty && final(self).field@ == old(
                    self,
                ).field@.update(i, Cell::Opponent),
            !placed ==> final(self).field@ == old(self).field@,
            board_full(old(self).field@) ==> !placed,
            (forall|i: int| 0 <= i < 9 ==> old(self).field@[i] == Cell::Empty) ==> placed,
            final(self).player_score == old(self).player_score,
            final(self).robot_score == old(self).robot_score,
            final(self).current_turn == old(self).current_turn,
            final(self).cursor_x == old(self).cursor_x,
            final(self).cursor_y == old(self).cursor_y,
    {
        let mut attempts: u32 = 0;
        while attempts < BOT_ATTEMPT_CAP
            invariant
                self.field@ == old(self).field@,
                (forall|i: int| 0 <= i < 9 ==> old(self).field@[i] == Cell::Empty) ==> attempts
                    == 0,
                self.player_score == old(self).player_score,
                self.robot_score == old(self).robot_score,
                self.current_turn == old(self).current_turn,
                self.cursor_x == old(self).cursor_x,
                self.cursor_y == old(self).cursor_y,
            decreases BOT_ATTEMPT_CAP - attempts,
        {
            let x = crate::random::random_index();
            let y = crate::random::random_index();
            let idx = y * 3 + x;
            if self.field[idx] == Cell::Empty {
                self.field[idx] = Cell::Opponent;
                return true;
            }
            attempts = attempts + 1;
        }
        false
    }

    /// Apply one input command, as the dispatch table of the game loop.
    /// Directional commands move the cursor one cell, clamped to the board.
    /// A commit places the current side's mark on the cursor cell when that
    /// cell is empty — after which the automated opponent replies at once and
    /// the move returns to the player — and is silently dropped when the cell
    /// is occupied. Unrecognized input is silently dropped. A due reply that
    /// placed nothing (the sampling cap ran out, in practice only on a board
    /// the player's mark just filled) is reported as `ReplyFailed` so the
    /// caller can fail fast.
    pub fn apply_command(&mut self, cmd: Command) -> (r: TurnResult)
        requires
            old(self).wf(),
        ensures
            final(self).wf(),
            final(self).player_score == old(self).player_score,
            final(self).robot_score == old(self).robot_score,
            is_direction(cmd) ==> r == TurnResult::Moved && final(self).field@ == old(self).field@
                && final(self).current_turn == old(self).current_turn && (
            final(self).cursor_x as int, final(self).cursor_y as int) == cursor_after(
                cmd,
                old(self).cursor_x as int,
                old(self).cursor_y as int,
            ),
            cmd == Command::Unrecognized ==> r == TurnResult::Ignored && final(self).field@ == old(
                self,
            ).field@ && final(self).current_turn == old(self).current_turn && final(self).cursor_x
                == old(self).cursor_x && final(self).cursor_y == old(self).cursor_y,
            cmd == Command::Commit && at(
                old(self).field@,
                old(self).cursor_y as int,
                old(self).cursor_x as int,
            ) != Cell::Empty ==> r == TurnResult::Rejected && final(self).field@ == old(self).field@
                && final(self).current_turn == old(self).current_turn && final(self).cursor_x == old(
                self,
            ).cursor_x && final(self).cursor_y == old(self).cursor_y,
            cmd == Command::Commit && at(
                old(self).field@,
                old(self).cursor_y as int,
                old(self).cursor_x as int,
            ) == Cell::Empty ==> (r == TurnResult::Placed || r == TurnResult::ReplyFailed)
                && final(self).current_turn == Turn::Player && final(self).cursor_x == old(
                self,
            ).cursor_x && final(self).cursor_y == old(self).cursor_y && {
                let marked = old(self).field@.update(
                    old(self).cursor_y as int * 3 + old(self).cursor_x as int,
                    mark_for(old(self).current_turn),
                );
                &&& (r == TurnResult::Placed && old(self).current_turn == Turn::Player
                    ==> exists|j: int|
                    0 <= j < 9 && marked[j] == Cell::Empty && final(self).field@ == marked.update(
                        j,
                        Cell::Opponent,
                    ))
                &&& (r == TurnResult::ReplyFailed ==> old(self).current_turn == Turn::Player
                    && final(self).field@ == marked)
                &&& (old(self).current_turn == Turn::Opponent ==> r == TurnResult::Placed
                    && final(self).field@ == marked)
                &&& (board_full(marked) ==> final(self).field@ == marked)
                &&& (board_full(marked) && old(self).current_turn == Turn::Player ==> r
                    == TurnResult::ReplyFailed)
            },
    {
        match cmd {
            Command::Up => {
                if self.cursor_y > 0 {
                    self.cursor_y = self.cursor_y - 1;
                }
                TurnResult::Moved
            },
            Command::Down => {
                if self.cursor_y < 2 {
                    self.cursor_y = self.cursor_y + 1;
                }
                TurnResult::Moved
            },
            Command::Left => {
                if self.cursor_x > 0 {
                    self.cursor_x = self.cursor_x - 1;
                }
                TurnResult::Moved
            },
            Command::Right => {
                if self.cursor_x < 2 {
                    self.cursor_x = self.cursor_x + 1;
                }
                TurnResult::Moved
            },
            Command::Commit => {
                let was_player = match self.current_turn {
                    Turn::Player => true,
                    Turn::Opponent => false,
                };
                let mark = if was_player {
                    Cell::Player
                } else {
                    Cell::Opponent
                };
                let y = self.cursor_y;
                let x = self.cursor_x;
                match self.apply_placement(y, x, mark) {
                    Ok(()) => {
                        let replied = self.switch_player();
                        if was_player && !replied {
                            TurnResult::ReplyFailed
                        } else {
                            TurnResult::Placed
                        }
                    },
                    Err(CellOccupied) => TurnResult::Rejected,
                }
            },
            Command::Unrecognized => TurnResult::Ignored,
        }
    }

    /// Hand the move to the other side. When the move thereby falls to the
    /// automated opponent, its move is played at once and the move comes
    /// straight back to the player, so the call always ends with the player
    /// to move. `replied` reports the opponent's reply: when it is true the
    /// opponent put exactly one mark on a cell that was empty; when it is
    /// false — the move was already the opponent's, the board was full, or
    /// the sampling gave up — the board is untouched. On the all-empty board
    /// the player's hand-over is always answered.
    pub fn switch_player(&mut self) -> (replied: bool)
        ensures
            final(self).current_turn == Turn::Player,
            old(self).current_turn == Turn::Opponent ==> !replied,
            replied ==> old(self).current_turn == Turn::Player && exists|i: int|
                0 <= i < 9 && old(self).field@[i] == Cell::Empty && final(self).field@ == old(
                    self,
                ).field@.update(i, Cell::Opponent),
            !replied ==> final(self).field@ == old(self).field@,
            board_full(old(self).field@) ==> !replied,
            old(self).current_turn == Turn::Player && (forall|i: int|
                0 <= i < 9 ==> old(self).field@[i] == Cell::Empty) ==> replied,
            final(self).player_score == old(self).player_score,
            final(self).robot_score == old(self).robot_score,
            final(self).cursor_x == old(self).cursor_x,
            final(self).cursor_y == old(self).cursor_y,
    {
        match self.current_turn {
            Turn::Player => {
                self.current_turn = Turn::Opponent;
                let replied = self.bot_move();
                self.current_turn = Turn::Player;
                replied
            },
            Turn::Opponent => {
                self.current_turn = Turn::Player;
                false
            },
        }
    }
}

} // verus!
