use termtactoe::game::parse_command;
use termtactoe::game::Cell;
use termtactoe::game::CellOccupied;
use termtactoe::game::Command;
use termtactoe::game::Game;
use termtactoe::game::Turn;
use termtactoe::game::TurnResult;

fn board(cells: [Cell; 9]) -> Game {
    Game {
        field: cells,
        player_score: 0,
        robot_score: 0,
        current_turn: Turn::Player,
        cursor_x: 1,
        cursor_y: 1,
    }
}

const E: Cell = Cell::Empty;
const X: Cell = Cell::Player;
const O: Cell = Cell::Opponent;

fn count(g: &Game, m: Cell) -> usize {
    g.field.iter().filter(|&&c| c == m).count()
}

#[test]
fn new_game_is_centered_and_empty() {
    let g = Game::new();
    assert_eq!(g.field, [E; 9]);
    assert_eq!(g.player_score, 0);
    assert_eq!(g.robot_score, 0);
    assert_eq!(g.current_turn, Turn::Player);
    assert_eq!((g.cursor_x, g.cursor_y), (1, 1));
}

#[test]
fn parse_recognizes_the_five_tokens() {
    assert_eq!(parse_command("u"), Command::Up);
    assert_eq!(parse_command("d"), Command::Down);
    assert_eq!(parse_command("l"), Command::Left);
    assert_eq!(parse_command("r"), Command::Right);
    assert_eq!(parse_command("turn"), Command::Commit);
}

#[test]
fn parse_drops_everything_else() {
    assert_eq!(parse_command(""), Command::Unrecognized);
    assert_eq!(parse_command("x"), Command::Unrecognized);
    assert_eq!(parse_command("U"), Command::Unrecognized);
    assert_eq!(parse_command("TURN"), Command::Unrecognized);
    assert_eq!(parse_command("turns"), Command::Unrecognized);
    assert_eq!(parse_command(" u"), Command::Unrecognized);
    assert_eq!(parse_command("uu"), Command::Unrecognized);
}

#[test]
fn check_winner_sees_each_row() {
    for y in 0..3 {
        let mut cells = [E; 9];
        for x in 0..3 {
            cells[y * 3 + x] = X;
        }
        let g = board(cells);
        assert!(g.check_winner(X));
        assert!(!g.check_winner(O));
    }
}

#[test]
fn check_winner_sees_each_column() {
    for x in 0..3 {
        let mut cells = [E; 9];
        for y in 0..3 {
            cells[y * 3 + x] = O;
        }
        let g = board(cells);
        assert!(g.check_winner(O));
        assert!(!g.check_winner(X));
    }
}

#[test]
fn check_winner_sees_both_diagonals() {
    let g = board([X, E, E, E, X, E, E, E, X]);
    assert!(g.check_winner(X));
    let g = board([E, E, O, E, O, E, O, E, E]);
    assert!(g.check_winner(O));
}

#[test]
fn check_winner_needs_a_full_line() {
    let g = board([X, X, E, O, O, E, E, E, E]);
    assert!(!g.check_winner(X));
    assert!(!g.check_winner(O));
    let g = board([X, O, X, O, X, O, O, X, O]);
    assert!(!g.check_winner(X));
    assert!(!g.check_winner(O));
}

#[test]
fn placement_fills_an_empty_cell() {
    let mut g = Game::new();
    assert_eq!(g.apply_placement(0, 2, X), Ok(()));
    assert_eq!(g.field[2], X);
    assert_eq!(count(&g, X), 1);
    assert_eq!(count(&g, O), 0);
}

#[test]
fn placement_on_an_occupied_cell_changes_nothing() {
    let mut g = board([E, E, E, E, O, E, E, E, E]);
    let before = g.field;
    assert_eq!(g.apply_placement(1, 1, X), Err(CellOccupied));
    assert_eq!(g.field, before);
    assert_eq!(g.current_turn, Turn::Player);
    assert_eq!(g.player_score, 0);
    assert_eq!(g.robot_score, 0);
    assert_eq!((g.cursor_x, g.cursor_y), (1, 1));
    // A second failing attempt leaves the same state again.
    assert_eq!(g.apply_placement(1, 1, X), Err(CellOccupied));
    assert_eq!(g.field, before);
}

#[test]
fn directions_move_the_cursor_one_cell() {
    let mut g = Game::new();
    assert_eq!(g.apply_command(Command::Up), TurnResult::Moved);
    assert_eq!((g.cursor_x, g.cursor_y), (1, 0));
    assert_eq!(g.apply_command(Command::Down), TurnResult::Moved);
    assert_eq!((g.cursor_x, g.cursor_y), (1, 1));
    assert_eq!(g.apply_command(Command::Left), TurnResult::Moved);
    assert_eq!((g.cursor_x, g.cursor_y), (0, 1));
    assert_eq!(g.apply_command(Command::Right), TurnResult::Moved);
    assert_eq!((g.cursor_x, g.cursor_y), (1, 1));
}

#[test]
fn direction_then_inverse_returns_the_cursor() {
    // From the center no move touches an edge, so each pair returns to (1, 1).
    let pairs = [
        (Command::Up, Command::Down),
        (Command::Down, Command::Up),
        (Command::Left, Command::Right),
        (Command::Right, Command::Left),
    ];
    for (there, back) in pairs {
        let mut g = Game::new();
        g.apply_command(there);
        g.apply_command(back);
        assert_eq!((g.cursor_x, g.cursor_y), (1, 1));
    }
}

#[test]
fn up_at_the_top_row_stays_put() {
    let mut g = Game::new();
    g.apply_command(Command::Up);
    assert_eq!(g.cursor_y, 0);
    g.apply_command(Command::Up);
    assert_eq!(g.cursor_y, 0);
    assert_eq!(g.cursor_x, 1);
}

#[test]
fn every_edge_clamps() {
    let mut g = Game::new();
    for _ in 0..5 {
        g.apply_command(Command::Down);
    }
    assert_eq!(g.cursor_y, 2);
    for _ in 0..5 {
        g.apply_command(Command::Right);
    }
    assert_eq!(g.cursor_x, 2);
    for _ in 0..5 {
        g.apply_command(Command::Left);
    }
    assert_eq!(g.cursor_x, 0);
    for _ in 0..5 {
        g.apply_command(Command::Up);
    }
    assert_eq!(g.cursor_y, 0);
}

#[test]
fn unrecognized_input_changes_nothing() {
    let mut g = Game::new();
    assert_eq!(g.apply_command(Command::Unrecognized), TurnResult::Ignored);
    assert_eq!(g.field, [E; 9]);
    assert_eq!((g.cursor_x, g.cursor_y), (1, 1));
    assert_eq!(g.current_turn, Turn::Player);
}

#[test]
fn commit_on_an_occupied_cell_is_rejected() {
    let mut g = board([E, E, E, E, X, E, E, E, E]);
    let before = g.field;
    assert_eq!(g.apply_command(Command::Commit), TurnResult::Rejected);
    assert_eq!(g.field, before);
    assert_eq!(g.current_turn, Turn::Player);
}

#[test]
fn commit_places_the_player_mark_and_one_reply() {
    let mut g = Game::new();
    assert_eq!(g.apply_command(Command::Commit), TurnResult::Placed);
    // The player's mark is on the cursor cell, the opponent answered with
    // exactly one mark somewhere else, and the move is the player's again.
    assert_eq!(g.field[4], X);
    assert_eq!(count(&g, X), 1);
    assert_eq!(count(&g, O), 1);
    assert_eq!(g.current_turn, Turn::Player);
    assert_eq!((g.cursor_x, g.cursor_y), (1, 1));
    assert_eq!(g.player_score, 0);
    assert_eq!(g.robot_score, 0);
}

#[test]
fn bot_reply_lands_in_the_one_empty_cell() {
    // Only the cursor cell and (2, 0) are free: the player takes the cursor
    // cell and the opponent's random sampling has one cell left to find.
    let mut g = board([X, O, X, O, E, O, E, X, O]);
    assert_eq!(g.apply_command(Command::Commit), TurnResult::Placed);
    assert_eq!(g.field[4], X);
    assert_eq!(g.field[6], O);
    assert_eq!(count(&g, E), 0);
    assert_eq!(count(&g, O), 5);
}

#[test]
fn commit_filling_the_board_reports_the_failed_reply() {
    // The player's mark takes the last empty cell, so the due reply cannot
    // place anywhere and the failure is reported.
    let mut g = board([X, O, X, O, E, O, X, O, X]);
    assert_eq!(g.apply_command(Command::Commit), TurnResult::ReplyFailed);
    assert_eq!(g.field[4], X);
    assert_eq!(count(&g, E), 0);
    assert_eq!(g.current_turn, Turn::Player);
}

#[test]
fn bot_move_on_a_full_board_gives_up_unchanged() {
    let mut g = board([X, O, X, O, X, O, O, X, O]);
    let before = g.field;
    let placed = g.bot_move();
    assert!(!placed);
    assert_eq!(g.field, before);
}

#[test]
fn bot_move_places_exactly_one_opponent_mark() {
    let mut g = Game::new();
    let placed = g.bot_move();
    assert!(placed);
    assert_eq!(count(&g, O), 1);
    assert_eq!(count(&g, X), 0);
    assert_eq!(g.current_turn, Turn::Player);
}

#[test]
fn switch_player_from_opponent_only_returns_the_move() {
    let mut g = Game::new();
    g.current_turn = Turn::Opponent;
    let replied = g.switch_player();
    assert!(!replied);
    assert_eq!(g.current_turn, Turn::Player);
    assert_eq!(g.field, [E; 9]);
}

#[test]
fn switch_player_from_player_gets_exactly_one_reply() {
    let mut g = Game::new();
    let replied = g.switch_player();
    assert!(replied);
    assert_eq!(g.current_turn, Turn::Player);
    assert_eq!(count(&g, O), 1);
    assert_eq!(count(&g, X), 0);
}

#[test]
fn reset_clears_the_board_and_keeps_the_scores() {
    let mut g = board([X, O, X, O, X, O, E, E, E]);
    g.player_score = 7;
    g.robot_score = 4;
    g.cursor_x = 2;
    g.cursor_y = 0;
    g.current_turn = Turn::Opponent;
    g.reset_game();
    assert_eq!(g.field, [E; 9]);
    assert_eq!((g.cursor_x, g.cursor_y), (1, 1));
    assert_eq!(g.current_turn, Turn::Player);
    assert_eq!(g.player_score, 7);
    assert_eq!(g.robot_score, 4);
}

#[test]
fn a_win_bumps_exactly_one_score_by_one() {
    let mut g = board([X, X, X, O, O, E, E, E, E]);
    g.player_score = 2;
    g.robot_score = 9;
    assert_eq!(g.resolve_round(), Some(Turn::Player));
    assert_eq!(g.player_score, 3);
    assert_eq!(g.robot_score, 9);
    assert_eq!(g.field, [E; 9]);

    let mut g = board([X, X, E, O, O, O, X, E, E]);
    g.player_score = 2;
    g.robot_score = 9;
    assert_eq!(g.resolve_round(), Some(Turn::Opponent));
    assert_eq!(g.player_score, 2);
    assert_eq!(g.robot_score, 10);
    assert_eq!(g.field, [E; 9]);
}

#[test]
fn lines_for_both_marks_bump_only_the_player() {
    // Both marks hold a full row (not reachable in play, but the precedence
    // is fixed): only the player's score moves, and by one.
    let mut g = board([X, X, X, O, O, O, E, E, E]);
    g.player_score = 5;
    g.robot_score = 5;
    assert_eq!(g.resolve_round(), Some(Turn::Player));
    assert_eq!(g.player_score, 6);
    assert_eq!(g.robot_score, 5);
    assert_eq!(g.field, [E; 9]);
}

#[test]
fn no_winner_leaves_the_round_in_progress() {
    let mut g = board([X, O, E, E, E, E, E, E, E]);
    g.cursor_x = 0;
    g.cursor_y = 2;
    assert_eq!(g.resolve_round(), None);
    assert_eq!(g.field, [X, O, E, E, E, E, E, E, E]);
    assert_eq!((g.cursor_x, g.cursor_y), (0, 2));
    assert_eq!(g.player_score, 0);
    assert_eq!(g.robot_score, 0);
}

#[test]
fn player_top_row_win_over_three_frames() {
    // The player fills the top row over three commits; the opponent's three
    // interleaved placements land elsewhere and complete no line. After the
    // third placement the player has won, the score moves to 1 and the board
    // resets.
    let mut g = Game::new();

    assert_eq!(g.apply_placement(0, 0, X), Ok(()));
    assert_eq!(g.apply_placement(1, 0, O), Ok(()));
    assert_eq!(g.resolve_round(), None);

    assert_eq!(g.apply_placement(0, 1, X), Ok(()));
    assert_eq!(g.apply_placement(1, 1, O), Ok(()));
    assert_eq!(g.resolve_round(), None);

    assert_eq!(g.apply_placement(0, 2, X), Ok(()));
    assert_eq!(g.apply_placement(2, 0, O), Ok(()));
    assert!(g.check_winner(X));
    assert_eq!(g.resolve_round(), Some(Turn::Player));
    assert_eq!(g.player_score, 1);
    assert_eq!(g.robot_score, 0);
    assert_eq!(g.field, [E; 9]);
    assert_eq!((g.cursor_x, g.cursor_y), (1, 1));
    assert_eq!(g.current_turn, Turn::Player);
}

#[test]
fn near_full_board_commit_wins_nobody() {
    // Board [[X, X, O], [O, O, X], [X, _, _]] with the cursor on (row 2,
    // column 1): committing places X there, every line check fails for both
    // marks, and the round goes on.
    let mut g = board([X, X, O, O, O, X, X, E, E]);
    g.cursor_y = 2;
    g.cursor_x = 1;
    assert_eq!(g.apply_command(Command::Commit), TurnResult::Placed);
    assert_eq!(g.field[7], X);
    // The opponent's reply went to the only remaining cell.
    assert_eq!(g.field[8], O);
    assert!(!g.check_winner(X));
    assert!(!g.check_winner(O));
    assert_eq!(g.resolve_round(), None);
    assert_eq!(g.current_turn, Turn::Player);
}

#[test]
fn check_winner_matches_a_line_oracle() {
    let boards = [
        [E; 9],
        [X, X, X, E, E, E, E, E, E],
        [E, E, E, E, E, E, O, O, O],
        [X, E, E, X, E, E, X, E, E],
        [X, E, O, E, X, E, O, E, X],
        [O, X, O, X, O, X, X, O, X],
    ];
    for cells in boards {
        let g = board(cells);
        for m in [X, O] {
            assert_eq!(g.check_winner(m), wins_exec(&cells, m));
        }
    }
}

// The eight lines of the board, spelled out as the test's own oracle.
fn wins_exec(c: &[Cell; 9], m: Cell) -> bool {
    let lines = [
        [0, 1, 2],
        [3, 4, 5],
        [6, 7, 8],
        [0, 3, 6],
        [1, 4, 7],
        [2, 5, 8],
        [0, 4, 8],
        [2, 4, 6],
    ];
    lines
        .iter()
        .any(|l| l.iter().all(|&i| c[i] == m))
}
