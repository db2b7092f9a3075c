//! Turning a game state into the fixed text frame that is printed each turn.
//!
//! Every line of the frame is pinned down, character for character, by the
//! spec functions in this module; the executable renderer returns exactly
//! those lines and the caller only has to print them.

use vstd::prelude::*;
use vstd::string::StrSliceExecFns;
use vstd::string::StringExecFns;
use crate::game::at;
use crate::game::Cell;
use crate::game::Game;
use crate::game::Turn;

verus! {

/// The character for a decimal digit value.
pub open spec fn digit_char(d: nat) -> char
    recommends
        d < 10,
{
    if d == 0 {
        '0'
    } else if d == 1 {
        '1'
    } else if d == 2 {
        '2'
    } else if d == 3 {
        '3'
    } else if d == 4 {
        '4'
    } else if d == 5 {
        '5'
    } else if d == 6 {
        '6'
    } else if d == 7 {
        '7'
    } else if d == 8 {
        '8'
    } else {
        '9'
    }
}

/// The decimal digits of `n`, most significant first, with no leading zeros
/// (a lone zero for zero itself).
pub open spec fn decimal(n: nat) -> Seq<char>
    decreases n,
{
    if n < 10 {
        seq![digit_char(n)]
    } else {
        decimal(n / 10) + seq![digit_char(n % 10)]
    }
}

/// The text shown for a cell's content.
pub open spec fn cell_text(c: Cell) -> Seq<char> {
    match c {
        Cell::Empty => " "@,
        Cell::Player => "X"@,
        Cell::Opponent => "O"@,
    }
}

/// The text shown for a cell on the cursor's row: the cursor slot renders as
/// a star whatever the cell holds.
pub open spec fn slot_text(c: Cell, cursor_here: bool) -> Seq<char> {
    if cursor_here {
        "*"@
    } else {
        cell_text(c)
    }
}

/// The fixed title line.
pub open spec fn title_line() -> Seq<char> {
    "=====TermTacToe====="@
}

/// The fixed heading above the scores.
pub open spec fn score_heading_line() -> Seq<char> {
    "                Score"@
}

/// The line showing both scores.
pub open spec fn score_line(player: nat, robot: nat) -> Seq<char> {
    "      Player: "@ + decimal(player) + "  Robot: "@ + decimal(robot)
}

/// The fixed border above and below the grid.
pub open spec fn border_line() -> Seq<char> {
    "   ###############"@
}

/// The fixed separator printed under a row the cursor is not on.
pub open spec fn separator_line() -> Seq<char> {
    "   #----------------------------#"@
}

/// A grid row the cursor is not on: the three cell contents between bars.
pub open spec fn plain_row_line(b: Seq<Cell>, y: int) -> Seq<char> {
    "   #    "@ + cell_text(at(b, y, 0)) + "    |    "@ + cell_text(at(b, y, 1)) + "   |    "@
        + cell_text(at(b, y, 2)) + "    #"@
}

/// The grid row the cursor is on: each slot shows its cell, except the
/// cursor's slot, which shows the star.
pub open spec fn cursor_row_line(b: Seq<Cell>, y: int, cx: int) -> Seq<char> {
    "   # "@ + slot_text(at(b, y, 0), cx == 0) + " | "@ + slot_text(at(b, y, 1), cx == 1) + " | "@
        + slot_text(at(b, y, 2), cx == 2) + " | "@ + "#"@
}

/// The line or pair of lines that grid row `y` contributes to the frame.
pub open spec fn row_lines(g: Game, y: int) -> Seq<Seq<char>> {
    if y == g.cursor_y {
        seq![cursor_row_line(g.field@, y, g.cursor_x as int)]
    } else {
        seq![plain_row_line(g.field@, y), separator_line()]
    }
}

/// The whole frame, top to bottom: title, score heading, scores, border, the
/// three grid rows, border.
pub open spec fn frame_lines(g: Game) -> Seq<Seq<char>> {
    seq![title_line(), score_heading_line(), score_line(
        g.player_score as nat,
        g.robot_score as nat,
    ), border_line()] + row_lines(g, 0) + row_lines(g, 1) + row_lines(g, 2) + seq![border_line()]
}

/// The announcement printed once when a round ends.
pub open spec fn winner_text(w: Turn) -> Seq<char> {
    match w {
        Turn::Player => "Player wins!"@,
        Turn::Opponent => "Robot wins!"@,
    }
}

/// The announcement line for the round's winner.
pub fn winner_line(w: Turn) -> (r: &'static str)
    ensures
        r@ == winner_text(w),
{
    match w {
        Turn::Player => "Player wins!",
        Turn::Opponent => "Robot wins!",
    }
}

/// The one-character text of a decimal digit value.
fn digit_str(d: u32) -> (r: &'static str)
    requires
        d < 10,
    ensures
        r@ == seq![digit_char(d as nat)],
{
    proof {
        reveal_strlit("0");
        reveal_strlit("1");
        reveal_strlit("2");
        reveal_strlit("3");
        reveal_strlit("4");
        reveal_strlit("5");
        reveal_strlit("6");
        reveal_strlit("7");
        reveal_strlit("8");
        reveal_strlit("9");
    }
    let r = match d {
        0 => "0",
        1 => "1",
        2 => "2",
        3 => "3",
        4 => "4",
        5 => "5",
        6 => "6",
        7 => "7",
        8 => "8",
        _ => "9",
    };
    proof {
        assert(r@ =~= seq![digit_char(d as nat)]);
    }
    r
}

/// Append the decimal digits of `n` to `s`.
fn push_decimal(s: &mut String, n: u32)
    ensures
        final(s)@ == old(s)@ + decimal(n as nat),
    decreases n,
{
    if n >= 10 {
        push_decimal(s, n / 10);
        s.append(digit_str(n % 10));
        proof {
            assert(final(s)@ =~= old(s)@ + decimal(n as nat));
        }
    } else {
        s.append(digit_str(n));
    }
}

/// Append to `lines` what grid row `y` contributes to the frame.
fn push_row(lines: &mut Vec<String>, g: &Game, y: usize)
    requires
        g.wf(),
        y < 3,
    ensures
        final(lines).deep_view() == old(lines).deep_view() + row_lines(*g, y as int),
{
    let c0 = cell_str(g.field[y * 3]);
    let c1 = cell_str(g.field[y * 3 + 1]);
    let c2 = cell_str(g.field[y * 3 + 2]);
    if y == g.cursor_y {
        let mut line = String::from_str("   # ");
        line.append(if g.cursor_x == 0 {
            "*"
        } else {
            c0
        });
        line.append(" | ");
        line.append(if g.cursor_x == 1 {
            "*"
        } else {
            c1
        });
        line.append(" | ");
        line.append(if g.cursor_x == 2 {
            "*"
        } else {
            c2
        });
        line.append(" | ");
        line.append("#");
        lines.push(line);
        proof {
            assert(final(lines).deep_view() =~= old(lines).deep_view() + row_lines(
                *g,
                y as int,
            ));
        }
    } else {
        let mut line = String::from_str("   #    ");
        line.append(c0);
        line.append("    |    ");
        line.append(c1);
        line.append("   |    ");
        line.append(c2);
        line.append("    #");
        lines.push(line);
        lines.push(String::from_str("   #----------------------------#"));
        proof {
            assert(final(lines).deep_view() =~= old(lines).deep_view() + row_lines(
                *g,
                y as int,
            ));
        }
    }
}

/// The text of one cell's content.
fn cell_str(c: Cell) -> (r: &'static str)
    ensures
        r@ == cell_text(c),
{
    match c {
        Cell::Empty => " ",
        Cell::Player => "X",
        Cell::Opponent => "O",
    }
}

/// Render the whole frame for a state: exactly the lines of `frame_lines`,
/// top to bottom, ready to be printed.
pub fn render_lines(g: &Game) -> (lines: Vec<String>)
    requires
        g.wf(),
    ensures
        lines.deep_view() == frame_lines(*g),
{
    let mut lines: Vec<String> = Vec::new();
    lines.push(String::from_str("=====TermTacToe====="));
    lines.push(String::from_str("                Score"));
    let mut score = String::from_str("      Player: ");
    push_decimal(&mut score, g.player_score);
    score.append("  Robot: ");
    push_decimal(&mut score, g.robot_score);
    lines.push(score);
    lines.push(String::from_str("   ###############"));
    proof {
        assert(lines.deep_view() =~= seq![title_line(), score_heading_line(), score_line(
            g.player_score as nat,
            g.robot_score as nat,
        ), border_line()]);
    }
    push_row(&mut lines, g, 0);
    push_row(&mut lines, g, 1);
    push_row(&mut lines, g, 2);
    lines.push(String::from_str("   ###############"));
    proof {
        assert(lines.deep_view() =~= frame_lines(*g));
    }
    lines
}

} // verus!
