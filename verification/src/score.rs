//! The score counters and the text shown for them.
//!
//! The two counters only ever grow. The displayed number is the raw counter
//! divided by two, and once a counter passes the winning threshold both
//! display lines are replaced by that player's win message; the counters
//! themselves keep counting.

use vstd::prelude::*;

verus! {

/// A player whose raw counter exceeds this shows as the winner.
pub const WIN_THRESHOLD: u64 = 9;

/// Each raw counter shows as this fraction of itself.
pub const SCORE_DISPLAY_DIV: u64 = 2;

/// The process-wide score counters.
#[derive(Clone, Copy, PartialEq, Eq, Structural, Debug)]
pub struct Scoreboard {
    pub player_1_score: u64,
    pub player_2_score: u64,
}

/// Mathematical model of a [`Scoreboard`].
pub struct ScoreboardView {
    pub player_1_score: int,
    pub player_2_score: int,
}

impl View for Scoreboard {
    type V = ScoreboardView;

    open spec fn view(&self) -> ScoreboardView {
        ScoreboardView {
            player_1_score: self.player_1_score as int,
            player_2_score: self.player_2_score as int,
        }
    }
}

/// The decimal digit character for `d`.
pub open spec fn digit_char(d: int) -> char {
    if d == 0 {
        '0'
    } else if d == 1 {
        '1'
    } else if d == 2 {
        '2'
    } else if d == 3 {
        '3'
    } else if d == 4 {
        '4'
    } else if d == 5 {
        '5'
    } else if d == 6 {
        '6'
    } else if d == 7 {
        '7'
    } else if d == 8 {
        '8'
    } else {
        '9'
    }
}

/// The decimal digits of `n`, most significant first.
pub open spec fn dec_digits(n: int) -> Seq<char>
    recommends
        n >= 0,
    decreases n,
{
    if n < 10 {
        seq![digit_char(n)]
    } else {
        dec_digits(n / 10).push(digit_char(n % 10))
    }
}

/// The text shown on one of the two display lines: the first line carries
/// player one's displayed score, the second player two's, and either
/// player's win message replaces both.
pub open spec fn line_for(board: ScoreboardView, first: bool) -> Seq<char> {
    if board.player_1_score > WIN_THRESHOLD {
        "Player 1 Wins!"@
    } else if board.player_2_score > WIN_THRESHOLD {
        "Player 2 Wins!"@
    } else if first {
        dec_digits(board.player_1_score / (SCORE_DISPLAY_DIV as int))
    } else {
        dec_digits(board.player_2_score / (SCORE_DISPLAY_DIV as int))
    }
}

/// A one-character string holding the digit `d`.
fn digit_str(d: u64) -> (s: String)
    requires
        d < 10,
    ensures
        s@ == seq![digit_char(d as int)],
{
    proof {
        reveal_strlit("0");
        reveal_strlit("1");
        reveal_strlit("2");
        reveal_strlit("3");
        reveal_strlit("4");
        reveal_strlit("5");
        reveal_strlit("6");
        reveal_strlit("7");
        reveal_strlit("8");
        reveal_strlit("9");
    }
    let s = if d == 0 {
        String::from_str("0")
    } else if d == 1 {
        String::from_str("1")
    } else if d == 2 {
        String::from_str("2")
    } else if d == 3 {
        String::from_str("3")
    } else if d == 4 {
        String::from_str("4")
    } else if d == 5 {
        String::from_str("5")
    } else if d == 6 {
        String::from_str("6")
    } else if d == 7 {
        String::from_str("7")
    } else if d == 8 {
        String::from_str("8")
    } else {
        String::from_str("9")
    };
    assert(s@ =~= seq![digit_char(d as int)]);
    s
}

/// Renders `n` in decimal.
pub fn u64_to_string(n: u64) -> (s: String)
    ensures
        s@ == dec_digits(n as int),
    decreases n,
{
    if n < 10 {
        digit_str(n)
    } else {
        let mut s = u64_to_string(n / 10);
        let d = digit_str(n % 10);
        s.append(d.as_str());
        assert(s@ =~= dec_digits(n as int));
        s
    }
}

impl Scoreboard {
    /// A board with both counters at zero.
    pub fn new() -> (b: Scoreboard)
        ensures
            b.player_1_score == 0,
            b.player_2_score == 0,
    {
        Scoreboard { player_1_score: 0, player_2_score: 0 }
    }

    /// The two display lines for this board, first player one's, then
    /// player two's.
    pub fn update_scoreboard(&self) -> (lines: (String, String))
        ensures
            lines.0@ == line_for(self@, true),
            lines.1@ == line_for(self@, false),
    {
        (self.line(true), self.line(false))
    }

    /// One display line for this board.
    pub fn line(&self, first: bool) -> (s: String)
        ensures
            s@ == line_for(self@, first),
    {
        if self.player_1_score > WIN_THRESHOLD {
            String::from_str("Player 1 Wins!")
        } else if self.player_2_score > WIN_THRESHOLD {
            String::from_str("Player 2 Wins!")
        } else if first {
            u64_to_string(self.player_1_score / SCORE_DISPLAY_DIV)
        } else {
            u64_to_string(self.player_2_score / SCORE_DISPLAY_DIV)
        }
    }
}

} // verus!
