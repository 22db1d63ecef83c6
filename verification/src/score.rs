//! The scoreboard.

use vstd::prelude::*;
use vstd::string::*;

verus! {

/// The goals of player 0 and of player 1, in this order.
#[derive(Clone, Copy, Debug, PartialEq, Eq, Structural)]
pub struct ScoreBoard(pub u64, pub u64);

/// The character for the digit `d`.
pub open spec fn digit(d: int) -> char {
    if d == 0 {
        '0'
    } else if d == 1 {
        '1'
    } else if d == 2 {
        '2'
    } else if d == 3 {
        '3'
    } else if d == 4 {
        '4'
    } else if d == 5 {
        '5'
    } else if d == 6 {
        '6'
    } else if d == 7 {
        '7'
    } else if d == 8 {
        '8'
    } else {
        '9'
    }
}

/// `n` written in decimal digits, without leading zeros.
pub open spec fn decimal(n: nat) -> Seq<char>
    decreases n,
{
    if n < 10 {
        seq![digit(n as int)]
    } else {
        decimal(n / 10).push(digit((n % 10) as int))
    }
}

fn digit_text(d: u64) -> (text: &'static str)
    requires
        d < 10,
    ensures
        text@ == seq![digit(d as int)],
{
    proof {
        reveal_strlit("0");
        reveal_strlit("1");
        reveal_strlit("2");
        reveal_strlit("3");
        reveal_strlit("4");
        reveal_strlit("5");
        reveal_strlit("6");
        reveal_strlit("7");
        reveal_strlit("8");
        reveal_strlit("9");
    }
    let text = if d == 0 {
        "0"
    } else if d == 1 {
        "1"
    } else if d == 2 {
        "2"
    } else if d == 3 {
        "3"
    } else if d == 4 {
        "4"
    } else if d == 5 {
        "5"
    } else if d == 6 {
        "6"
    } else if d == 7 {
        "7"
    } else if d == 8 {
        "8"
    } else {
        "9"
    };
    assert(text@ =~= seq![digit(d as int)]);
    text
}

/// Writes `n` in decimal digits.
pub fn decimal_text(n: u64) -> (text: String)
    ensures
        text@ == decimal(n as nat),
    decreases n,
{
    if n < 10 {
        String::from_str(digit_text(n))
    } else {
        let mut text = decimal_text(n / 10);
        text.append(digit_text(n % 10));
        assert(text@ =~= decimal((n / 10) as nat).push(digit((n % 10) as int)));
        text
    }
}

impl ScoreBoard {
    /// The score of player `owner`; only players 0 and 1 have one.
    pub open spec fn score_of(self, owner: u8) -> Option<u64> {
        if owner == 0 {
            Some(self.0)
        } else if owner == 1 {
            Some(self.1)
        } else {
            None
        }
    }

    /// Whether `through_left` goals through the left wall and
    /// `through_right` goals through the right wall can still be counted.
    pub open spec fn can_add(self, through_left: nat, through_right: nat) -> bool {
        self.0 + through_right <= u64::MAX && self.1 + through_left <= u64::MAX
    }

    /// This scoreboard after that many goals: each goal through the left
    /// wall counts for player 1, each through the right wall for player 0.
    pub open spec fn added(self, through_left: nat, through_right: nat) -> ScoreBoard {
        ScoreBoard((self.0 + through_right) as u64, (self.1 + through_left) as u64)
    }

    /// The scoreboard of a match that starts.
    pub fn new() -> (board: ScoreBoard)
        ensures
            board == ScoreBoard(0, 0),
    {
        ScoreBoard(0, 0)
    }

    /// Counts goals: each of the `through_left` goals for player 1, each of
    /// the `through_right` goals for player 0. No score ever goes down.
    pub fn add_goals(&mut self, through_left: u64, through_right: u64)
        requires
            old(self).can_add(through_left as nat, through_right as nat),
        ensures
            *final(self) == old(self).added(through_left as nat, through_right as nat),
            final(self).0 == old(self).0 + through_right,
            final(self).1 == old(self).1 + through_left,
    {
        self.0 = self.0 + through_right;
        self.1 = self.1 + through_left;
    }

    /// Executable form of [`ScoreBoard::score_of`].
    pub fn score(&self, owner: u8) -> (score: Option<u64>)
        ensures
            score == self.score_of(owner),
    {
        if owner == 0 {
            Some(self.0)
        } else if owner == 1 {
            Some(self.1)
        } else {
            None
        }
    }

    /// What the display of player `owner` shows: the score in decimal
    /// digits, or the word `error` for an owner who is no player, so that a
    /// stray owner never shows a player's score.
    pub fn label(&self, owner: u8) -> (text: String)
        ensures
            text@ == (match self.score_of(owner) {
                Some(n) => decimal(n as nat),
                None => "error"@,
            }),
    {
        match self.score(owner) {
            Some(n) => decimal_text(n),
            None => String::from_str("error"),
        }
    }
}

} // verus!
