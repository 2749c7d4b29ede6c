//! The two sides of the game.

use vstd::prelude::*;

verus! {

/// One of the two sides. `First` opens the game and is drawn as "X",
/// `Second` answers and is drawn as "O".
#[derive(Clone, Copy, Debug, PartialEq, Eq, Hash, Structural)]
pub enum Player {
    First,
    Second,
}

impl Player {
    /// The other side.
    pub open spec fn other(self) -> Player {
        match self {
            Player::First => Player::Second,
            Player::Second => Player::First,
        }
    }

    /// The letter drawn for this side's marks.
    pub open spec fn letter(self) -> char {
        match self {
            Player::First => 'X',
            Player::Second => 'O',
        }
    }

    /// Returns the side that moves after this one.
    #[verifier::when_used_as_spec(other)]
    pub fn opponent(self) -> (p: Player)
        ensures
            p == self.other(),
    {
        match self {
            Player::First => Player::Second,
            Player::Second => Player::First,
        }
    }

    /// Returns the letter drawn for this side's marks: 'X' for the first
    /// player, 'O' for the second.
    #[verifier::when_used_as_spec(letter)]
    pub fn symbol(self) -> (c: char)
        ensures
            c == self.letter(),
    {
        match self {
            Player::First => 'X',
            Player::Second => 'O',
        }
    }
}

} // verus!
