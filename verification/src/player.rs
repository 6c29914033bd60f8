use vstd::prelude::*;

verus! {

/// A mark on the board. The two players are identified by their marks.
#[derive(Copy, Clone, Eq, PartialEq, Debug, Structural)]
pub enum Player {
    /// empty/tie
    Empty,
    /// X player
    X,
    /// O player
    O,
}

impl Player {
    /// The character that stands for this mark in a rendered board.
    pub open spec fn spec_glyph(&self) -> char {
        match self {
            Player::Empty => '*',
            Player::X => 'X',
            Player::O => 'O',
        }
    }

    /// The player who moves after this one. `Empty` is nobody's turn and has
    /// no successor but itself.
    pub open spec fn opponent(self) -> Player {
        match self {
            Player::Empty => Player::Empty,
            Player::X => Player::O,
            Player::O => Player::X,
        }
    }

    /// Whether this is the mark of one of the two players.
    pub open spec fn is_mark(self) -> bool {
        self != Player::Empty
    }

    /// The character that stands for this mark in a rendered board.
    #[verifier::when_used_as_spec(spec_glyph)]
    pub fn glyph(&self) -> (c: char)
        ensures
            c == self.spec_glyph(),
    {
        match self {
            Player::Empty => '*',
            Player::X => 'X',
            Player::O => 'O',
        }
    }

    /// The glyph as a piece of text.
    pub fn glyph_str(&self) -> (text: &'static str)
        ensures
            text@ == seq![self.spec_glyph()],
    {
        proof {
            reveal_strlit("*");
            reveal_strlit("X");
            reveal_strlit("O");
        }
        let text = match self {
            Player::Empty => "*",
            Player::X => "X",
            Player::O => "O",
        };
        assert(text@ =~= seq![self.spec_glyph()]);
        text
    }
}

} // verus!
