use vstd::prelude::*;
use crate::board::Board;
use crate::player::{Move, Player};
use crate::piece::Piece;

verus! {

/// One game of chess in progress: a board and what each player has done.
pub struct Game {
    board: Board,
    white: Player,
    black: Player,
}

impl Game {
    /// The board of this game.
    pub closed spec fn board_spec(self) -> Board {
        self.board
    }

    /// What the white player has done.
    pub closed spec fn white_spec(self) -> Player {
        self.white
    }

    /// What the black player has done.
    pub closed spec fn black_spec(self) -> Player {
        self.black
    }

    /// The game is as it was made: an empty board, and neither player has
    /// made a move or taken a piece.
    pub open spec fn is_fresh(self) -> bool {
        &&& self.board_spec().is_empty()
        &&& self.white_spec().history() == Seq::<Move>::empty()
        &&& self.white_spec().captured() == Seq::<Piece>::empty()
        &&& self.black_spec().history() == Seq::<Move>::empty()
        &&& self.black_spec().captured() == Seq::<Piece>::empty()
    }

    /// A new game: an empty board and two players with no history.
    pub fn new() -> (r: Game)
        ensures
            r.is_fresh(),
    {
        Game { board: Board::new(), white: Player::new(), black: Player::new() }
    }

    /// A copy of the board, for drawing.
    pub fn owned_board(&self) -> (r: Board)
        ensures
            r == self.board_spec(),
    {
        self.board
    }

    /// What the white player has done.
    pub fn white(&self) -> (r: &Player)
        ensures
            *r == self.white_spec(),
    {
        &self.white
    }

    /// What the black player has done.
    pub fn black(&self) -> (r: &Player)
        ensures
            *r == self.black_spec(),
    {
        &self.black
    }
}

} // verus!
