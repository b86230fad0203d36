use vstd::prelude::*;
use crate::piece::Piece;
use crate::position::Position;

verus! {

/// One executed move: the piece moved, the square it left and the square it
/// reached.
pub type Move = (Piece, Position, Position);

/// What one player has done in a game: the moves made, in order, and the
/// opponent's pieces taken, in order. Both only grow.
pub struct Player {
    moves: Vec<Move>,
    taken_pieces: Vec<Piece>,
}

impl Player {
    /// The moves made, oldest first.
    pub closed spec fn history(self) -> Seq<Move> {
        self.moves@
    }

    /// The pieces taken, oldest first.
    pub closed spec fn captured(self) -> Seq<Piece> {
        self.taken_pieces@
    }

    /// A player who has made no move and taken no piece.
    pub fn new() -> (r: Player)
        ensures
            r.history() == Seq::<Move>::empty(),
            r.captured() == Seq::<Piece>::empty(),
    {
        Player { moves: Vec::new(), taken_pieces: Vec::new() }
    }

    /// Appends a move of `piece` from `from` to `to` to the history.
    pub fn record_move(&mut self, piece: Piece, from: Position, to: Position)
        ensures
            final(self).history() == old(self).history().push((piece, from, to)),
            final(self).captured() == old(self).captured(),
    {
        self.moves.push((piece, from, to));
    }

    /// Appends `piece` to the pieces taken.
    pub fn record_capture(&mut self, piece: Piece)
        ensures
            final(self).history() == old(self).history(),
            final(self).captured() == old(self).captured().push(piece),
    {
        self.taken_pieces.push(piece);
    }

    /// The moves made, oldest first.
    pub fn moves(&self) -> (r: &[Move])
        ensures
            r@ == self.history(),
    {
        self.moves.as_slice()
    }

    /// The pieces taken, oldest first.
    pub fn taken_pieces(&self) -> (r: &[Piece])
        ensures
            r@ == self.captured(),
    {
        self.taken_pieces.as_slice()
    }
}

/// Moves come back in the order they were recorded: if `states` are the
/// successive values of a player that starts with no moves, and each step
/// records the move of the same place in `recorded`, the last state's
/// moves are exactly `recorded`.
pub proof fn lemma_moves_in_call_order(states: Seq<Player>, recorded: Seq<Move>)
    requires
        states.len() == recorded.len() + 1,
        states[0].history() == Seq::<Move>::empty(),
        forall|i: int|
            0 <= i < recorded.len() ==> #[trigger] states[i + 1].history() == states[i].history().push(
                recorded[i],
            ),
    ensures
        states.last().history() == recorded,
    decreases recorded.len(),
{
    if recorded.len() > 0 {
        let n = recorded.len() - 1;
        lemma_moves_in_call_order(states.drop_last(), recorded.drop_last());
        assert(states[n + 1].history() == states[n].history().push(recorded[n]));
        assert(recorded =~= recorded.drop_last().push(recorded[n]));
    }
}

/// Captures come back in the order they were recorded: if `states` are the
/// successive values of a player that starts with no captures, and each step
/// records the capture of the same place in `recorded`, the last state's
/// captures are exactly `recorded`.
pub proof fn lemma_captures_in_call_order(states: Seq<Player>, recorded: Seq<Piece>)
    requires
        states.len() == recorded.len() + 1,
        states[0].captured() == Seq::<Piece>::empty(),
        forall|i: int|
            0 <= i < recorded.len() ==> #[trigger] states[i + 1].captured() == states[i].captured().push(
                recorded[i],
            ),
    ensures
        states.last().captured() == recorded,
    decreases recorded.len(),
{
    if recorded.len() > 0 {
        let n = recorded.len() - 1;
        lemma_captures_in_call_order(states.drop_last(), recorded.drop_last());
        assert(states[n + 1].captured() == states[n].captured().push(recorded[n]));
        assert(recorded =~= recorded.drop_last().push(recorded[n]));
    }
}

} // verus!
