use vstd::prelude::*;

verus! {

/// The side a piece belongs to.
#[derive(Debug, Clone, Copy, PartialEq, Eq, Structural)]
pub enum PieceColor {
    White,
    Black,
}

/// The kind of a chess piece.
#[derive(Debug, Clone, Copy, PartialEq, Eq, Structural)]
pub enum PieceType {
    Pawn,
    Bishop,
    Knight,
    Rook,
    Queen,
    King,
}

/// A chess piece: a color and a kind, with no identity beyond that pair.
#[derive(Debug, Clone, Copy, PartialEq, Eq, Structural)]
pub struct Piece {
    pub color: PieceColor,
    pub variant: PieceType,
}

/// The glyph that shows a piece of the given color and kind.
pub open spec fn glyph(color: PieceColor, variant: PieceType) -> char {
    match color {
        PieceColor::White => match variant {
            PieceType::Pawn => '♟',
            PieceType::Bishop => '♝',
            PieceType::Knight => '♞',
            PieceType::Rook => '♜',
            PieceType::Queen => '♛',
            PieceType::King => '♚',
        },
        PieceColor::Black => match variant {
            PieceType::Pawn => '♙',
            PieceType::Bishop => '♗',
            PieceType::Knight => '♘',
            PieceType::Rook => '♖',
            PieceType::Queen => '♕',
            PieceType::King => '♔',
        },
    }
}

impl Piece {
    pub fn new(color: PieceColor, variant: PieceType) -> (r: Piece)
        ensures
            r.color == color,
            r.variant == variant,
    {
        Piece { color, variant }
    }

    /// The one-character glyph that shows this piece.
    pub fn as_str(&self) -> (r: &'static str)
        ensures
            r@ == seq![glyph(self.color, self.variant)],
    {
        match self.color {
            PieceColor::White => match self.variant {
                PieceType::Pawn => {
                    proof { reveal_strlit("♟"); }
                    "♟"
                },
                PieceType::Bishop => {
                    proof { reveal_strlit("♝"); }
                    "♝"
                },
                PieceType::Knight => {
                    proof { reveal_strlit("♞"); }
                    "♞"
                },
                PieceType::Rook => {
                    proof { reveal_strlit("♜"); }
                    "♜"
                },
                PieceType::Queen => {
                    proof { reveal_strlit("♛"); }
                    "♛"
                },
                PieceType::King => {
                    proof { reveal_strlit("♚"); }
                    "♚"
                },
            },
            PieceColor::Black => match self.variant {
                PieceType::Pawn => {
                    proof { reveal_strlit("♙"); }
                    "♙"
                },
                PieceType::Bishop => {
                    proof { reveal_strlit("♗"); }
                    "♗"
                },
                PieceType::Knight => {
                    proof { reveal_strlit("♘"); }
                    "♘"
                },
                PieceType::Rook => {
                    proof { reveal_strlit("♖"); }
                    "♖"
                },
                PieceType::Queen => {
                    proof { reveal_strlit("♕"); }
                    "♕"
                },
                PieceType::King => {
                    proof { reveal_strlit("♔"); }
                    "♔"
                },
            },
        }
    }
}

} // verus!
