use vstd::prelude::*;

verus! {

/// A file (column) of the board, A to H from White's left.
#[derive(Debug, Clone, Copy, PartialEq, Eq, Structural)]
pub enum ChessLetter {
    A,
    B,
    C,
    D,
    E,
    F,
    G,
    H,
}

/// A rank (row) of the board, One to Eight from White's side.
#[derive(Debug, Clone, Copy, PartialEq, Eq, Structural)]
pub enum ChessNumber {
    One,
    Two,
    Three,
    Four,
    Five,
    Six,
    Seven,
    Eight,
}

impl ChessLetter {
    /// The index of this file, 0 for A up to 7 for H.
    pub open spec fn index(self) -> nat {
        match self {
            ChessLetter::A => 0,
            ChessLetter::B => 1,
            ChessLetter::C => 2,
            ChessLetter::D => 3,
            ChessLetter::E => 4,
            ChessLetter::F => 5,
            ChessLetter::G => 6,
            ChessLetter::H => 7,
        }
    }

    /// The file with the given index; the index must lie in 0..=7.
    pub fn from_index(value: u8) -> (r: ChessLetter)
        requires
            value < 8,
        ensures
            r.index() == value,
    {
        match value {
            0 => ChessLetter::A,
            1 => ChessLetter::B,
            2 => ChessLetter::C,
            3 => ChessLetter::D,
            4 => ChessLetter::E,
            5 => ChessLetter::F,
            6 => ChessLetter::G,
            _ => ChessLetter::H,
        }
    }

    /// The index of this file, 0 for A up to 7 for H.
    pub fn to_index(&self) -> (r: u8)
        ensures
            r == self.index(),
    {
        match self {
            ChessLetter::A => 0,
            ChessLetter::B => 1,
            ChessLetter::C => 2,
            ChessLetter::D => 3,
            ChessLetter::E => 4,
            ChessLetter::F => 5,
            ChessLetter::G => 6,
            ChessLetter::H => 7,
        }
    }
}

impl ChessNumber {
    /// The index of this rank, 0 for One up to 7 for Eight.
    pub open spec fn index(self) -> nat {
        match self {
            ChessNumber::One => 0,
            ChessNumber::Two => 1,
            ChessNumber::Three => 2,
            ChessNumber::Four => 3,
            ChessNumber::Five => 4,
            ChessNumber::Six => 5,
            ChessNumber::Seven => 6,
            ChessNumber::Eight => 7,
        }
    }

    /// The rank with the given index; the index must lie in 0..=7.
    pub fn from_index(value: u8) -> (r: ChessNumber)
        requires
            value < 8,
        ensures
            r.index() == value,
    {
        match value {
            0 => ChessNumber::One,
            1 => ChessNumber::Two,
            2 => ChessNumber::Three,
            3 => ChessNumber::Four,
            4 => ChessNumber::Five,
            5 => ChessNumber::Six,
            6 => ChessNumber::Seven,
            _ => ChessNumber::Eight,
        }
    }

    /// The index of this rank, 0 for One up to 7 for Eight.
    pub fn to_index(&self) -> (r: u8)
        ensures
            r == self.index(),
    {
        match self {
            ChessNumber::One => 0,
            ChessNumber::Two => 1,
            ChessNumber::Three => 2,
            ChessNumber::Four => 3,
            ChessNumber::Five => 4,
            ChessNumber::Six => 5,
            ChessNumber::Seven => 6,
            ChessNumber::Eight => 7,
        }
    }
}

/// A square of the board: a file and a rank.
#[derive(Debug, Clone, Copy, PartialEq, Eq, Structural)]
pub struct Position {
    pub letter: ChessLetter,
    pub number: ChessNumber,
}

impl Position {
    /// The index of the file, 0 to 7.
    pub open spec fn file(self) -> nat {
        self.letter.index()
    }

    /// The index of the rank, 0 to 7.
    pub open spec fn rank(self) -> nat {
        self.number.index()
    }

    /// The square at file index `letter` and rank index `number`, both in 0..=7.
    /// Other values are a caller's error, ruled out by the precondition.
    pub fn new(letter: u8, number: u8) -> (r: Position)
        requires
            letter < 8,
            number < 8,
        ensures
            r.file() == letter,
            r.rank() == number,
    {
        Position { letter: ChessLetter::from_index(letter), number: ChessNumber::from_index(number) }
    }

    /// Decodes a file index and a rank index, both in 0..=7, into a square.
    pub fn from_index(file: u8, rank: u8) -> (r: Position)
        requires
            file < 8,
            rank < 8,
        ensures
            r.file() == file,
            r.rank() == rank,
    {
        Position::new(file, rank)
    }

    /// The index of the file, 0 to 7.
    pub fn file_index(&self) -> (r: u8)
        ensures
            r == self.file(),
    {
        self.letter.to_index()
    }

    /// The index of the rank, 0 to 7.
    pub fn rank_index(&self) -> (r: u8)
        ensures
            r == self.rank(),
    {
        self.number.to_index()
    }
}

} // verus!
