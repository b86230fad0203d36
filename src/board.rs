use vstd::prelude::*;
use crate::piece::{glyph, Piece, PieceColor, PieceType};
use crate::position::Position;

verus! {

/// The number of squares on the board.
pub const SQUARE_COUNT: usize = 64;

/// An 8 x 8 chess board: each square is empty or holds one piece.
/// The model stores pieces only; it enforces no rule of the game.
#[derive(Clone, Copy)]
pub struct Board {
    /// The squares, rank by rank from rank 1, file A to H within a rank.
    board: [Option<Piece>; SQUARE_COUNT],
}

/// The top border of the drawn board.
pub const TOP_BORDER: &'static str = "  ┌───┬───┬───┬───┬───┬───┬───┬───┐";

/// The border drawn between two ranks.
pub const RANK_SEPARATOR: &'static str = "  ├───┼───┼───┼───┼───┼───┼───┼───┤";

/// The bottom border of the drawn board.
pub const BOTTOM_BORDER: &'static str = "  └───┴───┴───┴───┴───┴───┴───┴───┘";

/// The line of file letters under the drawn board.
pub const FILE_LETTERS: &'static str = "    A   B   C   D   E   F   G   H  ";

/// The number of lines in the drawn board.
pub const ROW_COUNT: usize = 18;

/// The character that shows what a square holds: the piece's glyph, or a
/// space for an empty square.
pub open spec fn square_char(cell: Option<Piece>) -> char {
    match cell {
        Some(p) => glyph(p.color, p.variant),
        None => ' ',
    }
}

/// The digit that names rank index `rank`: '1' for 0 up to '8' for 7.
pub open spec fn rank_digit(rank: int) -> char {
    if rank == 0 {
        '1'
    } else if rank == 1 {
        '2'
    } else if rank == 2 {
        '3'
    } else if rank == 3 {
        '4'
    } else if rank == 4 {
        '5'
    } else if rank == 5 {
        '6'
    } else if rank == 6 {
        '7'
    } else {
        '8'
    }
}

/// The digit that names rank index `rank`, as text.
fn rank_label(rank: u8) -> (r: &'static str)
    requires
        rank < 8,
    ensures
        r@ == seq![rank_digit(rank as int)],
{
    match rank {
        0 => {
            proof { reveal_strlit("1"); }
            "1"
        },
        1 => {
            proof { reveal_strlit("2"); }
            "2"
        },
        2 => {
            proof { reveal_strlit("3"); }
            "3"
        },
        3 => {
            proof { reveal_strlit("4"); }
            "4"
        },
        4 => {
            proof { reveal_strlit("5"); }
            "5"
        },
        5 => {
            proof { reveal_strlit("6"); }
            "6"
        },
        6 => {
            proof { reveal_strlit("7"); }
            "7"
        },
        _ => {
            proof { reveal_strlit("8"); }
            "8"
        },
    }
}

/// The place of the square at `file`, `rank` in the stored order.
pub open spec fn square_index(file: int, rank: int) -> int {
    8 * rank + file
}

/// The kind of piece that starts on file `file` of a back rank.
pub open spec fn back_rank_kind(file: int) -> PieceType {
    if file == 0 || file == 7 {
        PieceType::Rook
    } else if file == 1 || file == 6 {
        PieceType::Knight
    } else if file == 2 || file == 5 {
        PieceType::Bishop
    } else if file == 3 {
        PieceType::Queen
    } else {
        PieceType::King
    }
}

/// What the square at `file`, `rank` holds when a game of chess begins.
pub open spec fn standard_square(file: int, rank: int) -> Option<Piece> {
    if rank == 0 {
        Some(Piece { color: PieceColor::White, variant: back_rank_kind(file) })
    } else if rank == 1 {
        Some(Piece { color: PieceColor::White, variant: PieceType::Pawn })
    } else if rank == 6 {
        Some(Piece { color: PieceColor::Black, variant: PieceType::Pawn })
    } else if rank == 7 {
        Some(Piece { color: PieceColor::Black, variant: back_rank_kind(file) })
    } else {
        None
    }
}

/// The kind of piece that starts on file `file` of a back rank.
fn back_rank_piece(file: u8) -> (r: PieceType)
    requires
        file < 8,
    ensures
        r == back_rank_kind(file as int),
{
    if file == 0 || file == 7 {
        PieceType::Rook
    } else if file == 1 || file == 6 {
        PieceType::Knight
    } else if file == 2 || file == 5 {
        PieceType::Bishop
    } else if file == 3 {
        PieceType::Queen
    } else {
        PieceType::King
    }
}

/// The color of the piece on a square, `None` for an empty square.
pub open spec fn color_of(cell: Option<Piece>) -> Option<PieceColor> {
    match cell {
        Some(p) => Some(p.color),
        None => None,
    }
}

impl Board {
    /// What the square at file index `file` and rank index `rank` holds.
    pub closed spec fn at(self, file: int, rank: int) -> Option<Piece> {
        self.board@[square_index(file, rank)]
    }

    /// What the square `p` holds.
    pub open spec fn square(self, p: Position) -> Option<Piece> {
        self.at(p.file() as int, p.rank() as int)
    }

    /// Every square is empty.
    pub open spec fn is_empty(self) -> bool {
        forall|f: int, r: int| 0 <= f < 8 && 0 <= r < 8 ==> #[trigger] self.at(f, r).is_none()
    }

    /// Every square holds what it holds when a game of chess begins.
    pub open spec fn is_standard_start(self) -> bool {
        forall|f: int, r: int|
            0 <= f < 8 && 0 <= r < 8 ==> #[trigger] self.at(f, r) == standard_square(f, r)
    }

    /// How many of the first `n` squares of rank `rank` hold a piece of color
    /// `c`, or are empty when `c` is `None`.
    pub open spec fn count_in_rank(self, c: Option<PieceColor>, rank: int, n: nat) -> nat
        decreases n,
    {
        if n == 0 {
            0
        } else {
            self.count_in_rank(c, rank, (n - 1) as nat) + (if color_of(self.at(n - 1, rank)) == c {
                1nat
            } else {
                0nat
            })
        }
    }

    /// How many squares of the first `n` ranks hold a piece of color `c`, or are
    /// empty when `c` is `None`.
    pub open spec fn count_in_ranks(self, c: Option<PieceColor>, n: nat) -> nat
        decreases n,
    {
        if n == 0 {
            0
        } else {
            self.count_in_ranks(c, (n - 1) as nat) + self.count_in_rank(c, n - 1, 8)
        }
    }

    /// How many squares of the board hold a piece of color `c`, or are empty
    /// when `c` is `None`.
    pub open spec fn count(self, c: Option<PieceColor>) -> nat {
        self.count_in_ranks(c, 8)
    }

    /// The drawn squares of the first `n` files of rank `rank`: for each, a
    /// space, the square's character, a space and a vertical bar.
    pub open spec fn rank_cells_text(self, rank: int, n: nat) -> Seq<char>
        decreases n,
    {
        if n == 0 {
            Seq::empty()
        } else {
            self.rank_cells_text(rank, (n - 1) as nat) + seq![' ', square_char(self.at(n - 1, rank)), ' ', '│']
        }
    }

    /// The drawn line of rank `rank`: its digit, a space, a vertical bar,
    /// then its eight squares from file A.
    pub open spec fn rank_text(self, rank: int) -> Seq<char> {
        seq![rank_digit(rank), ' ', '│'] + self.rank_cells_text(rank, 8)
    }

    /// An empty board.
    pub fn new() -> (r: Board)
        ensures
            r.is_empty(),
    {
        Board { board: [None; SQUARE_COUNT] }
    }

    /// A board set up as a game of chess begins: on each back rank rook, knight,
    /// bishop, queen, king, bishop, knight, rook from file A, and a row of pawns
    /// in front; White on ranks 1 and 2, Black on ranks 8 and 7.
    pub fn new_standard_start() -> (r: Board)
        ensures
            r.is_standard_start(),
    {
        let mut b = Board::new();
        let mut file: u8 = 0;
        while file < 8
            invariant
                file <= 8,
                forall|f: int, r: int|
                    0 <= f < file && 0 <= r < 8 ==> #[trigger] b.at(f, r) == standard_square(f, r),
                forall|f: int, r: int| file <= f < 8 && 0 <= r < 8 ==> #[trigger] b.at(f, r).is_none(),
            decreases 8 - file,
        {
            let kind = back_rank_piece(file);
            b.place(Position::new(file, 0), Piece::new(PieceColor::White, kind));
            b.place(Position::new(file, 1), Piece::new(PieceColor::White, PieceType::Pawn));
            b.place(Position::new(file, 6), Piece::new(PieceColor::Black, PieceType::Pawn));
            b.place(Position::new(file, 7), Piece::new(PieceColor::Black, kind));
            file = file + 1;
        }
        b
    }

    /// Every square with what it holds, rank 8 first down to rank 1, and
    /// within a rank file A first to file H.
    pub fn cells(&self) -> (r: Vec<(Position, Option<Piece>)>)
        ensures
            r@.len() == SQUARE_COUNT,
            forall|k: int, f: int|
                0 <= k < 8 && 0 <= f < 8 ==> {
                    let (p, cell) = #[trigger] r@[8 * k + f];
                    &&& p.file() == f
                    &&& p.rank() == 7 - k
                    &&& cell == self.at(f, 7 - k)
                },
    {
        let mut out: Vec<(Position, Option<Piece>)> = Vec::new();
        let mut row: u8 = 0;
        while row < 8
            invariant
                row <= 8,
                out@.len() == 8 * row,
                forall|k: int, f: int|
                    0 <= k < row && 0 <= f < 8 ==> {
                        let (p, cell) = #[trigger] out@[8 * k + f];
                        &&& p.file() == f
                        &&& p.rank() == 7 - k
                        &&& cell == self.at(f, 7 - k)
                    },
            decreases 8 - row,
        {
            let mut file: u8 = 0;
            while file < 8
                invariant
                    row < 8,
                    file <= 8,
                    out@.len() == 8 * row + file,
                    forall|k: int, f: int|
                        0 <= k <= row && 0 <= f < 8 && 8 * k + f < out@.len() ==> {
                            let (p, cell) = #[trigger] out@[8 * k + f];
                            &&& p.file() == f
                            &&& p.rank() == 7 - k
                            &&& cell == self.at(f, 7 - k)
                        },
                decreases 8 - file,
            {
                let pos = Position::new(file, 7 - row);
                out.push((pos, self.get(pos)));
                file = file + 1;
            }
            row = row + 1;
        }
        out
    }

    /// The drawn line of rank `rank`.
    fn rank_line(&self, rank: u8) -> (r: String)
        requires
            rank < 8,
        ensures
            r@ == self.rank_text(rank as int),
    {
        proof {
            reveal_strlit(" │");
            reveal_strlit(" ");
        }
        let mut line = String::from_str(rank_label(rank));
        line.append(" │");
        assert(line@ =~= seq![rank_digit(rank as int), ' ', '│'] + self.rank_cells_text(rank as int, 0));
        let mut file: u8 = 0;
        while file < 8
            invariant
                rank < 8,
                file <= 8,
                line@ == seq![rank_digit(rank as int), ' ', '│'] + self.rank_cells_text(rank as int, file as nat),
            decreases 8 - file,
        {
            proof {
                reveal_strlit(" │");
                reveal_strlit(" ");
            }
            let ghost before = line@;
            let cell = self.get(Position::new(file, rank));
            line.append(" ");
            match cell {
                Some(piece) => line.append(piece.as_str()),
                None => line.append(" "),
            }
            line.append(" │");
            assert(cell == self.at(file as int, rank as int));
            assert(line@ =~= before + seq![' ', square_char(cell), ' ', '│']);
            assert(line@ =~= seq![rank_digit(rank as int), ' ', '│'] + self.rank_cells_text(rank as int, (file + 1) as nat));
            file = file + 1;
        }
        line
    }

    /// The board drawn as lines of text: the top border, then each rank from
    /// 8 down to 1 with a separator between two ranks, the bottom border and
    /// the line of file letters.
    pub fn rows(&self) -> (r: Vec<String>)
        ensures
            r@.len() == ROW_COUNT,
            r@[0]@ == TOP_BORDER@,
            forall|k: int| 0 <= k < 8 ==> (#[trigger] r@[2 * k + 1])@ == self.rank_text(7 - k),
            forall|k: int| 1 <= k < 8 ==> (#[trigger] r@[2 * k])@ == RANK_SEPARATOR@,
            r@[16]@ == BOTTOM_BORDER@,
            r@[17]@ == FILE_LETTERS@,
    {
        let mut out: Vec<String> = Vec::new();
        out.push(String::from_str(TOP_BORDER));
        let mut k: u8 = 0;
        while k < 8
            invariant
                k <= 8,
                out@.len() == (if k == 0 { 1 } else { 2 * k }),
                out@[0]@ == TOP_BORDER@,
                forall|j: int| 0 <= j < k ==> (#[trigger] out@[2 * j + 1])@ == self.rank_text(7 - j),
                forall|j: int| 1 <= j < k ==> (#[trigger] out@[2 * j])@ == RANK_SEPARATOR@,
            decreases 8 - k,
        {
            if k > 0 {
                out.push(String::from_str(RANK_SEPARATOR));
            }
            out.push(self.rank_line(7 - k));
            k = k + 1;
        }
        out.push(String::from_str(BOTTOM_BORDER));
        out.push(String::from_str(FILE_LETTERS));
        out
    }

    /// The place of square `p` in the stored order.
    fn index_of(p: &Position) -> (r: usize)
        ensures
            r == square_index(p.file() as int, p.rank() as int),
            r < SQUARE_COUNT,
    {
        8 * (p.rank_index() as usize) + (p.file_index() as usize)
    }

    /// What the square `pos` holds.
    pub fn get(&self, pos: Position) -> (r: Option<Piece>)
        ensures
            r == self.square(pos),
    {
        self.board[Board::index_of(&pos)]
    }

    /// Puts `piece` on the square `pos`, replacing what was there.
    pub fn place(&mut self, pos: Position, piece: Piece)
        ensures
            forall|f: int, r: int| 0 <= f < 8 && 0 <= r < 8 ==> #[trigger] final(self).at(f, r) == (
                if f == pos.file() && r == pos.rank() {
                    Some(piece)
                } else {
                    old(self).at(f, r)
                }),
    {
        let i = Board::index_of(&pos);
        self.board[i] = Some(piece);
    }

    /// Empties the square `pos`.
    pub fn clear(&mut self, pos: Position)
        ensures
            forall|f: int, r: int| 0 <= f < 8 && 0 <= r < 8 ==> #[trigger] final(self).at(f, r) == (
                if f == pos.file() && r == pos.rank() {
                    None
                } else {
                    old(self).at(f, r)
                }),
    {
        let i = Board::index_of(&pos);
        self.board[i] = None;
    }
}

/// The color of every square of rank `rank` when a game of chess begins:
/// `None` for the four middle ranks, which start empty.
pub open spec fn start_rank_color(rank: int) -> Option<PieceColor> {
    if rank <= 1 {
        Some(PieceColor::White)
    } else if rank >= 6 {
        Some(PieceColor::Black)
    } else {
        None
    }
}

/// On a board set up as a game of chess begins, the first `n` squares of a
/// rank all count for that rank's color and none count for another value.
proof fn lemma_start_rank_counts(b: Board, rank: int, n: nat)
    requires
        b.is_standard_start(),
        0 <= rank < 8,
        n <= 8,
    ensures
        b.count_in_rank(start_rank_color(rank), rank, n) == n,
        forall|d: Option<PieceColor>|
            d != start_rank_color(rank) ==> #[trigger] b.count_in_rank(d, rank, n) == 0,
    decreases n,
{
    if n > 0 {
        lemma_start_rank_counts(b, rank, (n - 1) as nat);
        assert(b.at(n - 1, rank) == standard_square(n - 1, rank));
        assert forall|d: Option<PieceColor>| d != start_rank_color(rank) implies #[trigger] b.count_in_rank(
            d,
            rank,
            n,
        ) == 0 by {
            assert(b.count_in_rank(d, rank, (n - 1) as nat) == 0);
        }
    }
}

/// A board set up as a game of chess begins has 16 pieces of each color and
/// 32 empty squares, with each queen on file D and each king on file E of
/// its own back rank.
pub proof fn lemma_standard_start_layout(b: Board)
    requires
        b.is_standard_start(),
    ensures
        b.count(Some(PieceColor::White)) == 16,
        b.count(Some(PieceColor::Black)) == 16,
        b.count(None) == 32,
        b.at(3, 0) == Some(Piece { color: PieceColor::White, variant: PieceType::Queen }),
        b.at(4, 0) == Some(Piece { color: PieceColor::White, variant: PieceType::King }),
        b.at(3, 7) == Some(Piece { color: PieceColor::Black, variant: PieceType::Queen }),
        b.at(4, 7) == Some(Piece { color: PieceColor::Black, variant: PieceType::King }),
{
    lemma_start_rank_counts(b, 0, 8);
    lemma_start_rank_counts(b, 1, 8);
    lemma_start_rank_counts(b, 2, 8);
    lemma_start_rank_counts(b, 3, 8);
    lemma_start_rank_counts(b, 4, 8);
    lemma_start_rank_counts(b, 5, 8);
    lemma_start_rank_counts(b, 6, 8);
    lemma_start_rank_counts(b, 7, 8);
    reveal_with_fuel(Board::count_in_ranks, 9);
    assert(b.at(3, 0) == standard_square(3, 0));
    assert(b.at(4, 0) == standard_square(4, 0));
    assert(b.at(3, 7) == standard_square(3, 7));
    assert(b.at(4, 7) == standard_square(4, 7));
}

} // verus!
