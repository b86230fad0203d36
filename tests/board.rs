use game_center::board::Board;
use game_center::piece::{Piece, PieceColor, PieceType};
use game_center::position::Position;

#[test]
fn empty_board_has_no_pieces() {
    let board = Board::new();
    for f in 0..8u8 {
        for r in 0..8u8 {
            assert_eq!(board.get(Position::new(f, r)), None);
        }
    }
}

#[test]
fn standard_start_counts_and_royals() {
    let board = Board::new_standard_start();
    let cells = board.cells();
    let white = cells
        .iter()
        .filter(|(_, c)| matches!(c, Some(p) if p.color == PieceColor::White))
        .count();
    let black = cells
        .iter()
        .filter(|(_, c)| matches!(c, Some(p) if p.color == PieceColor::Black))
        .count();
    let empty = cells.iter().filter(|(_, c)| c.is_none()).count();
    assert_eq!(white, 16);
    assert_eq!(black, 16);
    assert_eq!(empty, 32);
    assert_eq!(
        board.get(Position::new(3, 0)),
        Some(Piece::new(PieceColor::White, PieceType::Queen))
    );
    assert_eq!(
        board.get(Position::new(4, 0)),
        Some(Piece::new(PieceColor::White, PieceType::King))
    );
    assert_eq!(
        board.get(Position::new(3, 7)),
        Some(Piece::new(PieceColor::Black, PieceType::Queen))
    );
    assert_eq!(
        board.get(Position::new(4, 7)),
        Some(Piece::new(PieceColor::Black, PieceType::King))
    );
}

#[test]
fn standard_start_back_ranks_and_pawns() {
    let board = Board::new_standard_start();
    let back = [
        PieceType::Rook,
        PieceType::Knight,
        PieceType::Bishop,
        PieceType::Queen,
        PieceType::King,
        PieceType::Bishop,
        PieceType::Knight,
        PieceType::Rook,
    ];
    for f in 0..8u8 {
        let kind = back[f as usize];
        assert_eq!(board.get(Position::new(f, 0)), Some(Piece::new(PieceColor::White, kind)));
        assert_eq!(
            board.get(Position::new(f, 1)),
            Some(Piece::new(PieceColor::White, PieceType::Pawn))
        );
        assert_eq!(
            board.get(Position::new(f, 6)),
            Some(Piece::new(PieceColor::Black, PieceType::Pawn))
        );
        assert_eq!(board.get(Position::new(f, 7)), Some(Piece::new(PieceColor::Black, kind)));
        for r in 2..6u8 {
            assert_eq!(board.get(Position::new(f, r)), None);
        }
    }
}

#[test]
fn place_and_clear_touch_one_square() {
    let mut board = Board::new();
    let e4 = Position::new(4, 3);
    let rook = Piece::new(PieceColor::Black, PieceType::Rook);
    board.place(e4, rook);
    assert_eq!(board.get(e4), Some(rook));
    assert_eq!(board.get(Position::new(3, 4)), None);
    let queen = Piece::new(PieceColor::White, PieceType::Queen);
    board.place(e4, queen);
    assert_eq!(board.get(e4), Some(queen));
    board.clear(e4);
    assert_eq!(board.get(e4), None);
    for f in 0..8u8 {
        for r in 0..8u8 {
            assert_eq!(board.get(Position::new(f, r)), None);
        }
    }
}

#[test]
fn cells_run_from_rank_eight_file_a() {
    let mut board = Board::new();
    let knight = Piece::new(PieceColor::White, PieceType::Knight);
    board.place(Position::new(1, 7), knight);
    let cells = board.cells();
    assert_eq!(cells.len(), 64);
    assert_eq!(cells[0].0, Position::new(0, 7));
    assert_eq!(cells[1], (Position::new(1, 7), Some(knight)));
    assert_eq!(cells[7].0, Position::new(7, 7));
    assert_eq!(cells[8].0, Position::new(0, 6));
    assert_eq!(cells[63].0, Position::new(7, 0));
    assert_eq!(cells.iter().filter(|(_, c)| c.is_some()).count(), 1);
}

#[test]
fn rows_draw_the_standard_start() {
    let rows = Board::new_standard_start().rows();
    let expected = vec![
        "  ┌───┬───┬───┬───┬───┬───┬───┬───┐",
        "8 │ ♖ │ ♘ │ ♗ │ ♕ │ ♔ │ ♗ │ ♘ │ ♖ │",
        "  ├───┼───┼───┼───┼───┼───┼───┼───┤",
        "7 │ ♙ │ ♙ │ ♙ │ ♙ │ ♙ │ ♙ │ ♙ │ ♙ │",
        "  ├───┼───┼───┼───┼───┼───┼───┼───┤",
        "6 │   │   │   │   │   │   │   │   │",
        "  ├───┼───┼───┼───┼───┼───┼───┼───┤",
        "5 │   │   │   │   │   │   │   │   │",
        "  ├───┼───┼───┼───┼───┼───┼───┼───┤",
        "4 │   │   │   │   │   │   │   │   │",
        "  ├───┼───┼───┼───┼───┼───┼───┼───┤",
        "3 │   │   │   │   │   │   │   │   │",
        "  ├───┼───┼───┼───┼───┼───┼───┼───┤",
        "2 │ ♟ │ ♟ │ ♟ │ ♟ │ ♟ │ ♟ │ ♟ │ ♟ │",
        "  ├───┼───┼───┼───┼───┼───┼───┼───┤",
        "1 │ ♜ │ ♞ │ ♝ │ ♛ │ ♚ │ ♝ │ ♞ │ ♜ │",
        "  └───┴───┴───┴───┴───┴───┴───┴───┘",
        "    A   B   C   D   E   F   G   H  ",
    ];
    assert_eq!(rows, expected);
}

#[test]
fn rows_draw_a_placed_piece() {
    let mut board = Board::new();
    board.place(Position::new(4, 3), Piece::new(PieceColor::White, PieceType::Pawn));
    let rows = board.rows();
    assert_eq!(rows.len(), 18);
    assert_eq!(rows[9], "4 │   │   │   │   │ ♟ │   │   │   │");
    assert_eq!(rows[1], "8 │   │   │   │   │   │   │   │   │");
}

#[test]
fn copy_keeps_every_square() {
    let board = Board::new_standard_start();
    let copy = board;
    assert_eq!(copy.cells(), board.cells());
}
