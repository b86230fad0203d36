use game_center::piece::{Piece, PieceColor, PieceType};

#[test]
fn glyphs_of_each_piece() {
    let kinds = [
        PieceType::Pawn,
        PieceType::Bishop,
        PieceType::Knight,
        PieceType::Rook,
        PieceType::Queen,
        PieceType::King,
    ];
    let white = ["♟", "♝", "♞", "♜", "♛", "♚"];
    let black = ["♙", "♗", "♘", "♖", "♕", "♔"];
    for i in 0..6 {
        assert_eq!(Piece::new(PieceColor::White, kinds[i]).as_str(), white[i]);
        assert_eq!(Piece::new(PieceColor::Black, kinds[i]).as_str(), black[i]);
    }
}

#[test]
fn piece_keeps_color_and_kind() {
    let p = Piece::new(PieceColor::Black, PieceType::Knight);
    assert_eq!(p.color, PieceColor::Black);
    assert_eq!(p.variant, PieceType::Knight);
}
