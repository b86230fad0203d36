use game_center::piece::{Piece, PieceColor, PieceType};
use game_center::player::Player;
use game_center::position::Position;

#[test]
fn new_player_has_no_history() {
    let p = Player::new();
    assert!(p.moves().is_empty());
    assert!(p.taken_pieces().is_empty());
}

#[test]
fn moves_come_back_in_call_order() {
    let mut p = Player::new();
    let pawn = Piece::new(PieceColor::White, PieceType::Pawn);
    let knight = Piece::new(PieceColor::White, PieceType::Knight);
    let e2 = Position::new(4, 1);
    let e4 = Position::new(4, 3);
    let g1 = Position::new(6, 0);
    let f3 = Position::new(5, 2);
    p.record_move(pawn, e2, e4);
    p.record_move(knight, g1, f3);
    p.record_move(pawn, e4, Position::new(4, 4));
    assert_eq!(
        p.moves(),
        &[(pawn, e2, e4), (knight, g1, f3), (pawn, e4, Position::new(4, 4))]
    );
    assert!(p.taken_pieces().is_empty());
}

#[test]
fn captures_come_back_in_call_order() {
    let mut p = Player::new();
    let rook = Piece::new(PieceColor::Black, PieceType::Rook);
    let pawn = Piece::new(PieceColor::Black, PieceType::Pawn);
    p.record_capture(pawn);
    p.record_capture(rook);
    p.record_capture(pawn);
    assert_eq!(p.taken_pieces(), &[pawn, rook, pawn]);
    assert!(p.moves().is_empty());
}
