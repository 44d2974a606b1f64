use chess::board::position::Position;
use chess::board::relative_position::RelativePosition;
use chess::board::Board;
use chess::color::Color;
use chess::error::Error;
use chess::piece::piece_factory;
use chess::piece::pieces::bishop::Bishop;
use chess::piece::pieces::king::King;
use chess::piece::pieces::knight::Knight;
use chess::piece::pieces::pawn::Pawn;
use chess::piece::pieces::queen::Queen;
use chess::piece::pieces::rook::Rook;
use chess::piece::Piece;

fn rp(file: i8, rank: i8) -> RelativePosition {
    RelativePosition::new(file, rank).unwrap()
}

#[test]
fn prefixes() {
    assert_eq!(Pawn::prefix(), 'P');
    assert_eq!(Knight::prefix(), 'N');
    assert_eq!(Bishop::prefix(), 'B');
    assert_eq!(Rook::prefix(), 'R');
    assert_eq!(Queen::prefix(), 'Q');
    assert_eq!(King::prefix(), 'K');
    assert_eq!(Piece::Rook(Rook::new(Color::White)).prefix(), 'R');
}

#[test]
fn icons() {
    assert_eq!(Pawn::icon(), '\u{265F}');
    assert_eq!(Knight::icon(), '\u{265E}');
    assert_eq!(Bishop::icon(), '\u{265D}');
    assert_eq!(Rook::icon(), '\u{265C}');
    assert_eq!(Queen::icon(), '\u{265B}');
    assert_eq!(King::icon(), '\u{265A}');
    assert_eq!(Piece::Pawn(Pawn::new(Color::White)).icon(), '\u{265F}');
}

#[test]
fn values_and_names() {
    assert_eq!(Piece::Pawn(Pawn::new(Color::White)).value(), 1);
    assert_eq!(Piece::Knight(Knight::new(Color::White)).value(), 3);
    assert_eq!(Piece::Bishop(Bishop::new(Color::White)).value(), 3);
    assert_eq!(Piece::Rook(Rook::new(Color::White)).value(), 5);
    assert_eq!(Piece::Queen(Queen::new(Color::White)).value(), 9);
    assert_eq!(Piece::King(King::new(Color::White)).value(), 0);
    assert_eq!(Piece::Queen(Queen::new(Color::Black)).name(), "Queen");
    assert_eq!(Piece::Queen(Queen::new(Color::Black)).color(), Color::Black);
}

#[test]
fn factory_builds_each_kind() {
    assert_eq!(piece_factory('P', Color::White), Some(Piece::Pawn(Pawn::new(Color::White))));
    assert_eq!(piece_factory('N', Color::Black), Some(Piece::Knight(Knight::new(Color::Black))));
    assert_eq!(piece_factory('B', Color::White), Some(Piece::Bishop(Bishop::new(Color::White))));
    assert_eq!(piece_factory('R', Color::Black), Some(Piece::Rook(Rook::new(Color::Black))));
    assert_eq!(piece_factory('Q', Color::White), Some(Piece::Queen(Queen::new(Color::White))));
    assert_eq!(piece_factory('K', Color::Black), Some(Piece::King(King::new(Color::Black))));
    assert_eq!(piece_factory('Z', Color::White), None);
    assert_eq!(piece_factory('p', Color::White), None);
}

#[test]
fn rook_geometry() {
    let rook = Rook::new(Color::White);
    assert!(rook.is_valid_move(&rp(0, 5)));
    assert!(rook.is_valid_move(&rp(-7, 0)));
    assert!(!rook.is_valid_move(&rp(1, 1)));
    assert!(!rook.is_valid_move(&rp(0, 0)));
    assert_eq!(rook.possible_moves().len(), 28);
}

#[test]
fn bishop_geometry() {
    let bishop = Bishop::new(Color::White);
    assert!(bishop.is_valid_move(&rp(3, 3)));
    assert!(bishop.is_valid_move(&rp(-4, 4)));
    assert!(!bishop.is_valid_move(&rp(3, 2)));
    assert!(!bishop.is_valid_move(&rp(0, 0)));
    assert_eq!(bishop.possible_moves().len(), 28);
}

#[test]
fn queen_geometry() {
    let queen = Queen::new(Color::Black);
    assert!(queen.is_valid_move(&rp(0, 6)));
    assert!(queen.is_valid_move(&rp(-5, -5)));
    assert!(!queen.is_valid_move(&rp(2, 1)));
    assert_eq!(queen.possible_moves().len(), 56);
}

#[test]
fn knight_geometry() {
    let knight = Knight::new(Color::White);
    assert!(knight.is_valid_move(&rp(2, 1)));
    assert!(knight.is_valid_move(&rp(-1, 2)));
    assert!(!knight.is_valid_move(&rp(2, 2)));
    assert!(!knight.is_valid_move(&rp(1, 0)));
    assert_eq!(knight.possible_moves().len(), 8);
}

#[test]
fn king_geometry() {
    let king = King::new(Color::White);
    assert!(king.is_valid_move(&rp(1, 1)));
    assert!(king.is_valid_move(&rp(-1, 0)));
    assert!(king.is_valid_move(&rp(-1, -1)));
    assert!(king.is_valid_move(&rp(0, -1)));
    assert!(!king.is_valid_move(&rp(0, 2)));
    assert!(!king.is_valid_move(&rp(2, 2)));
    assert_eq!(king.possible_moves().len(), 8);
}

#[test]
fn pawn_geometry_by_color() {
    let white = Pawn::new(Color::White);
    assert!(white.is_valid_move(&rp(0, 1)));
    assert!(white.is_valid_move(&rp(0, 2)));
    assert!(!white.is_valid_move(&rp(0, -1)));
    assert!(!white.is_valid_move(&rp(0, 3)));
    assert!(!white.is_valid_move(&rp(1, 1)));
    assert!(white.is_valid_capture(&rp(1, 1)));
    assert!(white.is_valid_capture(&rp(-1, 1)));
    assert!(!white.is_valid_capture(&rp(0, 1)));
    assert!(!white.is_valid_capture(&rp(1, -1)));

    let black = Pawn::new(Color::Black);
    assert!(black.is_valid_move(&rp(0, -1)));
    assert!(black.is_valid_move(&rp(0, -2)));
    assert!(!black.is_valid_move(&rp(0, 1)));
    assert!(black.is_valid_capture(&rp(1, -1)));
    assert!(black.is_valid_capture(&rp(-1, -1)));
    assert!(!black.is_valid_capture(&rp(-1, 1)));

    assert_eq!(white.possible_moves().len(), 2);
    assert_eq!(white.possible_captures().len(), 2);
    assert_eq!(white.rank_multiplier(), 1);
    assert_eq!(black.rank_multiplier(), -1);
}

#[test]
fn pawn_plays_include_captures() {
    let white = Pawn::new(Color::White);
    let plays = white.possible_plays();
    assert_eq!(plays.len(), 4);
    assert!(plays.contains(&rp(0, 1)));
    assert!(plays.contains(&rp(0, 2)));
    assert!(plays.contains(&rp(1, 1)));
    assert!(plays.contains(&rp(-1, 1)));

    let black = Piece::Pawn(Pawn::new(Color::Black));
    let plays = black.possible_plays();
    assert_eq!(plays.len(), 4);
    assert!(plays.contains(&rp(-1, -1)));
}

#[test]
fn pawn_double_move() {
    assert!(Pawn::is_double_move(&rp(0, 2)));
    assert!(Pawn::is_double_move(&rp(0, -2)));
    assert!(!Pawn::is_double_move(&rp(0, 1)));
    assert!(!Pawn::is_double_move(&rp(0, -1)));
}

#[test]
fn will_colide_reports_first_blocker() {
    let board = Board::new_classical();
    let rook = Piece::Rook(Rook::new(Color::White));
    let a1 = Position::new(1, 1).unwrap();
    let a4 = Position::new(1, 4).unwrap();
    let a2 = Position::new(1, 2).unwrap();
    let blocker = Piece::Pawn(Pawn::new(Color::White));
    assert_eq!(
        rook.will_colide(&board, &a1, &a4),
        Err(Error::PathObstructed(blocker, a2, a1, a4))
    );
}

#[test]
fn will_colide_clear_paths() {
    let board = Board::new_classical();
    let knight = Piece::Knight(Knight::new(Color::White));
    let b1 = Position::new(2, 1).unwrap();
    let c3 = Position::new(3, 3).unwrap();
    // a knight's jump is neither linear nor diagonal: nothing to check
    assert_eq!(knight.will_colide(&board, &b1, &c3), Ok(()));

    let pawn = Piece::Pawn(Pawn::new(Color::White));
    let e2 = Position::new(5, 2).unwrap();
    let e4 = Position::new(5, 4).unwrap();
    // the interior square e3 is empty
    assert_eq!(pawn.will_colide(&board, &e2, &e4), Ok(()));
}

#[test]
fn will_colide_diagonal_blocker() {
    let board = Board::new_classical();
    let bishop = Piece::Bishop(Bishop::new(Color::White));
    let c1 = Position::new(3, 1).unwrap();
    let e3 = Position::new(5, 3).unwrap();
    let d2 = Position::new(4, 2).unwrap();
    let blocker = Piece::Pawn(Pawn::new(Color::White));
    assert_eq!(
        bishop.will_colide(&board, &c1, &e3),
        Err(Error::PathObstructed(blocker, d2, c1, e3))
    );
}
