use chess::board::position::Position;
use chess::color::Color;
use chess::error::Error;
use chess::game::movement::Movement;
use chess::game::Game;
use chess::piece::pieces::pawn::Pawn;
use chess::piece::pieces::queen::Queen;
use chess::piece::pieces::rook::Rook;
use chess::piece::Piece;

fn pos(file: u8, rank: u8) -> Position {
    Position::new(file, rank).unwrap()
}

fn mv(piece: Piece, from: Position, to: Position) -> Movement {
    Movement::new_move(piece, from, to, None).unwrap()
}

/// Lines both rooks up on rank 3 so each can legally reach e3:
/// 1.a4 b6 2.h4 d6 3.Ra3 f6 4.Rh3 g6.
fn game_with_two_rooks_on_rank_three() -> Game {
    let mut game = Game::new_classical();
    let white_pawn = Piece::Pawn(Pawn::new(Color::White));
    let black_pawn = Piece::Pawn(Pawn::new(Color::Black));
    let rook = Piece::Rook(Rook::new(Color::White));
    assert_eq!(game.play(mv(white_pawn, pos(1, 2), pos(1, 4))), Ok(()));
    assert_eq!(game.play(mv(black_pawn, pos(2, 7), pos(2, 6))), Ok(()));
    assert_eq!(game.play(mv(white_pawn, pos(8, 2), pos(8, 4))), Ok(()));
    assert_eq!(game.play(mv(black_pawn, pos(4, 7), pos(4, 6))), Ok(()));
    assert_eq!(game.play(mv(rook, pos(1, 1), pos(1, 3))), Ok(()));
    assert_eq!(game.play(mv(black_pawn, pos(6, 7), pos(6, 6))), Ok(()));
    assert_eq!(game.play(mv(rook, pos(8, 1), pos(8, 3))), Ok(()));
    assert_eq!(game.play(mv(black_pawn, pos(7, 7), pos(7, 6))), Ok(()));
    game
}

#[test]
fn ambiguous_without_disambiguator() {
    let game = game_with_two_rooks_on_rank_three();
    let rook = Piece::Rook(Rook::new(Color::White));
    let target = pos(5, 3);
    let r = game.board().get_position_by_movement(&game, &rook, &target, false, None, "Re3");
    assert_eq!(r, Err(Error::AmbiguousMove(pos(1, 3), pos(8, 3))));
}

#[test]
fn file_disambiguator_selects_origin() {
    let game = game_with_two_rooks_on_rank_three();
    let rook = Piece::Rook(Rook::new(Color::White));
    let target = pos(5, 3);
    let a = game.board().get_position_by_movement(&game, &rook, &target, false, Some('a'), "Rae3");
    assert_eq!(a, Ok(pos(1, 3)));
    let h = game.board().get_position_by_movement(&game, &rook, &target, false, Some('h'), "Rhe3");
    assert_eq!(h, Ok(pos(8, 3)));
}

#[test]
fn rank_disambiguator_can_stay_ambiguous() {
    // both rooks stand on rank 3, so the rank digit does not separate them
    let game = game_with_two_rooks_on_rank_three();
    let rook = Piece::Rook(Rook::new(Color::White));
    let target = pos(5, 3);
    let r = game.board().get_position_by_movement(&game, &rook, &target, false, Some('3'), "R3e3");
    assert_eq!(r, Err(Error::AmbiguousMove(pos(1, 3), pos(8, 3))));
}

#[test]
fn no_piece_found() {
    let game = Game::new_classical();
    let queen = Piece::Queen(Queen::new(Color::White));
    // no white queen can legally reach e3 from the starting position
    let r = game.board().get_position_by_movement(&game, &queen, &pos(5, 3), false, None, "Qe3");
    assert_eq!(r, Err(Error::NoPieceFound));
}

#[test]
fn legality_prunes_blocked_candidates() {
    // only the e2 pawn can reach e4: the path from e2 is clear, and no
    // other pawn's geometry lands there
    let game = Game::new_classical();
    let pawn = Piece::Pawn(Pawn::new(Color::White));
    let r = game.board().get_position_by_movement(&game, &pawn, &pos(5, 4), false, None, "e4");
    assert_eq!(r, Ok(pos(5, 2)));
}
