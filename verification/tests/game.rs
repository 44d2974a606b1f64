use chess::board::position::Position;
use chess::color::Color;
use chess::error::Error;
use chess::game::castle_rights::CastleRights;
use chess::game::movement::Movement;
use chess::game::Game;
use chess::piece::pieces::bishop::Bishop;
use chess::piece::pieces::king::King;
use chess::piece::pieces::knight::Knight;
use chess::piece::pieces::pawn::Pawn;
use chess::piece::pieces::queen::Queen;
use chess::piece::pieces::rook::Rook;
use chess::piece::Piece;

fn pos(file: u8, rank: u8) -> Position {
    Position::new(file, rank).unwrap()
}

fn mv(piece: Piece, from: Position, to: Position) -> Movement {
    match Movement::new_move(piece, from, to, None) {
        Some(movement) => movement,
        None => panic!("Invalid movement"),
    }
}

fn white_pawn() -> Piece {
    Piece::Pawn(Pawn::new(Color::White))
}

fn black_pawn() -> Piece {
    Piece::Pawn(Pawn::new(Color::Black))
}

#[test]
fn can_play() {
    let mut game = Game::new_classical();

    let movement = match Movement::new_move(
        Piece::Pawn(Pawn::new(Color::White)),
        Position::new(1, 2).unwrap(),
        Position::new(1, 3).unwrap(),
        None,
    ) {
        Some(movement) => movement,
        None => panic!("Invalid movement"),
    };

    let result = game.play(movement);

    assert_eq!(result, Ok(()));
}

#[test]
fn cannot_castle_through_pieces_play() {
    let mut game = Game::new_classical();

    let movement = Movement::CastleKingSide(Piece::King(King::new(Color::White)));

    let result = game.play(movement);

    assert!(result.is_err());
    assert_eq!(game.board().get_castle_rights(&Color::White), CastleRights::Both);
}

#[test]
fn can_en_passante() {
    let mut game = Game::new_classical();

    let m1 = match Movement::new_move(
        Piece::Pawn(Pawn::new(Color::White)),
        Position::new(4, 2).unwrap(),
        Position::new(4, 4).unwrap(),
        None,
    ) {
        Some(movement) => movement,
        None => panic!("Invalid movement"),
    };

    let m2 = match Movement::new_move(
        Piece::Pawn(Pawn::new(Color::Black)),
        Position::new(5, 7).unwrap(),
        Position::new(5, 5).unwrap(),
        None,
    ) {
        Some(movement) => movement,
        None => panic!("Invalid movement"),
    };

    let m3 = match Movement::new_move(
        Piece::Pawn(Pawn::new(Color::White)),
        Position::new(4, 4).unwrap(),
        Position::new(4, 5).unwrap(),
        None,
    ) {
        Some(movement) => movement,
        None => panic!("Invalid movement"),
    };

    let m4 = match Movement::new_move(
        Piece::Pawn(Pawn::new(Color::Black)),
        Position::new(3, 7).unwrap(),
        Position::new(3, 5).unwrap(),
        None,
    ) {
        Some(movement) => movement,
        None => panic!("Invalid movement"),
    };

    let m5 = match Movement::new_capture(
        Piece::Pawn(Pawn::new(Color::White)),
        Position::new(4, 5).unwrap(),
        Position::new(3, 6).unwrap(),
        None,
    ) {
        Some(movement) => movement,
        None => panic!("Invalid movement"),
    };

    let result = game.play(m1);
    assert_eq!(result, Ok(()));
    let result = game.play(m2);
    assert_eq!(result, Ok(()));
    let result = game.play(m3);
    assert_eq!(result, Ok(()));
    let result = game.play(m4);
    assert_eq!(result, Ok(()));
    let result = game.play(m5);
    assert_eq!(result, Ok(()));
}

#[test]
fn en_passant_board_state() {
    // From the initial position: White d2-d4, Black e7-e5, White d4-d5,
    // Black c7-c5, then White d5xc6 in passing.  The bypassed pawn on c5
    // disappears and the white pawn stands on c6, a square no piece ever
    // physically occupied before.
    let mut game = Game::new_classical();
    assert_eq!(game.play(mv(white_pawn(), pos(4, 2), pos(4, 4))), Ok(()));
    assert_eq!(game.play(mv(black_pawn(), pos(5, 7), pos(5, 5))), Ok(()));
    assert_eq!(game.play(mv(white_pawn(), pos(4, 4), pos(4, 5))), Ok(()));
    assert_eq!(game.play(mv(black_pawn(), pos(3, 7), pos(3, 5))), Ok(()));
    let capture = Movement::new_capture(white_pawn(), pos(4, 5), pos(3, 6), None).unwrap();
    assert_eq!(game.play(capture), Ok(()));

    assert_eq!(game.board().get_piece_at(&pos(3, 5)), None);
    assert_eq!(game.board().get_piece_at(&pos(3, 6)), Some(white_pawn()));
    assert_eq!(game.board().get_piece_at(&pos(4, 5)), None);
}

#[test]
fn failed_play_is_atomic() {
    let mut game = Game::new_classical();
    assert_eq!(game.play(mv(white_pawn(), pos(5, 2), pos(5, 4))), Ok(()));

    // snapshot the observable state
    let mut layout_before = Vec::new();
    for file in 1u8..=8 {
        for rank in 1u8..=8 {
            layout_before.push(game.board().get_piece_at(&pos(file, rank)));
        }
    }
    let white_rights = game.board().get_castle_rights(&Color::White);
    let black_rights = game.board().get_castle_rights(&Color::Black);
    let log_len = game.movements.len();
    let turn = game.turn;

    // a geometrically invalid pawn move must fail
    let bad = mv(black_pawn(), pos(1, 7), pos(1, 4));
    assert_eq!(game.play(bad), Err(Error::InvalidGeometry));

    let mut layout_after = Vec::new();
    for file in 1u8..=8 {
        for rank in 1u8..=8 {
            layout_after.push(game.board().get_piece_at(&pos(file, rank)));
        }
    }
    assert_eq!(layout_before, layout_after);
    assert_eq!(game.board().get_castle_rights(&Color::White), white_rights);
    assert_eq!(game.board().get_castle_rights(&Color::Black), black_rights);
    assert_eq!(game.movements.len(), log_len);
    assert_eq!(game.turn, turn);
}

#[test]
fn turn_alternates_with_each_play() {
    let mut game = Game::new_classical();
    assert_eq!(game.turn, Color::White);
    assert_eq!(game.play(mv(white_pawn(), pos(5, 2), pos(5, 4))), Ok(()));
    assert_eq!(game.turn, Color::Black);
    assert_eq!(game.play(mv(black_pawn(), pos(5, 7), pos(5, 5))), Ok(()));
    assert_eq!(game.turn, Color::White);
    assert_eq!(game.play(mv(white_pawn(), pos(4, 2), pos(4, 3))), Ok(()));
    assert_eq!(game.turn, Color::Black);
    assert_eq!(game.movements.len(), 3);
}

#[test]
fn castling_after_clearing_the_path() {
    let mut game = Game::new_classical();

    // castling is blocked at the start
    let castle = Movement::CastleKingSide(Piece::King(King::new(Color::White)));
    assert!(game.play(castle).is_err());

    // clear f1 and g1 without touching the king or the h1 rook
    assert_eq!(game.play(mv(white_pawn(), pos(5, 2), pos(5, 3))), Ok(()));
    assert_eq!(game.play(mv(black_pawn(), pos(1, 7), pos(1, 6))), Ok(()));
    assert_eq!(
        game.play(mv(Piece::Bishop(Bishop::new(Color::White)), pos(6, 1), pos(5, 2))),
        Ok(())
    );
    assert_eq!(game.play(mv(black_pawn(), pos(2, 7), pos(2, 6))), Ok(()));
    assert_eq!(
        game.play(mv(Piece::Knight(Knight::new(Color::White)), pos(7, 1), pos(6, 3))),
        Ok(())
    );
    assert_eq!(game.play(mv(black_pawn(), pos(3, 7), pos(3, 6))), Ok(()));

    // now the king-side castle succeeds
    let castle = Movement::CastleKingSide(Piece::King(King::new(Color::White)));
    assert_eq!(game.play(castle), Ok(()));

    assert_eq!(
        game.board().get_piece_at(&pos(7, 1)),
        Some(Piece::King(King::new(Color::White)))
    );
    assert_eq!(
        game.board().get_piece_at(&pos(6, 1)),
        Some(Piece::Rook(Rook::new(Color::White)))
    );
    assert_eq!(game.board().get_piece_at(&pos(5, 1)), None);
    assert_eq!(game.board().get_piece_at(&pos(8, 1)), None);
    assert_eq!(game.board().get_castle_rights(&Color::White), CastleRights::QueenSide);
}

#[test]
fn promotion_places_the_promoted_piece() {
    let mut game = Game::new_classical();
    // march the h-pawn through g5 up to g7, then capture h8 and promote
    assert_eq!(game.play(mv(white_pawn(), pos(8, 2), pos(8, 4))), Ok(()));
    assert_eq!(game.play(mv(black_pawn(), pos(7, 7), pos(7, 5))), Ok(()));
    let takes_g5 = Movement::new_capture(white_pawn(), pos(8, 4), pos(7, 5), None).unwrap();
    assert_eq!(game.play(takes_g5), Ok(()));
    assert_eq!(game.play(mv(black_pawn(), pos(1, 7), pos(1, 6))), Ok(()));
    assert_eq!(game.play(mv(white_pawn(), pos(7, 5), pos(7, 6))), Ok(()));
    assert_eq!(game.play(mv(black_pawn(), pos(1, 6), pos(1, 5))), Ok(()));
    assert_eq!(game.play(mv(white_pawn(), pos(7, 6), pos(7, 7))), Ok(()));
    assert_eq!(game.play(mv(black_pawn(), pos(1, 5), pos(1, 4))), Ok(()));

    let promoted = Piece::Queen(Queen::new(Color::White));
    let takes_h8 =
        Movement::new_capture(white_pawn(), pos(7, 7), pos(8, 8), Some(promoted)).unwrap();
    assert_eq!(game.play(takes_h8), Ok(()));
    assert_eq!(game.board().get_piece_at(&pos(8, 8)), Some(promoted));
    assert_eq!(game.board().get_piece_at(&pos(7, 7)), None);
}

#[test]
fn move_validation_errors() {
    let mut game = Game::new_classical();

    // moving from an empty square
    let from_empty = mv(white_pawn(), pos(4, 4), pos(4, 5));
    assert_eq!(game.play(from_empty), Err(Error::EmptyOrigin(pos(4, 4))));

    // moving onto an occupied square
    let rook = Piece::Rook(Rook::new(Color::White));
    let onto_own = mv(rook, pos(1, 1), pos(1, 2));
    assert_eq!(game.play(onto_own), Err(Error::OccupiedDestination(pos(1, 2))));

    // moving the opponent's piece
    let wrong_turn = mv(black_pawn(), pos(2, 7), pos(2, 6));
    assert_eq!(game.play(wrong_turn), Err(Error::WrongTurn(Color::Black)));

    // a displacement the piece cannot make
    let sideways = mv(white_pawn(), pos(1, 2), pos(2, 3));
    assert_eq!(game.play(sideways), Err(Error::InvalidGeometry));

    // a blocked sliding move
    let a1 = pos(1, 1);
    let a4 = pos(1, 4);
    let blocked = mv(rook, a1, a4);
    assert_eq!(
        game.play(blocked),
        Err(Error::PathObstructed(white_pawn(), pos(1, 2), a1, a4))
    );
}

#[test]
fn capture_validation_errors() {
    let mut game = Game::new_classical();

    // capturing an empty square
    let empty_target = Movement::new_capture(white_pawn(), pos(5, 2), pos(6, 3), None).unwrap();
    assert_eq!(game.play(empty_target), Err(Error::EmptyDestination(pos(6, 3))));

    // capturing one's own piece
    let knight = Piece::Knight(Knight::new(Color::White));
    let own_piece = Movement::new_capture(knight, pos(2, 1), pos(4, 2), None).unwrap();
    assert_eq!(game.play(own_piece), Err(Error::OccupiedDestination(pos(4, 2))));
}

#[test]
fn is_legal_matches_play_validation() {
    let game = Game::new_classical();
    assert!(game.is_legal(mv(white_pawn(), pos(5, 2), pos(5, 4))));
    assert!(!game.is_legal(mv(white_pawn(), pos(5, 2), pos(6, 3))));
    assert!(!game.is_legal(Movement::CastleKingSide(Piece::King(King::new(Color::White)))));
    assert!(!game.is_legal(mv(black_pawn(), pos(5, 7), pos(5, 5))));
}

#[test]
fn check_promotion_rules() {
    let pawn = white_pawn();
    let queen = Piece::Queen(Queen::new(Color::White));
    let black_queen = Piece::Queen(Queen::new(Color::Black));
    let king = Piece::King(King::new(Color::White));
    let rook = Piece::Rook(Rook::new(Color::White));
    let back = pos(5, 8);
    let middle = pos(5, 5);

    // no promotion attached: always fine
    assert_eq!(Game::check_promotion(&pawn, &middle, None), Ok(()));
    // a pawn promoting to a queen on the back rank
    assert_eq!(Game::check_promotion(&pawn, &back, Some(&queen)), Ok(()));
    assert_eq!(Game::check_promotion(&pawn, &pos(5, 1), Some(&queen)), Ok(()));
    // only a pawn may carry a promotion
    assert_eq!(Game::check_promotion(&rook, &back, Some(&queen)), Err(Error::InvalidPromotion));
    // the promotion must keep the mover's color
    assert_eq!(
        Game::check_promotion(&pawn, &back, Some(&black_queen)),
        Err(Error::InvalidPromotion)
    );
    // neither a king nor a pawn may be promoted to
    assert_eq!(Game::check_promotion(&pawn, &back, Some(&king)), Err(Error::InvalidPromotion));
    assert_eq!(Game::check_promotion(&pawn, &back, Some(&pawn)), Err(Error::InvalidPromotion));
    // promotion only lands on a back rank
    assert_eq!(Game::check_promotion(&pawn, &middle, Some(&queen)), Err(Error::InvalidPromotion));
}

#[test]
fn movement_accessors() {
    let pawn = white_pawn();
    let queen = Piece::Queen(Queen::new(Color::White));
    let m = Movement::new_move(pawn, pos(5, 7), pos(5, 8), Some(queen)).unwrap();
    assert_eq!(m.piece(), pawn);
    assert_eq!(m.from(), Some(pos(5, 7)));
    assert_eq!(m.to(), Some(pos(5, 8)));
    assert_eq!(m.promotion(), Some(queen));

    let castle = Movement::CastleQueenSide(Piece::King(King::new(Color::Black)));
    assert_eq!(castle.piece(), Piece::King(King::new(Color::Black)));
    assert_eq!(castle.from(), None);
    assert_eq!(castle.to(), None);
    assert_eq!(castle.promotion(), None);

    // a movement must actually move
    assert_eq!(Movement::new_move(pawn, pos(5, 2), pos(5, 2), None), None);
    assert_eq!(Movement::new_capture(pawn, pos(5, 2), pos(5, 2), None), None);
}

#[test]
fn castle_rights_never_return() {
    // 1.Nf3 a6 2.e3 b6 3.Be2 c6 4.Kf1 d6 5.Ke1 e6: the king steps out
    // and back; the revocation must survive every later play.
    let mut game = Game::new_classical();
    let knight = Piece::Knight(Knight::new(Color::White));
    let bishop = Piece::Bishop(Bishop::new(Color::White));
    let king = Piece::King(King::new(Color::White));
    assert_eq!(game.play(mv(knight, pos(7, 1), pos(6, 3))), Ok(()));
    assert_eq!(game.play(mv(black_pawn(), pos(1, 7), pos(1, 6))), Ok(()));
    assert_eq!(game.play(mv(white_pawn(), pos(5, 2), pos(5, 3))), Ok(()));
    assert_eq!(game.play(mv(black_pawn(), pos(2, 7), pos(2, 6))), Ok(()));
    assert_eq!(game.play(mv(bishop, pos(6, 1), pos(5, 2))), Ok(()));
    assert_eq!(game.play(mv(black_pawn(), pos(3, 7), pos(3, 6))), Ok(()));

    // the king leaves its square: both rights go
    assert_eq!(game.play(mv(king, pos(5, 1), pos(6, 1))), Ok(()));
    assert_eq!(game.board().get_castle_rights(&Color::White), CastleRights::Neither);

    // a later unrelated play must not restore them
    assert_eq!(game.play(mv(black_pawn(), pos(4, 7), pos(4, 6))), Ok(()));
    assert_eq!(game.board().get_castle_rights(&Color::White), CastleRights::Neither);

    // the king returns; the rights stay gone
    assert_eq!(game.play(mv(king, pos(6, 1), pos(5, 1))), Ok(()));
    assert_eq!(game.play(mv(black_pawn(), pos(5, 7), pos(5, 6))), Ok(()));
    assert_eq!(game.board().get_castle_rights(&Color::White), CastleRights::Neither);

    // castling is refused for want of the right, despite the clear path
    let castle = Movement::CastleKingSide(Piece::King(King::new(Color::White)));
    assert_eq!(
        game.play(castle),
        Err(Error::MissingCastleRight(Color::White, CastleRights::KingSide))
    );
    assert_eq!(game.board().get_castle_rights(&Color::White), CastleRights::Neither);
}

#[test]
fn play_rejects_ineligible_promotions() {
    let mut game = Game::new_classical();
    let queen = Piece::Queen(Queen::new(Color::White));
    let rook = Piece::Rook(Rook::new(Color::White));

    // a promotion off the back rank
    let early = Movement::new_move(white_pawn(), pos(5, 2), pos(5, 3), Some(queen)).unwrap();
    assert_eq!(game.play(early), Err(Error::InvalidPromotion));
    assert!(!game.is_legal(Movement::new_move(white_pawn(), pos(5, 2), pos(5, 3), Some(queen))
        .unwrap()));

    // only a pawn may carry one: checked before occupancy or obstruction
    let rook_promo = Movement::new_move(rook, pos(1, 1), pos(1, 3), Some(queen)).unwrap();
    assert_eq!(game.play(rook_promo), Err(Error::InvalidPromotion));

    // the game is untouched
    assert_eq!(game.movements.len(), 0);
    assert_eq!(game.turn, Color::White);
}

#[test]
fn movement_text_rendering() {
    let pawn = white_pawn();
    let queen = Piece::Queen(Queen::new(Color::White));
    let plain = Movement::new_move(pawn, pos(5, 2), pos(5, 4), None).unwrap();
    assert_eq!(plain.to_text(), "Pe2e4");
    let promoting = Movement::new_capture(pawn, pos(7, 7), pos(8, 8), Some(queen)).unwrap();
    assert_eq!(promoting.to_text(), "Pg7xh8=Q");
    let rook_move =
        Movement::new_move(Piece::Rook(Rook::new(Color::Black)), pos(1, 8), pos(1, 5), None)
            .unwrap();
    assert_eq!(rook_move.to_text(), "Ra8a5");
    assert_eq!(Movement::CastleKingSide(Piece::King(King::new(Color::White))).to_text(), "O-O");
    assert_eq!(
        Movement::CastleQueenSide(Piece::King(King::new(Color::Black))).to_text(),
        "O-O-O"
    );
}

#[test]
fn color_opposite() {
    assert_eq!(Color::White.opposite(), Color::Black);
    assert_eq!(Color::Black.opposite(), Color::White);
}
