use chess::board::position::Position;
use chess::board::tile::Tile;
use chess::board::Board;
use chess::color::Color;
use chess::error::Error;
use chess::game::castle_rights::CastleRights;
use chess::game::movement::Movement;
use chess::piece::pieces::bishop::Bishop;
use chess::piece::pieces::king::King;
use chess::piece::pieces::knight::Knight;
use chess::piece::pieces::pawn::Pawn;
use chess::piece::pieces::queen::Queen;
use chess::piece::pieces::rook::Rook;
use chess::piece::Piece;

fn pos(file: u8, rank: u8) -> Position {
    Position::new(file, rank).unwrap()
}

fn at(board: &Board, file: u8, rank: u8) -> Option<Piece> {
    board.get_piece_at(&pos(file, rank))
}

#[test]
fn classical_layout() {
    let board = Board::new_classical();
    for (color, back, pawns) in [(Color::White, 1u8, 2u8), (Color::Black, 8u8, 7u8)] {
        assert_eq!(at(&board, 1, back), Some(Piece::Rook(Rook::new(color))));
        assert_eq!(at(&board, 2, back), Some(Piece::Knight(Knight::new(color))));
        assert_eq!(at(&board, 3, back), Some(Piece::Bishop(Bishop::new(color))));
        assert_eq!(at(&board, 4, back), Some(Piece::Queen(Queen::new(color))));
        assert_eq!(at(&board, 5, back), Some(Piece::King(King::new(color))));
        assert_eq!(at(&board, 6, back), Some(Piece::Bishop(Bishop::new(color))));
        assert_eq!(at(&board, 7, back), Some(Piece::Knight(Knight::new(color))));
        assert_eq!(at(&board, 8, back), Some(Piece::Rook(Rook::new(color))));
        for file in 1u8..=8 {
            assert_eq!(at(&board, file, pawns), Some(Piece::Pawn(Pawn::new(color))));
        }
    }
    for file in 1u8..=8 {
        for rank in 3u8..=6 {
            assert_eq!(at(&board, file, rank), None);
        }
    }
    assert_eq!(board.get_castle_rights(&Color::White), CastleRights::Both);
    assert_eq!(board.get_castle_rights(&Color::Black), CastleRights::Both);
}

#[test]
fn revoke_right_table() {
    let cases = [
        // (held, revoked, expected)
        (CastleRights::Neither, CastleRights::Neither, CastleRights::Neither),
        (CastleRights::Neither, CastleRights::KingSide, CastleRights::Neither),
        (CastleRights::Neither, CastleRights::QueenSide, CastleRights::Neither),
        (CastleRights::Neither, CastleRights::Both, CastleRights::Neither),
        (CastleRights::KingSide, CastleRights::Neither, CastleRights::KingSide),
        (CastleRights::KingSide, CastleRights::KingSide, CastleRights::Neither),
        (CastleRights::KingSide, CastleRights::QueenSide, CastleRights::KingSide),
        (CastleRights::KingSide, CastleRights::Both, CastleRights::Neither),
        (CastleRights::QueenSide, CastleRights::Neither, CastleRights::QueenSide),
        (CastleRights::QueenSide, CastleRights::KingSide, CastleRights::QueenSide),
        (CastleRights::QueenSide, CastleRights::QueenSide, CastleRights::Neither),
        (CastleRights::QueenSide, CastleRights::Both, CastleRights::Neither),
        (CastleRights::Both, CastleRights::Neither, CastleRights::Both),
        (CastleRights::Both, CastleRights::KingSide, CastleRights::QueenSide),
        (CastleRights::Both, CastleRights::QueenSide, CastleRights::KingSide),
        (CastleRights::Both, CastleRights::Both, CastleRights::Neither),
    ];
    for (held, revoked, expected) in cases {
        assert_eq!(held.revoke_right(revoked), expected, "{:?} minus {:?}", held, revoked);
    }
}

#[test]
fn revoke_castle_right_on_board() {
    let mut board = Board::new_classical();
    board.revoke_castle_right(&Color::White, CastleRights::KingSide);
    assert_eq!(board.get_castle_rights(&Color::White), CastleRights::QueenSide);
    assert_eq!(board.get_castle_rights(&Color::Black), CastleRights::Both);
    board.revoke_castle_right(&Color::White, CastleRights::QueenSide);
    assert_eq!(board.get_castle_rights(&Color::White), CastleRights::Neither);
}

#[test]
fn has_castle_rights_errors() {
    let mut board = Board::new_classical();
    assert_eq!(board.has_castle_rights(&Color::White, &CastleRights::KingSide), Ok(()));
    board.revoke_castle_right(&Color::White, CastleRights::KingSide);
    assert_eq!(
        board.has_castle_rights(&Color::White, &CastleRights::KingSide),
        Err(Error::MissingCastleRight(Color::White, CastleRights::KingSide))
    );
    assert_eq!(board.has_castle_rights(&Color::White, &CastleRights::QueenSide), Ok(()));
    board.revoke_castle_right(&Color::White, CastleRights::Both);
    assert_eq!(
        board.has_castle_rights(&Color::White, &CastleRights::QueenSide),
        Err(Error::MissingCastleRight(Color::White, CastleRights::QueenSide))
    );
}

#[test]
fn tile_operations() {
    let mut tile = Tile::new(pos(3, 3));
    assert_eq!(tile.position(), pos(3, 3));
    assert_eq!(tile.piece(), None);
    assert_eq!(tile.remove_piece(), Err(Error::EmptyTile));
    let piece = Piece::Queen(Queen::new(Color::Black));
    tile.set_piece(piece);
    assert_eq!(tile.piece(), Some(piece));
    assert_eq!(tile.remove_piece(), Ok(piece));
    assert_eq!(tile.piece(), None);
}

#[test]
fn from_movements_replays_log() {
    let board = Board::new_classical();
    let pawn = Piece::Pawn(Pawn::new(Color::White));
    let movement = Movement::new_move(pawn, pos(1, 2), pos(1, 3), None).unwrap();
    let replayed = board.from_movements(&vec![movement]).unwrap();
    assert_eq!(replayed.get_piece_at(&pos(1, 3)), Some(pawn));
    assert_eq!(replayed.get_piece_at(&pos(1, 2)), None);
    // the receiver board is untouched: replay builds a fresh board
    assert_eq!(board.get_piece_at(&pos(1, 2)), Some(pawn));
}

#[test]
fn from_movements_aborts_on_empty_origin() {
    let board = Board::new_classical();
    let rook = Piece::Rook(Rook::new(Color::White));
    let movement = Movement::new_move(rook, pos(3, 3), pos(3, 5), None).unwrap();
    assert_eq!(board.from_movements(&vec![movement]).err(), Some(Error::EmptyTile));
}

#[test]
fn replay_threads_rights_revocations() {
    let board = Board::new_classical();
    let king = Piece::King(King::new(Color::White));
    let log = vec![Movement::new_move(king, pos(5, 1), pos(5, 2), None).unwrap()];
    let replayed = board.from_movements(&log).unwrap();
    assert_eq!(replayed.get_castle_rights(&Color::White), CastleRights::Neither);
    assert_eq!(replayed.get_castle_rights(&Color::Black), CastleRights::Both);
}

#[test]
fn castle_step_clears_the_shadow() {
    // a double step arms the shadow; a castle must clear it, so a later
    // arrival on the phantom square no longer removes the bypassed pawn
    let board = Board::new_classical();
    let king = Piece::King(King::new(Color::White));
    let log = vec![
        Movement::new_move(black_pawn_piece(), pos(4, 7), pos(4, 5), None).unwrap(),
        Movement::CastleKingSide(king),
        Movement::new_move(white_pawn_piece(), pos(5, 2), pos(4, 6), None).unwrap(),
    ];
    let replayed = board.from_movements(&log).unwrap();
    assert_eq!(replayed.get_piece_at(&pos(4, 5)), Some(black_pawn_piece()));
    assert_eq!(replayed.get_piece_at(&pos(4, 6)), Some(white_pawn_piece()));
}

fn white_pawn_piece() -> Piece {
    Piece::Pawn(Pawn::new(Color::White))
}

fn black_pawn_piece() -> Piece {
    Piece::Pawn(Pawn::new(Color::Black))
}

#[test]
fn from_movements_applies_promotion() {
    let board = Board::new_classical();
    // replay does not validate geometry: walk a pawn straight to the
    // back rank and promote it
    let pawn = Piece::Pawn(Pawn::new(Color::White));
    let queen = Piece::Queen(Queen::new(Color::White));
    let log = vec![
        Movement::new_move(pawn, pos(1, 2), pos(4, 4), None).unwrap(),
        Movement::new_capture(pawn, pos(4, 4), pos(1, 8), Some(queen)).unwrap(),
    ];
    let replayed = board.from_movements(&log).unwrap();
    assert_eq!(replayed.get_piece_at(&pos(1, 8)), Some(queen));
}
