//! The game orchestrator: turn management, legality checking, rights
//! bookkeeping, and atomic application of movements.

use vstd::prelude::*;

use crate::board::position::Position;
use crate::board::relative_position::RelativePosition;
use crate::board::Board;
use crate::board::BoardModel;
use crate::color::Color;
use crate::error::Error;
use crate::game::movement::Movement;
use crate::piece::spec_will_colide;
use crate::piece::Piece;

pub mod castle_rights;
pub mod movement;

verus! {

/// The displacement `to - from` of two well-formed squares.
pub open spec fn spec_delta(from: Position, to: Position) -> RelativePosition {
    RelativePosition { file: (to.file - from.file) as i8, rank: (to.rank - from.rank) as i8 }
}

/// A game: the side to move, the current board, and the ordered movement
/// log.  The log is the single source of truth: the board is replaced
/// wholesale after each successful play by replaying the whole log.
pub struct Game {
    pub turn: Color,
    pub board: Board,
    pub movements: Vec<Movement>,
}

impl Game {
    /// A game is well formed when its board is, every logged movement is,
    /// the side to move is White exactly when the number of logged plays
    /// is even, and the cached board agrees with the log.
    pub open spec fn wf(self) -> bool {
        &&& self.board.wf()
        &&& (self.turn == Color::White <==> self.movements@.len() % 2 == 0)
        &&& forall|i: int| 0 <= i < self.movements@.len() ==> (#[trigger] self.movements@[i]).wf()
        &&& self.log_consistent()
    }

    /// The movement log is the single source of truth: the cached board is
    /// exactly the replay of the whole log from the classical position.
    pub open spec fn log_consistent(self) -> bool {
        match BoardModel::spec_replay(self.movements@) {
            Ok(m) => self.board@ == m,
            Err(_) => false,
        }
    }

    /// What validating a plain move yields, in order: the origin must be
    /// occupied (seen through the shadow), the destination empty, the
    /// origin piece's color the side to move, the displacement valid for
    /// the piece, and the path unobstructed.
    pub open spec fn spec_move_check(self, from: Position, to: Position) -> Result<(), Error> {
        match self.board@.at(from) {
            None => Err(Error::EmptyOrigin(from)),
            Some(piece) => match self.board@.at(to) {
                Some(_) => Err(Error::OccupiedDestination(to)),
                None => if piece.spec_color() != self.turn {
                    Err(Error::WrongTurn(piece.spec_color()))
                } else if !piece.spec_valid_move(spec_delta(from, to)) {
                    Err(Error::InvalidGeometry)
                } else {
                    spec_will_colide(self.board@, from, to)
                },
            },
        }
    }

    /// What validating a capture yields, in order: the origin must be
    /// occupied, the destination occupied by the opposing color, the
    /// origin piece's color the side to move, the displacement a valid
    /// capture for the piece, and the path unobstructed.
    pub open spec fn spec_capture_check(self, from: Position, to: Position) -> Result<(), Error> {
        match self.board@.at(from) {
            None => Err(Error::EmptyOrigin(from)),
            Some(from_piece) => match self.board@.at(to) {
                Some(target) => if target.spec_color() == self.turn {
                    Err(Error::OccupiedDestination(to))
                } else if from_piece.spec_color() != self.turn {
                    Err(Error::WrongTurn(from_piece.spec_color()))
                } else if !from_piece.spec_valid_capture(spec_delta(from, to)) {
                    Err(Error::InvalidGeometry)
                } else {
                    spec_will_colide(self.board@, from, to)
                },
                None => Err(Error::EmptyDestination(to)),
            },
        }
    }

    /// What validating a castle yields: the path between the king's
    /// current and destination squares must be unobstructed.  Rights are
    /// additionally checked inside the board's castle helpers when the
    /// movement is applied.
    pub open spec fn spec_castle_check(self, movement: Movement) -> Result<(), Error> {
        let rank = BoardModel::spec_home_rank(movement.spec_piece().spec_color());
        match movement {
            Movement::CastleKingSide(_) => spec_will_colide(
                self.board@,
                Position { file: 5, rank },
                Position { file: 7, rank },
            ),
            Movement::CastleQueenSide(_) => spec_will_colide(
                self.board@,
                Position { file: 5, rank },
                Position { file: 3, rank },
            ),
            _ => Err(Error::InvalidGeometry),
        }
    }

    /// What validating any movement yields: for a move or capture, first
    /// the promotion eligibility of the movement itself, then the matching
    /// branch above; for a castle, the castle branch.
    pub open spec fn spec_validate(self, movement: Movement) -> Result<(), Error> {
        match movement {
            Movement::Move(piece, from, to, promotion) => match Self::spec_check_promotion(
                piece,
                to,
                promotion,
            ) {
                Err(e) => Err(e),
                Ok(_) => self.spec_move_check(from, to),
            },
            Movement::Capture(piece, from, to, promotion) => match Self::spec_check_promotion(
                piece,
                to,
                promotion,
            ) {
                Err(e) => Err(e),
                Ok(_) => self.spec_capture_check(from, to),
            },
            _ => self.spec_castle_check(movement),
        }
    }

    /// What a play returns: the validation error if validation fails, the
    /// first failing replay step's error if the extended log does not
    /// replay, and success otherwise.
    pub open spec fn spec_play_outcome(self, movement: Movement) -> Result<(), Error> {
        match self.spec_validate(movement) {
            Err(e) => Err(e),
            Ok(_) => match BoardModel::spec_replay(self.movements@.push(movement)) {
                Err(e) => Err(e),
                Ok(_) => Ok(()),
            },
        }
    }

    /// The board after a successful play: the replay of the extended log,
    /// with the just-applied movement's rights bookkeeping reapplied (a
    /// no-op, since the replay already threads it).
    pub open spec fn spec_post_board(self, movement: Movement) -> BoardModel {
        match BoardModel::spec_replay(self.movements@.push(movement)) {
            Ok(m) => m.spec_rights_after(movement),
            Err(_) => self.board@,
        }
    }

    /// Starts a game from the classical position, White to move, with an
    /// empty movement log.
    pub fn new_classical() -> (r: Game)
        ensures
            r.wf(),
            r.turn == Color::White,
            r.board@ == BoardModel::classical(),
            r.movements@ == Seq::<Movement>::empty(),
    {
        Game { turn: Color::White, board: Board::new_classical(), movements: Vec::new() }
    }

    /// The current board.
    pub fn board(&self) -> (r: &Board)
        ensures
            *r == self.board,
    {
        &self.board
    }

    /// Validates a plain move of the piece on `from` to the empty square
    /// `to` against the current turn and board.
    pub fn move_piece(&self, from: Position, to: Position) -> (r: Result<(), Error>)
        requires
            self.board.wf(),
            from.wf(),
            to.wf(),
        ensures
            r == self.spec_move_check(from, to),
    {
        let piece = match self.board.get_piece_at(&from) {
            Some(piece) => piece,
            None => {
                return Err(Error::EmptyOrigin(from));
            },
        };
        match self.board.get_piece_at(&to) {
            Some(_) => {
                return Err(Error::OccupiedDestination(to));
            },
            None => (),
        };
        if piece.color() != self.turn {
            return Err(Error::WrongTurn(piece.color()));
        }
        let position = match RelativePosition::from_absolute(&from, &to) {
            Ok(position) => position,
            Err(e) => {
                return Err(e);
            },
        };
        if !piece.is_valid_move(&position) {
            return Err(Error::InvalidGeometry);
        }
        let collision = piece.will_colide(&self.board, &from, &to);
        match collision {
            Err(e) => {
                return Err(e);
            },
            _ => (),
        }
        collision
    }

    /// Validates a capture by the piece on `from` of the opposing piece on
    /// `to` against the current turn and board.
    pub fn capture_piece(&self, from: Position, to: Position) -> (r: Result<(), Error>)
        requires
            self.board.wf(),
            from.wf(),
            to.wf(),
        ensures
            r == self.spec_capture_check(from, to),
    {
        let from_piece = match self.board.get_piece_at(&from) {
            Some(piece) => piece,
            None => {
                return Err(Error::EmptyOrigin(from));
            },
        };
        match self.board.get_piece_at(&to) {
            Some(piece) => {
                if piece.color() == self.turn {
                    return Err(Error::OccupiedDestination(to));
                }
            },
            None => {
                return Err(Error::EmptyDestination(to));
            },
        };
        if from_piece.color() != self.turn {
            return Err(Error::WrongTurn(from_piece.color()));
        }
        let position = match RelativePosition::from_absolute(&from, &to) {
            Ok(position) => position,
            Err(e) => {
                return Err(e);
            },
        };
        if !from_piece.is_valid_capture(&position) {
            return Err(Error::InvalidGeometry);
        }
        let collision = from_piece.will_colide(&self.board, &from, &to);
        match collision {
            Err(e) => {
                return Err(e);
            },
            _ => (),
        }
        collision
    }

    /// Validates a castle: the king's path on the mover's home rank must
    /// be unobstructed.
    pub fn castle(&self, movement: &Movement) -> (r: Result<(), Error>)
        requires
            self.board.wf(),
        ensures
            r == self.spec_castle_check(*movement),
    {
        let rank: u8 = match movement.piece().color() {
            Color::White => 1,
            Color::Black => 8,
        };
        match movement {
            Movement::CastleKingSide(_) => {
                let from = Position { file: 5, rank };
                let to = Position { file: 7, rank };
                movement.piece().will_colide(&self.board, &from, &to)
            },
            Movement::CastleQueenSide(_) => {
                let from = Position { file: 5, rank };
                let to = Position { file: 3, rank };
                movement.piece().will_colide(&self.board, &from, &to)
            },
            _ => Err(Error::InvalidGeometry),
        }
    }

    /// Whether a movement would be accepted by `play`'s validation step.
    /// Collapses the reason into a boolean; used as a filter by the
    /// resolver.
    pub fn is_legal(&self, movement: Movement) -> (r: bool)
        requires
            self.board.wf(),
            movement.wf(),
        ensures
            r == (self.spec_validate(movement) is Ok),
    {
        match movement {
            Movement::Move(piece, from, to, promotion) => match Self::check_promotion(
                &piece,
                &to,
                promotion.as_ref(),
            ) {
                Err(_) => false,
                _ => match self.move_piece(from, to) {
                    Err(_) => false,
                    _ => true,
                },
            },
            Movement::Capture(piece, from, to, promotion) => match Self::check_promotion(
                &piece,
                &to,
                promotion.as_ref(),
            ) {
                Err(_) => false,
                _ => match self.capture_piece(from, to) {
                    Err(_) => false,
                    _ => true,
                },
            },
            Movement::CastleKingSide(_) => match self.castle(&movement) {
                Err(_) => false,
                _ => true,
            },
            Movement::CastleQueenSide(_) => match self.castle(&movement) {
                Err(_) => false,
                _ => true,
            },
        }
    }

    /// Validates and applies a movement atomically: on success the
    /// movement is appended to the log, the board is recomputed by
    /// replaying the whole log, the turn flips, and the rights
    /// bookkeeping runs; a failed play leaves turn, board and log exactly
    /// as they were.
    pub fn play(&mut self, movement: Movement) -> (r: Result<(), Error>)
        requires
            old(self).wf(),
            movement.wf(),
        ensures
            final(self).wf(),
            r == old(self).spec_play_outcome(movement),
            r is Ok ==> final(self).turn == old(self).turn.spec_opposite(),
            r is Ok ==> final(self).movements@ == old(self).movements@.push(movement),
            r is Ok ==> final(self).board@ == old(self).spec_post_board(movement),
            r is Err ==> final(self).turn == old(self).turn,
            r is Err ==> final(self).board@ == old(self).board@,
            r is Err ==> final(self).movements@ == old(self).movements@,
    {
        match movement {
            Movement::Move(piece, from, to, promotion) => {
                match Self::check_promotion(&piece, &to, promotion.as_ref()) {
                    Err(e) => {
                        return Err(e);
                    },
                    _ => (),
                };
                match self.move_piece(from, to) {
                    Err(e) => {
                        return Err(e);
                    },
                    _ => (),
                };
            },
            Movement::Capture(piece, from, to, promotion) => {
                match Self::check_promotion(&piece, &to, promotion.as_ref()) {
                    Err(e) => {
                        return Err(e);
                    },
                    _ => (),
                };
                match self.capture_piece(from, to) {
                    Err(e) => {
                        return Err(e);
                    },
                    _ => (),
                };
            },
            Movement::CastleKingSide(_) => match self.castle(&movement) {
                Err(e) => {
                    return Err(e);
                },
                _ => (),
            },
            Movement::CastleQueenSide(_) => match self.castle(&movement) {
                Err(e) => {
                    return Err(e);
                },
                _ => (),
            },
        }
        self.movements.push(movement);
        let new_board = match self.board.from_movements(&self.movements) {
            Ok(board) => board,
            Err(e) => {
                self.movements.pop();
                proof {
                    assert(self.movements@ =~= old(self).movements@);
                }
                return Err(e);
            },
        };
        self.board = new_board;
        self.turn = self.turn.opposite();
        self.on_move();
        Ok(())
    }

    /// Runs the per-ply bookkeeping after the turn has flipped.
    fn on_move(&mut self)
        requires
            old(self).board.wf(),
        ensures
            final(self).board.wf(),
            final(self).turn == old(self).turn,
            final(self).movements == old(self).movements,
            final(self).board@ == (if old(self).movements@.len() == 0 {
                old(self).board@
            } else {
                old(self).board@.spec_rights_after(old(self).movements@.last())
            }),
    {
        self.change_castle_rights();
    }

    /// Updates the castle rights of the side that just moved (the acting
    /// piece's side, which under turn alternation is the opposite of the
    /// already-flipped turn) from the last logged movement: a castle
    /// consumes the right for the side castled, a king move revokes both
    /// rights, and a rook move from a home corner file revokes that side.
    /// The replay already threads this bookkeeping, so the step is a
    /// provable no-op kept as the per-ply rights update.
    fn change_castle_rights(&mut self)
        requires
            old(self).board.wf(),
        ensures
            final(self).board.wf(),
            final(self).turn == old(self).turn,
            final(self).movements == old(self).movements,
            final(self).board@ == (if old(self).movements@.len() == 0 {
                old(self).board@
            } else {
                old(self).board@.spec_rights_after(old(self).movements@.last())
            }),
    {
        if self.movements.len() == 0 {
            return ;
        }
        let last = self.movements[self.movements.len() - 1];
        self.board.apply_rights_bookkeeping(&last);
    }

    /// Promotion eligibility: only a pawn may carry a promotion, of its
    /// own color, of a kind that is neither king nor pawn, and only onto a
    /// back rank.
    pub open spec fn spec_check_promotion(piece: Piece, to: Position, promotion: Option<
        Piece,
    >) -> Result<(), Error> {
        match promotion {
            None => Ok(()),
            Some(promo) => if piece.spec_prefix() != 'P' {
                Err(Error::InvalidPromotion)
            } else if promo.spec_color() != piece.spec_color() {
                Err(Error::InvalidPromotion)
            } else if promo.spec_prefix() == 'K' || promo.spec_prefix() == 'P' {
                Err(Error::InvalidPromotion)
            } else if to.rank != 8 && to.rank != 1 {
                Err(Error::InvalidPromotion)
            } else {
                Ok(())
            },
        }
    }

    /// Checks promotion eligibility for a movement's piece, destination
    /// and optional promotion.
    pub fn check_promotion(piece: &Piece, to: &Position, promotion: Option<&Piece>) -> (r: Result<
        (),
        Error,
    >)
        ensures
            r == Self::spec_check_promotion(
                *piece,
                *to,
                (match promotion {
                    Some(p) => Some(*p),
                    None => None::<Piece>,
                }),
            ),
    {
        let promo = match promotion {
            Some(promo) => promo,
            None => {
                return Ok(());
            },
        };
        if piece.prefix() != 'P' {
            return Err(Error::InvalidPromotion);
        }
        if promo.color() != piece.color() {
            return Err(Error::InvalidPromotion);
        }
        if promo.prefix() == 'K' || promo.prefix() == 'P' {
            return Err(Error::InvalidPromotion);
        }
        if to.rank != 8 && to.rank != 1 {
            return Err(Error::InvalidPromotion);
        }
        Ok(())
    }
}

/// Castle rights are never restored: for any well-formed game and any
/// movement, each side's rights on the board after a play are a subset of
/// its rights before.  On a successful play the board becomes
/// `spec_post_board`; on a failed one it is unchanged, so rights are
/// monotone across every play.
pub proof fn lemma_play_rights_monotone(g: Game, movement: Movement, color: Color)
    requires
        g.wf(),
    ensures
        g.spec_post_board(movement).rights_of(color).spec_le(g.board@.rights_of(color)),
{
    let extended = g.movements@.push(movement);
    assert(extended.drop_last() =~= g.movements@);
    match BoardModel::spec_replay(extended) {
        Ok(m2) => {
            crate::board::lemma_apply_rights_monotone(g.board@, movement, color);
            crate::board::lemma_apply_rights_settled(g.board@, movement);
        },
        Err(_) => {},
    }
}

/// The en-passant shadow invariant: in any well-formed game whose board
/// carries a shadow, the phantom square differs from the actual square
/// and the actual square is occupied.
pub proof fn lemma_game_shadow_occupied(g: Game)
    requires
        g.wf(),
    ensures
        (match g.board@.pawn_shadow {
            Some((phantom, actual)) => phantom != actual && g.board@.raw_at(actual) is Some,
            None => true,
        }),
{
    crate::board::lemma_replay_shadow_occupied(g.movements@);
}

/// Turn alternation: in any well-formed game the side to move is White
/// exactly when the number of successfully played movements is even.
pub proof fn lemma_turn_alternation(g: Game)
    requires
        g.wf(),
    ensures
        g.turn == Color::White <==> g.movements@.len() % 2 == 0,
{
}

} // verus!
