//! The board: 64 fixed tiles, per-color castle rights, and an en-passant
//! shadow.  Board state is always recomputed by replaying the full ordered
//! movement log from the classical starting position.

use vstd::prelude::*;

use crate::board::position::Position;
use crate::board::relative_position::RelativePosition;
use crate::board::tile::Tile;
use crate::color::Color;
use crate::error::Error;
use crate::game::castle_rights::CastleRights;
use crate::game::movement::Movement;
use crate::game::spec_delta;
use crate::game::Game;
use crate::piece::pieces::bishop::Bishop;
use crate::piece::pieces::king::King;
use crate::piece::pieces::knight::Knight;
use crate::piece::pieces::pawn::Pawn;
use crate::piece::pieces::queen::Queen;
use crate::piece::pieces::rook::Rook;
use crate::piece::Piece;

pub mod position;
pub mod relative_position;
pub mod tile;

verus! {

/// The index of a square in the file-major tile layout.
pub open spec fn square_index(p: Position) -> int {
    (p.file - 1) * 8 + (p.rank - 1)
}

/// The mathematical model of a board: 64 optional pieces in file-major
/// order, the two castle-rights values, and the en-passant shadow, a
/// mapping from a phantom square to the actual square of a pawn that just
/// advanced two ranks.
#[verifier::ext_equal]
pub struct BoardModel {
    pub squares: Seq<Option<Piece>>,
    pub white_castle_rights: CastleRights,
    pub black_castle_rights: CastleRights,
    pub pawn_shadow: Option<(Position, Position)>,
}

/// The piece standing on `file` of a classical back rank.
pub open spec fn spec_back_rank(file: int, color: Color) -> Piece {
    if file == 1 || file == 8 {
        Piece::Rook(Rook { color })
    } else if file == 2 || file == 7 {
        Piece::Knight(Knight { color })
    } else if file == 3 || file == 6 {
        Piece::Bishop(Bishop { color })
    } else if file == 4 {
        Piece::Queen(Queen { color })
    } else {
        Piece::King(King { color })
    }
}

/// The classical occupant of a square: back ranks on 1 and 8, pawns on 2
/// and 7, nothing elsewhere.
pub open spec fn spec_classical_square(file: int, rank: int) -> Option<Piece> {
    if rank == 1 {
        Some(spec_back_rank(file, Color::White))
    } else if rank == 2 {
        Some(Piece::Pawn(Pawn { color: Color::White }))
    } else if rank == 7 {
        Some(Piece::Pawn(Pawn { color: Color::Black }))
    } else if rank == 8 {
        Some(spec_back_rank(file, Color::Black))
    } else {
        None
    }
}

impl BoardModel {
    /// A model is well formed when it has exactly 64 squares and its
    /// shadow squares, if present, are on the board.
    pub open spec fn wf(self) -> bool {
        &&& self.squares.len() == 64
        &&& match self.pawn_shadow {
            Some((shadow, actual)) => shadow.wf() && actual.wf(),
            None => true,
        }
    }

    /// An empty board holding the given castle rights.
    pub open spec fn empty(
        white_castle_rights: CastleRights,
        black_castle_rights: CastleRights,
    ) -> BoardModel {
        BoardModel {
            squares: Seq::new(64, |i: int| Option::<Piece>::None),
            white_castle_rights,
            black_castle_rights,
            pawn_shadow: None,
        }
    }

    /// The classical starting position with full rights and no shadow.
    pub open spec fn classical() -> BoardModel {
        BoardModel {
            squares: Seq::new(64, |i: int| spec_classical_square(i / 8 + 1, i % 8 + 1)),
            white_castle_rights: CastleRights::Both,
            black_castle_rights: CastleRights::Both,
            pawn_shadow: None,
        }
    }

    /// The piece physically standing on a square.
    pub open spec fn raw_at(self, p: Position) -> Option<Piece> {
        self.squares[square_index(p)]
    }

    /// The piece seen on a square through the en-passant shadow: a lookup
    /// of the phantom square is redirected to the shadow's actual square.
    pub open spec fn at(self, p: Position) -> Option<Piece> {
        match self.pawn_shadow {
            Some((shadow, actual)) => if shadow == p {
                self.raw_at(actual)
            } else {
                self.raw_at(p)
            },
            None => self.raw_at(p),
        }
    }

    /// The model with `piece` placed on `p`.
    pub open spec fn with_piece(self, p: Position, piece: Piece) -> BoardModel {
        BoardModel { squares: self.squares.update(square_index(p), Some(piece)), ..self }
    }

    /// The model with `p` emptied.
    pub open spec fn without_piece(self, p: Position) -> BoardModel {
        BoardModel { squares: self.squares.update(square_index(p), Option::<Piece>::None), ..self }
    }

    /// The castle rights held by a color.
    pub open spec fn rights_of(self, color: Color) -> CastleRights {
        match color {
            Color::White => self.white_castle_rights,
            Color::Black => self.black_castle_rights,
        }
    }

    /// The model with one side's rights replaced.
    pub open spec fn with_rights(self, color: Color, rights: CastleRights) -> BoardModel {
        match color {
            Color::White => BoardModel { white_castle_rights: rights, ..self },
            Color::Black => BoardModel { black_castle_rights: rights, ..self },
        }
    }

    /// What moving a piece does: empties `from`, places its piece on `to`,
    /// and, when `to` is the shadow's phantom square, also empties the
    /// shadow's actual square (the en-passant capture).  Fails when `from`
    /// is physically empty, or when the shadow's actual square is.
    pub open spec fn spec_move_piece(self, from: Position, to: Position) -> Result<
        BoardModel,
        Error,
    > {
        match self.raw_at(from) {
            None => Err(Error::EmptyTile),
            Some(piece) => {
                let moved = self.without_piece(from).with_piece(to, piece);
                match self.pawn_shadow {
                    Some((shadow, actual)) => if shadow == to {
                        match moved.raw_at(actual) {
                            None => Err(Error::EmptyTile),
                            Some(_) => Ok(moved.without_piece(actual)),
                        }
                    } else {
                        Ok(moved)
                    },
                    None => Ok(moved),
                }
            },
        }
    }

    /// Whether the held rights permit a castle, as a result: the exact
    /// missing-right error otherwise.
    pub open spec fn spec_has_castle_rights(self, color: Color, right: CastleRights) -> Result<
        (),
        Error,
    > {
        if self.rights_of(color).spec_permits(right) {
            Ok(())
        } else {
            Err(Error::MissingCastleRight(color, right))
        }
    }

    /// The home rank of a color.
    pub open spec fn spec_home_rank(color: Color) -> u8 {
        match color {
            Color::White => 1u8,
            Color::Black => 8u8,
        }
    }

    /// A king-side castle: requires the king-side right, then relocates
    /// king e to g and rook h to f on the mover's home rank.
    pub open spec fn spec_castle_king_side(self, color: Color) -> Result<BoardModel, Error> {
        let rank = Self::spec_home_rank(color);
        match self.spec_has_castle_rights(color, CastleRights::KingSide) {
            Err(e) => Err(e),
            Ok(_) => match self.spec_move_piece(
                Position { file: 5, rank },
                Position { file: 7, rank },
            ) {
                Err(e) => Err(e),
                Ok(m) => m.spec_move_piece(Position { file: 8, rank }, Position { file: 6, rank }),
            },
        }
    }

    /// A queen-side castle: requires the queen-side right, then relocates
    /// king e to c and rook a to d on the mover's home rank.
    pub open spec fn spec_castle_queen_side(self, color: Color) -> Result<BoardModel, Error> {
        let rank = Self::spec_home_rank(color);
        match self.spec_has_castle_rights(color, CastleRights::QueenSide) {
            Err(e) => Err(e),
            Ok(_) => match self.spec_move_piece(
                Position { file: 5, rank },
                Position { file: 3, rank },
            ) {
                Err(e) => Err(e),
                Ok(m) => m.spec_move_piece(Position { file: 1, rank }, Position { file: 4, rank }),
            },
        }
    }

    /// En-passant bookkeeping after an applied move or capture: a two-rank
    /// pawn advance sets the shadow to the square one rank behind its
    /// destination paired with the destination; any other movement by a
    /// pawn clears the shadow, and so does any movement by another piece.
    pub open spec fn spec_ep_update(self, mv: Movement) -> BoardModel {
        if mv.spec_piece().spec_prefix() != 'P' {
            BoardModel { pawn_shadow: None, ..self }
        } else {
            match (mv.spec_from(), mv.spec_to()) {
                (Some(from), Some(to)) => {
                    let mult = match mv.spec_piece().spec_color() {
                        Color::White => 1int,
                        Color::Black => -1int,
                    };
                    if to.rank - from.rank == 2 * mult {
                        BoardModel {
                            pawn_shadow: Some(
                                (Position { file: to.file, rank: (to.rank - mult) as u8 }, to),
                            ),
                            ..self
                        }
                    } else {
                        BoardModel { pawn_shadow: None, ..self }
                    }
                },
                _ => self,
            }
        }
    }

    /// The model with the movement's promotion, if any, placed on its
    /// destination.
    pub open spec fn spec_apply_promotion(self, mv: Movement) -> BoardModel {
        match mv.spec_promotion() {
            Some(promotion) => match mv.spec_to() {
                Some(to) => self.with_piece(to, promotion),
                None => self,
            },
            None => self,
        }
    }

    /// The model with the en-passant shadow cleared.
    pub open spec fn spec_clear_shadow(self) -> BoardModel {
        BoardModel { pawn_shadow: None, ..self }
    }

    /// Rights bookkeeping for a move or capture by `piece` from `from`: a
    /// king move revokes both rights of the piece's side; a rook move from
    /// the king-side home file revokes the king side, from the queen-side
    /// home file the queen side.
    pub open spec fn spec_piece_rights_after(self, piece: Piece, from: Position) -> BoardModel {
        let side = piece.spec_color();
        if piece.spec_prefix() == 'K' {
            self.with_rights(side, self.rights_of(side).spec_revoke(CastleRights::Both))
        } else if piece.spec_prefix() == 'R' && from.file == 8 {
            self.with_rights(side, self.rights_of(side).spec_revoke(CastleRights::KingSide))
        } else if piece.spec_prefix() == 'R' && from.file == 1 {
            self.with_rights(side, self.rights_of(side).spec_revoke(CastleRights::QueenSide))
        } else {
            self
        }
    }

    /// Rights bookkeeping after one applied ply: a castle consumes the
    /// right for the side castled; a move or capture revokes per the
    /// acting piece.  The side affected is the acting piece's own color.
    pub open spec fn spec_rights_after(self, mv: Movement) -> BoardModel {
        match mv {
            Movement::CastleKingSide(piece) => self.with_rights(
                piece.spec_color(),
                self.rights_of(piece.spec_color()).spec_revoke(CastleRights::KingSide),
            ),
            Movement::CastleQueenSide(piece) => self.with_rights(
                piece.spec_color(),
                self.rights_of(piece.spec_color()).spec_revoke(CastleRights::QueenSide),
            ),
            Movement::Move(piece, from, _, _) => self.spec_piece_rights_after(piece, from),
            Movement::Capture(piece, from, _, _) => self.spec_piece_rights_after(piece, from),
        }
    }

    /// One replay step: a move or capture relocates its piece, then runs
    /// the en-passant bookkeeping, applies any promotion, and runs the
    /// rights bookkeeping; a castle runs the castle transition for the
    /// acting piece's color, clears the shadow, and consumes the right
    /// used.  Rights are thereby threaded through the whole replay and are
    /// only ever revoked, never restored.
    pub open spec fn spec_apply(self, mv: Movement) -> Result<BoardModel, Error> {
        match mv {
            Movement::Move(_, from, to, _) => match self.spec_move_piece(from, to) {
                Err(e) => Err(e),
                Ok(m) => Ok(m.spec_ep_update(mv).spec_apply_promotion(mv).spec_rights_after(mv)),
            },
            Movement::Capture(_, from, to, _) => match self.spec_move_piece(from, to) {
                Err(e) => Err(e),
                Ok(m) => Ok(m.spec_ep_update(mv).spec_apply_promotion(mv).spec_rights_after(mv)),
            },
            Movement::CastleKingSide(piece) => match self.spec_castle_king_side(
                piece.spec_color(),
            ) {
                Err(e) => Err(e),
                Ok(m) => Ok(m.spec_clear_shadow().spec_rights_after(mv)),
            },
            Movement::CastleQueenSide(piece) => match self.spec_castle_queen_side(
                piece.spec_color(),
            ) {
                Err(e) => Err(e),
                Ok(m) => Ok(m.spec_clear_shadow().spec_rights_after(mv)),
            },
        }
    }

    /// Replaying a movement log: the classical starting position with every
    /// logged movement applied in order.  The first failing step aborts
    /// the whole replay with its error.
    pub open spec fn spec_replay(movements: Seq<Movement>) -> Result<BoardModel, Error>
        decreases movements.len(),
    {
        if movements.len() == 0 {
            Ok(Self::classical())
        } else {
            match Self::spec_replay(movements.drop_last()) {
                Err(e) => Err(e),
                Ok(m) => m.spec_apply(movements.last()),
            }
        }
    }
}

/// Applying one movement's rights bookkeeping twice is the same as
/// applying it once: revocation is idempotent.
pub proof fn lemma_rights_after_idempotent(m: BoardModel, mv: Movement)
    ensures
        m.spec_rights_after(mv).spec_rights_after(mv) == m.spec_rights_after(mv),
{
    assert(m.spec_rights_after(mv).spec_rights_after(mv) =~= m.spec_rights_after(mv));
}

/// After a replay step, the step's own rights bookkeeping is already
/// settled: reapplying it changes nothing.
pub proof fn lemma_apply_rights_settled(m: BoardModel, mv: Movement)
    ensures
        (match m.spec_apply(mv) {
            Ok(m2) => m2.spec_rights_after(mv) == m2,
            Err(_) => true,
        }),
{
    match m.spec_apply(mv) {
        Ok(m2) => {
            match mv {
                Movement::Move(_, from, to, _) => {
                    lemma_rights_after_idempotent(
                        m.spec_move_piece(from, to)->Ok_0.spec_ep_update(mv).spec_apply_promotion(
                            mv,
                        ),
                        mv,
                    );
                },
                Movement::Capture(_, from, to, _) => {
                    lemma_rights_after_idempotent(
                        m.spec_move_piece(from, to)->Ok_0.spec_ep_update(mv).spec_apply_promotion(
                            mv,
                        ),
                        mv,
                    );
                },
                Movement::CastleKingSide(piece) => {
                    lemma_rights_after_idempotent(
                        m.spec_castle_king_side(piece.spec_color())->Ok_0.spec_clear_shadow(),
                        mv,
                    );
                },
                Movement::CastleQueenSide(piece) => {
                    lemma_rights_after_idempotent(
                        m.spec_castle_queen_side(piece.spec_color())->Ok_0.spec_clear_shadow(),
                        mv,
                    );
                },
            }
        },
        Err(_) => {},
    }
}

/// One replay step never adds a castle right: whatever it does to the
/// board, each side's rights afterwards are a subset of its rights
/// before.
pub proof fn lemma_apply_rights_monotone(m: BoardModel, mv: Movement, color: Color)
    ensures
        (match m.spec_apply(mv) {
            Ok(m2) => m2.rights_of(color).spec_le(m.rights_of(color)),
            Err(_) => true,
        }),
{
    match m.spec_apply(mv) {
        Ok(m2) => {
            crate::game::castle_rights::lemma_revoke_decreases(
                m.rights_of(color),
                CastleRights::Both,
            );
            crate::game::castle_rights::lemma_revoke_decreases(
                m.rights_of(color),
                CastleRights::KingSide,
            );
            crate::game::castle_rights::lemma_revoke_decreases(
                m.rights_of(color),
                CastleRights::QueenSide,
            );
        },
        Err(_) => {},
    }
}

/// The shadow invariant, for any replayable log of well-formed movements:
/// the replayed board is well formed, and whenever it carries a shadow,
/// the phantom square and the actual square are distinct, both lie on the
/// board, and the actual square is occupied (by the pawn that just
/// double-stepped, unless the same logged movement also overwrote it with
/// a promotion, which replay applies unconditionally and `play`'s
/// validation rejects).
pub proof fn lemma_replay_shadow_occupied(movements: Seq<Movement>)
    requires
        forall|i: int| 0 <= i < movements.len() ==> (#[trigger] movements[i]).wf(),
    ensures
        (match BoardModel::spec_replay(movements) {
            Ok(m) => m.wf() && (match m.pawn_shadow {
                Some((phantom, actual)) => phantom != actual && m.raw_at(actual) is Some,
                None => true,
            }),
            Err(_) => true,
        }),
    decreases movements.len(),
{
    if movements.len() > 0 {
        let prefix = movements.drop_last();
        assert forall|i: int| 0 <= i < prefix.len() implies (#[trigger] prefix[i]).wf() by {
            assert(prefix[i] == movements[i]);
        }
        lemma_replay_shadow_occupied(prefix);
        match BoardModel::spec_replay(prefix) {
            Ok(prev) => {
                let mv = movements.last();
                assert(mv.wf());
                lemma_step_shadow_occupied(prev, mv);
            },
            Err(_) => {},
        }
    }
}

/// One replay step keeps the shadow invariant: a move or capture that
/// arms the shadow points it at the destination just occupied by the
/// moved piece, which stays occupied through promotion and rights
/// bookkeeping; every other step leaves the shadow cleared.
proof fn lemma_step_shadow_occupied(prev: BoardModel, mv: Movement)
    requires
        mv.wf(),
        prev.wf(),
        (match prev.pawn_shadow {
            Some((phantom, actual)) => phantom != actual,
            None => true,
        }),
    ensures
        (match prev.spec_apply(mv) {
            Ok(m) => m.wf() && (match m.pawn_shadow {
                Some((phantom, actual)) => phantom != actual && m.raw_at(actual) is Some,
                None => true,
            }),
            Err(_) => true,
        }),
{
    match mv {
        Movement::Move(_, from, to, _) => {
            lemma_move_step_shadow_occupied(prev, mv, from, to);
        },
        Movement::Capture(_, from, to, _) => {
            lemma_move_step_shadow_occupied(prev, mv, from, to);
        },
        _ => {},
    }
}

/// The move and capture case of the shadow invariant step.
proof fn lemma_move_step_shadow_occupied(
    prev: BoardModel,
    mv: Movement,
    from: Position,
    to: Position,
)
    requires
        mv.wf(),
        prev.wf(),
        mv.spec_from() == Some(from),
        mv.spec_to() == Some(to),
        mv is Move || mv is Capture,
        (match prev.pawn_shadow {
            Some((phantom, actual)) => phantom != actual,
            None => true,
        }),
    ensures
        (match prev.spec_apply(mv) {
            Ok(m) => m.wf() && (match m.pawn_shadow {
                Some((phantom, actual)) => phantom != actual && m.raw_at(actual) is Some,
                None => true,
            }),
            Err(_) => true,
        }),
{
    match prev.spec_move_piece(from, to) {
        Ok(m1) => {
            // the destination square is occupied right after the move: the
            // only square emptied afterwards is the old shadow's actual
            // square, which differs from the destination since it differs
            // from the old phantom, and that equals the destination in the
            // removing branch
            assert(m1.raw_at(to) is Some) by {
                match prev.pawn_shadow {
                    Some((shadow, actual)) => {
                        if shadow == to && prev.raw_at(from) is Some {
                            lemma_square_index_distinct(actual, to);
                        }
                    },
                    None => {},
                }
            }
            let m2 = m1.spec_ep_update(mv);
            match m2.pawn_shadow {
                Some((phantom, actual)) => {
                    assert(actual == to && phantom.wf() && phantom != to);
                    let m3 = m2.spec_apply_promotion(mv);
                    assert(m3.raw_at(to) is Some);
                },
                None => {},
            }
        },
        Err(_) => {},
    }
}

/// Distinct well-formed squares have distinct tile indices.
proof fn lemma_square_index_distinct(p: Position, q: Position)
    requires
        p.wf(),
        q.wf(),
        p != q,
    ensures
        square_index(p) != square_index(q),
{
    if square_index(p) == square_index(q) {
        lemma_square_index_injective(p, q);
    }
}

/// A replay that fails on some prefix fails identically on the whole log.
pub proof fn lemma_replay_extends_error(movements: Seq<Movement>, k: int)
    requires
        0 <= k <= movements.len(),
        BoardModel::spec_replay(movements.subrange(0, k)) is Err,
    ensures
        BoardModel::spec_replay(movements) == BoardModel::spec_replay(movements.subrange(0, k)),
    decreases movements.len() - k,
{
    if k == movements.len() {
        assert(movements.subrange(0, k) =~= movements);
    } else {
        assert(movements.subrange(0, k + 1).drop_last() =~= movements.subrange(0, k));
        assert(BoardModel::spec_replay(movements.subrange(0, k + 1)) is Err);
        lemma_replay_extends_error(movements, k + 1);
    }
}

/// An ordered collection of exactly 64 tiles, one per file and rank pair,
/// with the two castle-rights values and the optional pawn shadow.
pub struct Board {
    pub tiles: Vec<Tile>,
    pub white_castle_rights: CastleRights,
    pub black_castle_rights: CastleRights,
    pub pawn_shadow: Option<(Position, Position)>,
}

impl View for Board {
    type V = BoardModel;

    open spec fn view(&self) -> BoardModel {
        BoardModel {
            squares: Seq::new(64, |i: int| self.tiles@[i].piece),
            white_castle_rights: self.white_castle_rights,
            black_castle_rights: self.black_castle_rights,
            pawn_shadow: self.pawn_shadow,
        }
    }
}

impl Board {
    /// A board is well formed when it holds exactly one tile per square in
    /// file-major order and its shadow squares, if present, are on the
    /// board.
    pub open spec fn wf(self) -> bool {
        &&& self.tiles@.len() == 64
        &&& forall|i: int|
            0 <= i < 64 ==> (#[trigger] self.tiles@[i]).position == (Position {
                file: (i / 8 + 1) as u8,
                rank: (i % 8 + 1) as u8,
            })
        &&& match self.pawn_shadow {
            Some((shadow, actual)) => shadow.wf() && actual.wf(),
            None => true,
        }
    }

    /// The tile index of a well-formed square.
    fn index_of(position: &Position) -> (r: usize)
        requires
            position.wf(),
        ensures
            r == square_index(*position),
            r < 64,
    {
        ((position.file - 1) * 8 + (position.rank - 1)) as usize
    }

    /// Builds an empty board holding the given castle rights.
    pub fn new(white_castle_rights: CastleRights, black_castle_rights: CastleRights) -> (r: Board)
        ensures
            r.wf(),
            r@ == BoardModel::empty(white_castle_rights, black_castle_rights),
    {
        let mut tiles: Vec<Tile> = Vec::new();
        let mut x: u8 = 1;
        while x <= 8
            invariant
                1 <= x <= 9,
                tiles@.len() == (x - 1) * 8,
                forall|i: int|
                    0 <= i < tiles@.len() ==> (#[trigger] tiles@[i]).position == (Position {
                        file: (i / 8 + 1) as u8,
                        rank: (i % 8 + 1) as u8,
                    }) && tiles@[i].piece is None,
            decreases 9 - x,
        {
            let mut y: u8 = 1;
            while y <= 8
                invariant
                    1 <= x <= 8,
                    1 <= y <= 9,
                    tiles@.len() == (x - 1) * 8 + (y - 1),
                    forall|i: int|
                        0 <= i < tiles@.len() ==> (#[trigger] tiles@[i]).position == (Position {
                            file: (i / 8 + 1) as u8,
                            rank: (i % 8 + 1) as u8,
                        }) && tiles@[i].piece is None,
                decreases 9 - y,
            {
                tiles.push(Tile::new(Position { file: x, rank: y }));
                y = y + 1;
            }
            x = x + 1;
        }
        let board = Board { tiles, white_castle_rights, black_castle_rights, pawn_shadow: None };
        proof {
            assert(board@.squares =~= BoardModel::empty(
                white_castle_rights,
                black_castle_rights,
            ).squares);
            assert(board@ =~= BoardModel::empty(white_castle_rights, black_castle_rights));
        }
        board
    }

    /// Places a piece on a square, overwriting any occupant.
    fn set_piece_at(&mut self, position: Position, piece: Piece)
        requires
            old(self).wf(),
            position.wf(),
        ensures
            final(self).wf(),
            final(self)@ == old(self)@.with_piece(position, piece),
    {
        let idx = Self::index_of(&position);
        let mut tile = self.tiles[idx];
        tile.set_piece(piece);
        self.tiles.set(idx, tile);
        proof {
            assert(self@.squares =~= old(self)@.with_piece(position, piece).squares);
            assert(self@ =~= old(self)@.with_piece(position, piece));
        }
    }

    /// Takes the piece off a square.  Fails if the square is empty.
    fn remove_piece_at(&mut self, position: Position) -> (r: Result<Piece, Error>)
        requires
            old(self).wf(),
            position.wf(),
        ensures
            final(self).wf(),
            match old(self)@.raw_at(position) {
                Some(p) => r == Ok::<Piece, Error>(p) && final(self)@ == old(self)@.without_piece(
                    position,
                ),
                None => r == Err::<Piece, Error>(Error::EmptyTile) && final(self)@ == old(self)@,
            },
    {
        let idx = Self::index_of(&position);
        let mut tile = self.tiles[idx];
        match tile.remove_piece() {
            Ok(piece) => {
                self.tiles.set(idx, tile);
                proof {
                    assert(self@.squares =~= old(self)@.without_piece(position).squares);
                    assert(self@ =~= old(self)@.without_piece(position));
                }
                Ok(piece)
            },
            Err(e) => Err(e),
        }
    }

    /// Looks a square up through the en-passant shadow: a lookup of the
    /// phantom square transparently redirects to the shadow's actual square.
    pub fn get_piece_at(&self, position: &Position) -> (r: Option<Piece>)
        requires
            self.wf(),
            position.wf(),
        ensures
            r == self@.at(*position),
    {
        if let Some((shadow, actual)) = self.pawn_shadow {
            if shadow == *position {
                let idx = Self::index_of(&actual);
                return self.tiles[idx].piece();
            }
        }
        let idx = Self::index_of(position);
        self.tiles[idx].piece()
    }

    /// Moves the piece on `from` to `to`; when `to` is the shadow's
    /// phantom square, also removes the pawn on the shadow's actual square.
    /// Fails if `from` is empty.
    fn move_piece(&mut self, from: Position, to: Position) -> (r: Result<(), Error>)
        requires
            old(self).wf(),
            from.wf(),
            to.wf(),
        ensures
            final(self).wf(),
            match old(self)@.spec_move_piece(from, to) {
                Ok(m) => r == Ok::<(), Error>(()) && final(self)@ == m,
                Err(e) => r == Err::<(), Error>(e),
            },
    {
        let piece = match self.remove_piece_at(from) {
            Ok(piece) => piece,
            Err(e) => {
                return Err(e);
            },
        };
        self.set_piece_at(to, piece);
        if let Some((shadow, actual)) = self.pawn_shadow {
            if shadow == to {
                match self.remove_piece_at(actual) {
                    Ok(_) => {},
                    Err(e) => {
                        return Err(e);
                    },
                };
            }
        }
        Ok(())
    }

    /// Whether `color` may castle on the side `right`, as a result: holds
    /// exactly when the held rights are that side or `Both`.
    pub fn has_castle_rights(&self, color: &Color, castle_right: &CastleRights) -> (r: Result<
        (),
        Error,
    >)
        ensures
            r == self@.spec_has_castle_rights(*color, *castle_right),
            r is Ok <==> self@.rights_of(*color).spec_permits(*castle_right),
    {
        let rights = self.get_castle_rights(color);
        if rights == CastleRights::Neither {
            return Err(Error::MissingCastleRight(*color, *castle_right));
        }
        if rights != *castle_right && rights != CastleRights::Both {
            return Err(Error::MissingCastleRight(*color, *castle_right));
        }
        Ok(())
    }

    /// Applies a king-side castle for the movement's color: checks the
    /// king-side right, then relocates king and rook.
    fn castle_king_side(&mut self, movement: &Movement) -> (r: Result<(), Error>)
        requires
            old(self).wf(),
        ensures
            final(self).wf(),
            match old(self)@.spec_castle_king_side(movement.spec_piece().spec_color()) {
                Ok(m) => r == Ok::<(), Error>(()) && final(self)@ == m,
                Err(e) => r == Err::<(), Error>(e),
            },
    {
        let color = movement.piece().color();
        match self.has_castle_rights(&color, &CastleRights::KingSide) {
            Ok(_) => {},
            Err(e) => {
                return Err(e);
            },
        };
        let rank: u8 = match color {
            Color::White => 1,
            Color::Black => 8,
        };
        match self.move_piece(Position { file: 5, rank }, Position { file: 7, rank }) {
            Ok(_) => {},
            Err(e) => {
                return Err(e);
            },
        };
        match self.move_piece(Position { file: 8, rank }, Position { file: 6, rank }) {
            Ok(_) => {},
            Err(e) => {
                return Err(e);
            },
        };
        Ok(())
    }

    /// Applies a queen-side castle for the movement's color: checks the
    /// queen-side right, then relocates king and rook.
    fn castle_queen_side(&mut self, movement: &Movement) -> (r: Result<(), Error>)
        requires
            old(self).wf(),
        ensures
            final(self).wf(),
            match old(self)@.spec_castle_queen_side(movement.spec_piece().spec_color()) {
                Ok(m) => r == Ok::<(), Error>(()) && final(self)@ == m,
                Err(e) => r == Err::<(), Error>(e),
            },
    {
        let color = movement.piece().color();
        match self.has_castle_rights(&color, &CastleRights::QueenSide) {
            Ok(_) => {},
            Err(e) => {
                return Err(e);
            },
        };
        let rank: u8 = match color {
            Color::White => 1,
            Color::Black => 8,
        };
        match self.move_piece(Position { file: 5, rank }, Position { file: 3, rank }) {
            Ok(_) => {},
            Err(e) => {
                return Err(e);
            },
        };
        match self.move_piece(Position { file: 1, rank }, Position { file: 4, rank }) {
            Ok(_) => {},
            Err(e) => {
                return Err(e);
            },
        };
        Ok(())
    }

    /// Replaces one side's rights by the result of revoking `castle_right`
    /// from them.
    pub fn revoke_castle_right(&mut self, color: &Color, castle_right: CastleRights)
        requires
            old(self).wf(),
        ensures
            final(self).wf(),
            final(self)@ == old(self)@.with_rights(
                *color,
                old(self)@.rights_of(*color).spec_revoke(castle_right),
            ),
    {
        match color {
            Color::White => {
                self.white_castle_rights = self.white_castle_rights.revoke_right(castle_right);
            },
            Color::Black => {
                self.black_castle_rights = self.black_castle_rights.revoke_right(castle_right);
            },
        }
        proof {
            assert(self@ =~= old(self)@.with_rights(
                *color,
                old(self)@.rights_of(*color).spec_revoke(castle_right),
            ));
        }
    }

    /// The castle rights a color holds.
    pub fn get_castle_rights(&self, color: &Color) -> (r: CastleRights)
        ensures
            r == self@.rights_of(*color),
    {
        match color {
            Color::White => self.white_castle_rights,
            Color::Black => self.black_castle_rights,
        }
    }

    /// Runs the en-passant bookkeeping for the most recently applied move
    /// or capture.
    fn check_for_en_passante(&mut self, movement: &Movement)
        requires
            old(self).wf(),
            movement.wf(),
        ensures
            final(self).wf(),
            final(self)@ == old(self)@.spec_ep_update(*movement),
    {
        if movement.piece().prefix() != Pawn::prefix() {
            self.pawn_shadow = None;
            proof {
                assert(self@ =~= old(self)@.spec_ep_update(*movement));
            }
            return ;
        }
        let from = match movement.from() {
            Some(from) => from,
            None => {
                return ;
            },
        };
        let to = match movement.to() {
            Some(to) => to,
            None => {
                return ;
            },
        };
        let mult: i16 = match movement.piece().color() {
            Color::White => 1,
            Color::Black => -1,
        };
        if to.rank as i16 - from.rank as i16 == 2 * mult {
            let shadow_rank: u8 = (to.rank as i16 - mult) as u8;
            self.pawn_shadow = Some((Position { file: to.file, rank: shadow_rank }, to));
            proof {
                assert(self@ =~= old(self)@.spec_ep_update(*movement));
            }
        } else {
            self.pawn_shadow = None;
            proof {
                assert(self@ =~= old(self)@.spec_ep_update(*movement));
            }
        }
    }

    /// Builds the classical starting position: back ranks on 1 and 8,
    /// pawns across ranks 2 and 7, full castle rights, no shadow.
    pub fn new_classical() -> (r: Board)
        ensures
            r.wf(),
            r@ == BoardModel::classical(),
    {
        let mut board = Board::new(CastleRights::Both, CastleRights::Both);

        board.set_piece_at(Position { file: 1, rank: 1 }, Piece::Rook(Rook::new(Color::White)));
        board.set_piece_at(Position { file: 2, rank: 1 }, Piece::Knight(Knight::new(Color::White)));
        board.set_piece_at(Position { file: 3, rank: 1 }, Piece::Bishop(Bishop::new(Color::White)));
        board.set_piece_at(Position { file: 4, rank: 1 }, Piece::Queen(Queen::new(Color::White)));
        board.set_piece_at(Position { file: 5, rank: 1 }, Piece::King(King::new(Color::White)));
        board.set_piece_at(Position { file: 6, rank: 1 }, Piece::Bishop(Bishop::new(Color::White)));
        board.set_piece_at(Position { file: 7, rank: 1 }, Piece::Knight(Knight::new(Color::White)));
        board.set_piece_at(Position { file: 8, rank: 1 }, Piece::Rook(Rook::new(Color::White)));

        board.set_piece_at(Position { file: 1, rank: 8 }, Piece::Rook(Rook::new(Color::Black)));
        board.set_piece_at(Position { file: 2, rank: 8 }, Piece::Knight(Knight::new(Color::Black)));
        board.set_piece_at(Position { file: 3, rank: 8 }, Piece::Bishop(Bishop::new(Color::Black)));
        board.set_piece_at(Position { file: 4, rank: 8 }, Piece::Queen(Queen::new(Color::Black)));
        board.set_piece_at(Position { file: 5, rank: 8 }, Piece::King(King::new(Color::Black)));
        board.set_piece_at(Position { file: 6, rank: 8 }, Piece::Bishop(Bishop::new(Color::Black)));
        board.set_piece_at(Position { file: 7, rank: 8 }, Piece::Knight(Knight::new(Color::Black)));
        board.set_piece_at(Position { file: 8, rank: 8 }, Piece::Rook(Rook::new(Color::Black)));

        let mut x: u8 = 1;
        while x <= 8
            invariant
                1 <= x <= 9,
                board.wf(),
                board@.white_castle_rights == CastleRights::Both,
                board@.black_castle_rights == CastleRights::Both,
                board@.pawn_shadow is None,
                board@.squares.len() == 64,
                forall|f: int, k: int|
                    1 <= f <= 8 && 1 <= k <= 8 && (k == 1 || k == 8 || (2 <= k <= 7 && f < x))
                        ==> board@.squares[(f - 1) * 8 + (k - 1)] == #[trigger] spec_classical_square(
                        f,
                        k,
                    ),
                forall|f: int, k: int|
                    1 <= f <= 8 && 2 <= k <= 7 && f >= x ==> (#[trigger] board@.squares[(f - 1) * 8
                        + (k - 1)]) is None,
            decreases 9 - x,
        {
            board.set_piece_at(Position { file: x, rank: 2 }, Piece::Pawn(Pawn::new(Color::White)));
            board.set_piece_at(Position { file: x, rank: 7 }, Piece::Pawn(Pawn::new(Color::Black)));
            x = x + 1;
        }
        proof {
            assert forall|i: int| 0 <= i < 64 implies board@.squares[i]
                == BoardModel::classical().squares[i] by {
                let f = i / 8 + 1;
                let k = i % 8 + 1;
                assert(board@.squares[(f - 1) * 8 + (k - 1)] == spec_classical_square(f, k));
            }
            assert(board@.squares =~= BoardModel::classical().squares);
            assert(board@ =~= BoardModel::classical());
        }
        board
    }

    /// Clears the en-passant shadow.
    fn clear_pawn_shadow(&mut self)
        requires
            old(self).wf(),
        ensures
            final(self).wf(),
            final(self)@ == old(self)@.spec_clear_shadow(),
    {
        self.pawn_shadow = None;
        proof {
            assert(self@ =~= old(self)@.spec_clear_shadow());
        }
    }

    /// Runs the rights bookkeeping for one applied movement: a castle
    /// consumes the right for the side castled; a king move revokes both
    /// rights of its side; a rook move from a home corner file revokes
    /// that side.
    pub(crate) fn apply_rights_bookkeeping(&mut self, movement: &Movement)
        requires
            old(self).wf(),
        ensures
            final(self).wf(),
            final(self)@ == old(self)@.spec_rights_after(*movement),
    {
        let side = movement.piece().color();
        match movement {
            Movement::CastleKingSide(_) => {
                self.revoke_castle_right(&side, CastleRights::KingSide);
            },
            Movement::CastleQueenSide(_) => {
                self.revoke_castle_right(&side, CastleRights::QueenSide);
            },
            _ => {
                if movement.piece().prefix() == King::prefix() {
                    self.revoke_castle_right(&side, CastleRights::Both);
                }
                if movement.piece().prefix() == Rook::prefix() {
                    let is_king_side = match movement.from() {
                        Some(from) => from.file == 8,
                        None => false,
                    };
                    if is_king_side {
                        self.revoke_castle_right(&side, CastleRights::KingSide);
                    }
                    let is_queen_side = match movement.from() {
                        Some(from) => from.file == 1,
                        None => false,
                    };
                    if is_queen_side {
                        self.revoke_castle_right(&side, CastleRights::QueenSide);
                    }
                }
            },
        }
    }

    /// Rebuilds a fresh classical board and replays every logged movement
    /// in order, with en-passant, promotion and castle-rights bookkeeping
    /// applied after each step.  Failure at any step aborts the whole
    /// replay with that step's error.
    pub fn from_movements(&self, movements: &Vec<Movement>) -> (r: Result<Board, Error>)
        requires
            forall|i: int| 0 <= i < movements@.len() ==> (#[trigger] movements@[i]).wf(),
        ensures
            match BoardModel::spec_replay(movements@) {
                Ok(m) => r matches Ok(b) && b@ == m && b.wf(),
                Err(e) => r == Err::<Board, Error>(e),
            },
    {
        let mut board = Board::new_classical();
        let n = movements.len();
        let mut i: usize = 0;
        while i < n
            invariant
                0 <= i <= n,
                n == movements@.len(),
                forall|j: int| 0 <= j < movements@.len() ==> (#[trigger] movements@[j]).wf(),
                board.wf(),
                BoardModel::spec_replay(movements@.subrange(0, i as int)) == Ok::<
                    BoardModel,
                    Error,
                >(board@),
            decreases n - i,
        {
            let movement = movements[i];
            let ghost prefix = movements@.subrange(0, i as int);
            let ghost next_prefix = movements@.subrange(0, i as int + 1);
            proof {
                assert(next_prefix.drop_last() =~= prefix);
                assert(next_prefix.last() == movement);
            }
            match movement {
                Movement::Move(_, from, to, _) => {
                    match board.move_piece(from, to) {
                        Ok(_) => {
                            board.check_for_en_passante(&movement);
                        },
                        Err(e) => {
                            proof {
                                lemma_replay_extends_error(movements@, i as int + 1);
                            }
                            return Err(e);
                        },
                    };
                    match movement.promotion() {
                        Some(promotion) => {
                            board.set_piece_at(to, promotion);
                        },
                        None => {},
                    };
                    board.apply_rights_bookkeeping(&movement);
                },
                Movement::Capture(_, from, to, _) => {
                    match board.move_piece(from, to) {
                        Ok(_) => {
                            board.check_for_en_passante(&movement);
                        },
                        Err(e) => {
                            proof {
                                lemma_replay_extends_error(movements@, i as int + 1);
                            }
                            return Err(e);
                        },
                    };
                    match movement.promotion() {
                        Some(promotion) => {
                            board.set_piece_at(to, promotion);
                        },
                        None => {},
                    };
                    board.apply_rights_bookkeeping(&movement);
                },
                Movement::CastleKingSide(_) => {
                    match board.castle_king_side(&movement) {
                        Ok(_) => {},
                        Err(e) => {
                            proof {
                                lemma_replay_extends_error(movements@, i as int + 1);
                            }
                            return Err(e);
                        },
                    };
                    board.clear_pawn_shadow();
                    board.apply_rights_bookkeeping(&movement);
                },
                Movement::CastleQueenSide(_) => {
                    match board.castle_queen_side(&movement) {
                        Ok(_) => {},
                        Err(e) => {
                            proof {
                                lemma_replay_extends_error(movements@, i as int + 1);
                            }
                            return Err(e);
                        },
                    };
                    board.clear_pawn_shadow();
                    board.apply_rights_bookkeeping(&movement);
                },
            }
            i = i + 1;
        }
        proof {
            assert(movements@.subrange(0, n as int) =~= movements@);
        }
        Ok(board)
    }

    /// Resolves an algebraic move description to its unique origin square:
    /// scans the 64 tiles for pieces of the requested kind and color whose
    /// candidate displacements reach the target, keeps those whose
    /// synthesized movement the game accepts as legal, filters by the
    /// disambiguator if one was supplied, and requires exactly one origin
    /// to remain: zero yields a no-piece-found failure, two an
    /// ambiguous-move failure naming both conflicting origins.
    pub fn get_position_by_movement(
        &self,
        game: &Game,
        piece: &Piece,
        to: &Position,
        is_capture: bool,
        rank_or_file: Option<char>,
        _movement_string: &str,
    ) -> (r: Result<Position, Error>)
        requires
            self.wf(),
            game.board.wf(),
            self@ == game.board@,
            to.wf(),
        ensures
            match r {
                Ok(from) => spec_is_candidate_origin(
                    *game,
                    *piece,
                    *to,
                    is_capture,
                    rank_or_file,
                    from,
                ) && forall|q: Position|
                    spec_is_candidate_origin(*game, *piece, *to, is_capture, rank_or_file, q)
                        ==> q == from,
                Err(Error::NoPieceFound) => forall|q: Position|
                    !spec_is_candidate_origin(*game, *piece, *to, is_capture, rank_or_file, q),
                Err(Error::AmbiguousMove(a, b)) => a != b && spec_is_candidate_origin(
                    *game,
                    *piece,
                    *to,
                    is_capture,
                    rank_or_file,
                    a,
                ) && spec_is_candidate_origin(*game, *piece, *to, is_capture, rank_or_file, b),
                _ => false,
            },
    {
        let mut deduced_from: Option<Position> = None;
        let mut i: usize = 0;
        while i < 64
            invariant
                0 <= i <= 64,
                self.wf(),
                game.board.wf(),
                self@ == game.board@,
                to.wf(),
                match deduced_from {
                    None => forall|q: Position|
                        q.wf() && square_index(q) < i ==> !spec_is_candidate_origin(
                            *game,
                            *piece,
                            *to,
                            is_capture,
                            rank_or_file,
                            q,
                        ),
                    Some(a) => {
                        &&& a.wf()
                        &&& square_index(a) < i
                        &&& spec_is_candidate_origin(
                            *game,
                            *piece,
                            *to,
                            is_capture,
                            rank_or_file,
                            a,
                        )
                        &&& forall|q: Position|
                            q.wf() && square_index(q) < i && spec_is_candidate_origin(
                                *game,
                                *piece,
                                *to,
                                is_capture,
                                rank_or_file,
                                q,
                            ) ==> q == a
                    },
                },
            decreases 64 - i,
        {
            let tile = self.tiles[i];
            let tile_pos = tile.position;
            let ghost deduced_before = deduced_from;
            proof {
                assert(square_index(tile_pos) == i);
            }
            if let Some(found) = tile.piece {
                if found.prefix() == piece.prefix() && found.color() == piece.color() {
                    let candidates = if is_capture {
                        found.possible_captures()
                    } else {
                        found.possible_moves()
                    };
                    let ghost cand_seq = candidates@;
                    let ghost delta_i = spec_delta(tile_pos, *to);
                    let n = candidates.len();
                    let mut j: usize = 0;
                    let mut matched = false;
                    while j < n && !matched
                        invariant
                            0 <= j <= n,
                            n == cand_seq.len(),
                            self.wf(),
                            game.board.wf(),
                            self@ == game.board@,
                            to.wf(),
                            0 <= i < 64,
                            tile == self.tiles@[i as int],
                            tile_pos == tile.position,
                            square_index(tile_pos) == i,
                            tile_pos.wf(),
                            tile.piece == Some(found),
                            found.spec_prefix() == piece.spec_prefix(),
                            found.spec_color() == piece.spec_color(),
                            candidates@ == cand_seq,
                            delta_i == spec_delta(tile_pos, *to),
                            forall|k: int|
                                0 <= k < cand_seq.len() ==> (#[trigger] cand_seq[k]).wf() && (
                                if is_capture {
                                    found.spec_valid_capture(cand_seq[k])
                                } else {
                                    found.spec_valid_move(cand_seq[k])
                                }),
                            forall|d: RelativePosition|
                                d.wf() && (if is_capture {
                                    found.spec_valid_capture(d)
                                } else {
                                    found.spec_valid_move(d)
                                }) ==> cand_seq.contains(d),
                            !matched ==> deduced_from == deduced_before,
                            !matched ==> (spec_is_candidate_origin(
                                *game,
                                *piece,
                                *to,
                                is_capture,
                                rank_or_file,
                                tile_pos,
                            ) ==> forall|k: int| 0 <= k < j ==> cand_seq[k] != delta_i),
                            matched ==> deduced_before is None && deduced_from == Some(tile_pos)
                                && spec_is_candidate_origin(
                                *game,
                                *piece,
                                *to,
                                is_capture,
                                rank_or_file,
                                tile_pos,
                            ),
                            match deduced_before {
                                None => forall|q: Position|
                                    q.wf() && square_index(q) < i ==> !spec_is_candidate_origin(
                                        *game,
                                        *piece,
                                        *to,
                                        is_capture,
                                        rank_or_file,
                                        q,
                                    ),
                                Some(a) => {
                                    &&& a.wf()
                                    &&& square_index(a) < i
                                    &&& spec_is_candidate_origin(
                                        *game,
                                        *piece,
                                        *to,
                                        is_capture,
                                        rank_or_file,
                                        a,
                                    )
                                    &&& forall|q: Position|
                                        q.wf() && square_index(q) < i && spec_is_candidate_origin(
                                            *game,
                                            *piece,
                                            *to,
                                            is_capture,
                                            rank_or_file,
                                            q,
                                        ) ==> q == a
                                },
                            },
                        decreases n - j,
                    {
                        let d = candidates[j];
                        match Position::from_relative(tile_pos, d) {
                            Ok(dest) => {
                                if dest.file == to.file && dest.rank == to.rank {
                                    proof {
                                        assert(d == delta_i);
                                        assert(d.file != 0 || d.rank != 0);
                                        assert(tile_pos != *to);
                                    }
                                    let would_be_movement = if is_capture {
                                        Movement::Capture(found, tile_pos, *to, None)
                                    } else {
                                        Movement::Move(found, tile_pos, *to, None)
                                    };
                                    if game.is_legal(would_be_movement) {
                                        if disambiguator_matches(rank_or_file, &tile_pos) {
                                            proof {
                                                assert(self@.raw_at(tile_pos) == Some(found));
                                                assert(spec_is_candidate_origin(
                                                    *game,
                                                    *piece,
                                                    *to,
                                                    is_capture,
                                                    rank_or_file,
                                                    tile_pos,
                                                ));
                                            }
                                            match deduced_from {
                                                Some(prev) => {
                                                    proof {
                                                        assert(prev != tile_pos);
                                                    }
                                                    return Err(
                                                        Error::AmbiguousMove(prev, tile_pos),
                                                    );
                                                },
                                                None => {
                                                    deduced_from = Some(tile_pos);
                                                    matched = true;
                                                },
                                            }
                                        }
                                    }
                                }
                            },
                            Err(_) => {},
                        }
                        j = j + 1;
                    }
                    proof {
                        if !matched {
                            if spec_is_candidate_origin(
                                *game,
                                *piece,
                                *to,
                                is_capture,
                                rank_or_file,
                                tile_pos,
                            ) {
                                assert(delta_i.wf());
                                assert(cand_seq.contains(delta_i));
                                let k = choose|k: int|
                                    0 <= k < cand_seq.len() && cand_seq[k] == delta_i;
                                assert(false);
                            }
                        }
                    }
                }
            }
            proof {
                assert forall|q: Position|
                    q.wf() && square_index(q) == i implies q == tile_pos by {
                    lemma_square_index_injective(q, tile_pos);
                }
            }
            i = i + 1;
        }
        match deduced_from {
            Some(from) => Ok(from),
            None => Err(Error::NoPieceFound),
        }
    }
}

/// The digit a character denotes, if any.
pub open spec fn spec_digit_value(c: char) -> Option<u8> {
    if c == '0' {
        Some(0u8)
    } else if c == '1' {
        Some(1u8)
    } else if c == '2' {
        Some(2u8)
    } else if c == '3' {
        Some(3u8)
    } else if c == '4' {
        Some(4u8)
    } else if c == '5' {
        Some(5u8)
    } else if c == '6' {
        Some(6u8)
    } else if c == '7' {
        Some(7u8)
    } else if c == '8' {
        Some(8u8)
    } else if c == '9' {
        Some(9u8)
    } else {
        None
    }
}

/// Returns the digit a character denotes, if any.
fn digit_value(c: char) -> (r: Option<u8>)
    ensures
        r == spec_digit_value(c),
{
    match c {
        '0' => Some(0),
        '1' => Some(1),
        '2' => Some(2),
        '3' => Some(3),
        '4' => Some(4),
        '5' => Some(5),
        '6' => Some(6),
        '7' => Some(7),
        '8' => Some(8),
        '9' => Some(9),
        _ => None,
    }
}

/// Whether an origin square matches a supplied disambiguator: a digit
/// character selects the origin's rank, any other character selects the
/// origin's file letter.
pub open spec fn spec_disambiguator_matches(rank_or_file: Option<char>, from: Position) -> bool {
    match rank_or_file {
        None => true,
        Some(c) => match spec_digit_value(c) {
            Some(d) => from.rank == d,
            None => from.spec_file_char() == c,
        },
    }
}

/// Returns whether an origin square matches a supplied disambiguator.
fn disambiguator_matches(rank_or_file: Option<char>, from: &Position) -> (r: bool)
    requires
        from.wf(),
    ensures
        r == spec_disambiguator_matches(rank_or_file, *from),
{
    match rank_or_file {
        Some(c) => match digit_value(c) {
            Some(d) => from.rank == d,
            None => from.file_char() == c,
        },
        None => true,
    }
}

/// The movement the resolver synthesizes for a candidate origin: a capture
/// or a plain move of the found piece, without promotion.
pub open spec fn spec_candidate_movement(
    found: Piece,
    from: Position,
    to: Position,
    is_capture: bool,
) -> Movement {
    if is_capture {
        Movement::Capture(found, from, to, None)
    } else {
        Movement::Move(found, from, to, None)
    }
}

/// Whether `from` can originate the described movement: the tile at `from`
/// physically holds a piece of the requested kind and color whose
/// obstruction-blind geometry reaches `to`, the synthesized movement
/// passes the game's validation, and the origin matches the disambiguator
/// if one was supplied.
pub open spec fn spec_is_candidate_origin(
    game: Game,
    piece: Piece,
    to: Position,
    is_capture: bool,
    rank_or_file: Option<char>,
    from: Position,
) -> bool {
    &&& from.wf()
    &&& match game.board@.raw_at(from) {
        Some(found) => {
            &&& found.spec_prefix() == piece.spec_prefix()
            &&& found.spec_color() == piece.spec_color()
            &&& (if is_capture {
                found.spec_valid_capture(spec_delta(from, to))
            } else {
                found.spec_valid_move(spec_delta(from, to))
            })
            &&& game.spec_validate(spec_candidate_movement(found, from, to, is_capture)) is Ok
            &&& spec_disambiguator_matches(rank_or_file, from)
        },
        None => false,
    }
}

/// Two well-formed squares with the same tile index are the same square.
pub proof fn lemma_square_index_injective(p: Position, q: Position)
    requires
        p.wf(),
        q.wf(),
        square_index(p) == square_index(q),
    ensures
        p == q,
{
}

} // verus!
