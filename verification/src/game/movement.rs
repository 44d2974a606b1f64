use vstd::prelude::*;

use crate::board::position::Position;
use crate::piece::Piece;


verus! {

/// One ply of a game: a plain move, a capture, or a castle on either side.
/// `from`/`to` squares and an optional promotion piece exist only for moves
/// and captures; a castle carries just the acting piece.
#[derive(PartialEq, Eq, Structural, Clone, Copy, Debug)]
pub enum Movement {
    CastleKingSide(Piece),
    CastleQueenSide(Piece),
    Move(Piece, Position, Position, Option<Piece>),
    Capture(Piece, Position, Position, Option<Piece>),
}

impl Movement {
    /// A movement is well formed when its origin and destination, where it
    /// has them, are on the board and differ.
    pub open spec fn wf(self) -> bool {
        match self {
            Movement::Move(_, from, to, _) => from.wf() && to.wf() && from != to,
            Movement::Capture(_, from, to, _) => from.wf() && to.wf() && from != to,
            _ => true,
        }
    }

    /// Builds a plain move.  Fails exactly when origin and destination
    /// coincide.
    pub fn new_move(piece: Piece, from: Position, to: Position, promotion: Option<Piece>) -> (r:
        Option<Movement>)
        ensures
            r == (if from == to {
                Option::<Movement>::None
            } else {
                Some(Movement::Move(piece, from, to, promotion))
            }),
            from.wf() && to.wf() && from != to ==> (r matches Some(m) && m.wf()),
    {
        if !Movement::is_moving(&from, &to) {
            return None;
        }
        Some(Movement::Move(piece, from, to, promotion))
    }

    /// Builds a capture.  Fails exactly when origin and destination
    /// coincide.
    pub fn new_capture(piece: Piece, from: Position, to: Position, promotion: Option<Piece>) -> (r:
        Option<Movement>)
        ensures
            r == (if from == to {
                Option::<Movement>::None
            } else {
                Some(Movement::Capture(piece, from, to, promotion))
            }),
            from.wf() && to.wf() && from != to ==> (r matches Some(m) && m.wf()),
    {
        if !Movement::is_moving(&from, &to) {
            return None;
        }
        Some(Movement::Capture(piece, from, to, promotion))
    }

    /// The acting piece of the movement.
    pub open spec fn spec_piece(self) -> Piece {
        match self {
            Movement::Move(piece, _, _, _) => piece,
            Movement::Capture(piece, _, _, _) => piece,
            Movement::CastleKingSide(piece) => piece,
            Movement::CastleQueenSide(piece) => piece,
        }
    }

    pub fn piece(&self) -> (r: Piece)
        ensures
            r == self.spec_piece(),
    {
        match self {
            Movement::Move(piece, _, _, _) => *piece,
            Movement::Capture(piece, _, _, _) => *piece,
            Movement::CastleKingSide(piece) => *piece,
            Movement::CastleQueenSide(piece) => *piece,
        }
    }

    /// The origin square, defined only for moves and captures.
    pub open spec fn spec_from(self) -> Option<Position> {
        match self {
            Movement::Move(_, from, _, _) => Some(from),
            Movement::Capture(_, from, _, _) => Some(from),
            _ => None,
        }
    }

    pub fn from(&self) -> (r: Option<Position>)
        ensures
            r == self.spec_from(),
    {
        match self {
            Movement::Move(_, from, _, _) => Some(*from),
            Movement::Capture(_, from, _, _) => Some(*from),
            _ => None,
        }
    }

    /// The destination square, defined only for moves and captures.
    pub open spec fn spec_to(self) -> Option<Position> {
        match self {
            Movement::Move(_, _, to, _) => Some(to),
            Movement::Capture(_, _, to, _) => Some(to),
            _ => None,
        }
    }

    pub fn to(&self) -> (r: Option<Position>)
        ensures
            r == self.spec_to(),
    {
        match self {
            Movement::Move(_, _, to, _) => Some(*to),
            Movement::Capture(_, _, to, _) => Some(*to),
            _ => None,
        }
    }

    /// The promotion piece, defined only for moves and captures that carry
    /// one.
    pub open spec fn spec_promotion(self) -> Option<Piece> {
        match self {
            Movement::Move(_, _, _, promotion) => promotion,
            Movement::Capture(_, _, _, promotion) => promotion,
            _ => None,
        }
    }

    pub fn promotion(&self) -> (r: Option<Piece>)
        ensures
            r == self.spec_promotion(),
    {
        match self {
            Movement::Move(_, _, _, promotion) => *promotion,
            Movement::Capture(_, _, _, promotion) => *promotion,
            _ => None,
        }
    }

    /// Whether the two squares describe an actual displacement.
    fn is_moving(from: &Position, to: &Position) -> (r: bool)
        ensures
            r == (from != to),
    {
        !(from.file == to.file && from.rank == to.rank)
    }

    /// The algebraic text of a movement: the piece prefix, the origin, a
    /// capture marker where one applies, the destination and a promotion
    /// suffix for moves and captures; the literal castle texts otherwise.
    pub open spec fn spec_text(self) -> Seq<char> {
        match self {
            Movement::Move(piece, from, to, promotion) => seq![piece.spec_prefix()]
                + from.spec_text() + to.spec_text() + Self::spec_promotion_suffix(promotion),
            Movement::Capture(piece, from, to, promotion) => seq![piece.spec_prefix()]
                + from.spec_text() + seq!['x'] + to.spec_text() + Self::spec_promotion_suffix(
                promotion,
            ),
            Movement::CastleKingSide(_) => seq!['O', '-', 'O'],
            Movement::CastleQueenSide(_) => seq!['O', '-', 'O', '-', 'O'],
        }
    }

    /// The promotion suffix: `=` and the promoted kind's prefix, or
    /// nothing.
    pub open spec fn spec_promotion_suffix(promotion: Option<Piece>) -> Seq<char> {
        match promotion {
            Some(promo) => seq!['=', promo.spec_prefix()],
            None => Seq::empty(),
        }
    }

    /// The one-letter prefix of a piece's kind, as text.
    fn prefix_text(piece: &Piece) -> (r: &'static str)
        ensures
            r@ == seq![piece.spec_prefix()],
    {
        proof {
            reveal_strlit("P");
            reveal_strlit("N");
            reveal_strlit("B");
            reveal_strlit("R");
            reveal_strlit("Q");
            reveal_strlit("K");
        }
        let r = match piece {
            Piece::Pawn(_) => "P",
            Piece::Knight(_) => "N",
            Piece::Bishop(_) => "B",
            Piece::Rook(_) => "R",
            Piece::Queen(_) => "Q",
            Piece::King(_) => "K",
        };
        proof {
            assert(r@ =~= seq![piece.spec_prefix()]);
        }
        r
    }

    /// Renders this movement as human-readable algebraic text.
    pub fn to_text(&self) -> (r: String)
        requires
            self.wf(),
        ensures
            r@ == self.spec_text(),
    {
        match self {
            Movement::Move(piece, from, to, promotion) => {
                let mut out = String::from_str(Self::prefix_text(piece));
                out.append(from.to_text().as_str());
                out.append(to.to_text().as_str());
                match promotion {
                    Some(promo) => {
                        proof {
                            reveal_strlit("=");
                        }
                        out.append("=");
                        out.append(Self::prefix_text(promo));
                    },
                    None => {},
                }
                proof {
                    assert(out@ =~= self.spec_text());
                }
                out
            },
            Movement::Capture(piece, from, to, promotion) => {
                let mut out = String::from_str(Self::prefix_text(piece));
                out.append(from.to_text().as_str());
                proof {
                    reveal_strlit("x");
                }
                out.append("x");
                out.append(to.to_text().as_str());
                match promotion {
                    Some(promo) => {
                        proof {
                            reveal_strlit("=");
                        }
                        out.append("=");
                        out.append(Self::prefix_text(promo));
                    },
                    None => {},
                }
                proof {
                    assert(out@ =~= self.spec_text());
                }
                out
            },
            Movement::CastleKingSide(_) => {
                proof {
                    reveal_strlit("O-O");
                }
                let out = String::from_str("O-O");
                proof {
                    assert(out@ =~= self.spec_text());
                }
                out
            },
            Movement::CastleQueenSide(_) => {
                proof {
                    reveal_strlit("O-O-O");
                }
                let out = String::from_str("O-O-O");
                proof {
                    assert(out@ =~= self.spec_text());
                }
                out
            },
        }
    }
}

} // verus!
