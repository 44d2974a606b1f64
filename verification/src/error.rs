use vstd::prelude::*;

use crate::board::position::Position;
use crate::color::Color;
use crate::game::castle_rights::CastleRights;
use crate::piece::Piece;

verus! {

/// Everything that can go wrong while building squares, validating
/// movements, replaying a movement log, or resolving algebraic text.
#[derive(PartialEq, Eq, Structural, Clone, Copy, Debug)]
pub enum Error {
    /// A file, rank or displacement fell outside its valid range.
    OutOfBounds,
    /// Malformed position or movement text.
    ParseError,
    /// A piece was removed from, or moved off, an empty tile.
    EmptyTile,
    /// A move started from an unoccupied square.
    EmptyOrigin(Position),
    /// A plain move targeted an occupied square, or a capture targeted a
    /// square held by the mover's own side.
    OccupiedDestination(Position),
    /// A capture targeted an unoccupied square.
    EmptyDestination(Position),
    /// The acting piece's color was not the side to move.
    WrongTurn(Color),
    /// The displacement failed the piece's movement or capture geometry.
    InvalidGeometry,
    /// An intervening square was occupied: the blocking piece, its square,
    /// and the attempted origin and destination.
    PathObstructed(Piece, Position, Position, Position),
    /// The requested castle side is not held by the given color.
    MissingCastleRight(Color, CastleRights),
    /// A promotion was attached where the rules allow none.
    InvalidPromotion,
    /// No piece can perform the described move.
    NoPieceFound,
    /// Two origins can perform the described move.
    AmbiguousMove(Position, Position),
}

} // verus!
