use vstd::prelude::*;

use crate::board::position::Position;
use crate::error::Error;
use crate::piece::Piece;

verus! {

/// One square of the board: a fixed position and an optional piece.
/// Exactly one tile exists per square; tiles are created once when the
/// board is built.
#[derive(Clone, Copy, Debug)]
pub struct Tile {
    pub position: Position,
    pub piece: Option<Piece>,
}

impl Tile {
    /// Creates an empty tile at the given square.
    pub fn new(position: Position) -> (r: Tile)
        ensures
            r.position == position,
            r.piece is None,
    {
        Tile { position, piece: None }
    }

    /// The square this tile occupies, fixed for its lifetime.
    pub fn position(&self) -> (r: Position)
        ensures
            r == self.position,
    {
        self.position
    }

    /// The piece standing on this tile, if any.
    pub fn piece(&self) -> (r: Option<Piece>)
        ensures
            r == self.piece,
    {
        self.piece
    }

    /// Places a piece on this tile, overwriting any occupant.
    pub fn set_piece(&mut self, piece: Piece)
        ensures
            final(self).position == old(self).position,
            final(self).piece == Some(piece),
    {
        self.piece = Some(piece);
    }

    /// Takes the piece off this tile.  Fails if the tile is empty.
    pub fn remove_piece(&mut self) -> (r: Result<Piece, Error>)
        ensures
            final(self).position == old(self).position,
            match old(self).piece {
                Some(p) => r == Ok::<Piece, Error>(p) && final(self).piece is None,
                None => r == Err::<Piece, Error>(Error::EmptyTile) && *final(self) == *old(self),
            },
    {
        match self.piece {
            Some(piece) => {
                self.piece = None;
                Ok(piece)
            },
            None => Err(Error::EmptyTile),
        }
    }
}

} // verus!
