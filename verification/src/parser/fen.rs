use vstd::prelude::*;

use crate::board::Board;
use crate::board::BoardModel;
use crate::game::castle_rights::CastleRights;

verus! {

/// A Forsyth-Edwards record.  Loading it into a board is an external
/// collaborator of the engine and is not implemented: `to_board` is a
/// stub.
pub struct Fen {
    pub fen: String,
}

impl Fen {
    /// Wraps a Forsyth-Edwards text.
    pub fn new(fen: String) -> (r: Fen)
        ensures
            r.fen == fen,
    {
        Fen { fen }
    }

    /// Placeholder for the FEN collaborator: produces an empty board with
    /// full castle rights instead of parsing the record.
    pub fn to_board(&self) -> (r: Board)
        ensures
            r.wf(),
            r@ == BoardModel::empty(CastleRights::Both, CastleRights::Both),
    {
        Board::new(CastleRights::Both, CastleRights::Both)
    }
}

} // verus!
