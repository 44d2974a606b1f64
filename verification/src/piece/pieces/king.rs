use vstd::prelude::*;

use crate::board::relative_position::RelativePosition;
use crate::color::Color;

verus! {

/// A king: moves one step in any of the eight directions.
#[derive(PartialEq, Eq, Structural, Clone, Copy, Debug)]
pub struct King {
    pub color: Color,
}

impl King {
    pub fn new(color: Color) -> (r: King)
        ensures
            r == (King { color }),
    {
        King { color }
    }

    pub fn color(&self) -> (r: Color)
        ensures
            r == self.color,
    {
        self.color
    }

    /// The one-letter algebraic prefix of the kind.
    pub fn prefix() -> (c: char)
        ensures
            c == 'K',
    {
        'K'
    }

    /// The figurine glyph of the kind.
    pub fn icon() -> (c: char)
        ensures
            c == '♚',
    {
        '♚'
    }

    /// A unit diagonal step.
    pub open spec fn spec_valid_diagonal(d: RelativePosition) -> bool {
        (d.file == 1 || d.file == -1) && (d.rank == 1 || d.rank == -1)
    }

    /// A unit linear step.
    pub open spec fn spec_valid_linear(d: RelativePosition) -> bool {
        (d.file == 0 && (d.rank == 1 || d.rank == -1)) || ((d.file == 1 || d.file == -1) && d.rank
            == 0)
    }

    /// A unit step in any of the eight directions.
    pub open spec fn spec_valid_move(d: RelativePosition) -> bool {
        Self::spec_valid_diagonal(d) || Self::spec_valid_linear(d)
    }

    pub fn is_valid_diagonal_move(&self, position: &RelativePosition) -> (r: bool)
        ensures
            r == Self::spec_valid_diagonal(*position),
    {
        (position.file == 1 || position.file == -1) && (position.rank == 1 || position.rank == -1)
    }

    pub fn is_valid_linear_move(&self, position: &RelativePosition) -> (r: bool)
        ensures
            r == Self::spec_valid_linear(*position),
    {
        (position.file == 0 && (position.rank == 1 || position.rank == -1)) || ((position.file == 1
            || position.file == -1) && position.rank == 0)
    }

    pub fn is_valid_move(&self, position: &RelativePosition) -> (r: bool)
        ensures
            r == Self::spec_valid_move(*position),
    {
        self.is_valid_diagonal_move(position) || self.is_valid_linear_move(position)
    }

    pub fn is_valid_capture(&self, position: &RelativePosition) -> (r: bool)
        ensures
            r == Self::spec_valid_move(*position),
    {
        self.is_valid_move(position)
    }

    pub fn is_valid_play(&self, position: &RelativePosition) -> (r: bool)
        ensures
            r == Self::spec_valid_move(*position),
    {
        self.is_valid_move(position)
    }

    /// Enumerates the eight unit steps, without duplicates.
    pub fn possible_moves(&self) -> (r: Vec<RelativePosition>)
        ensures
            forall|i: int|
                0 <= i < r@.len() ==> (#[trigger] r@[i]).wf() && Self::spec_valid_move(r@[i]),
            forall|d: RelativePosition| d.wf() && Self::spec_valid_move(d) ==> r@.contains(d),
            r@.no_duplicates(),
            r@.len() == 8,
    {
        let mut moves: Vec<RelativePosition> = Vec::new();
        moves.push(RelativePosition { file: -1, rank: -1 });
        moves.push(RelativePosition { file: -1, rank: 1 });
        moves.push(RelativePosition { file: 1, rank: -1 });
        moves.push(RelativePosition { file: 1, rank: 1 });
        moves.push(RelativePosition { file: 0, rank: -1 });
        moves.push(RelativePosition { file: 0, rank: 1 });
        moves.push(RelativePosition { file: -1, rank: 0 });
        moves.push(RelativePosition { file: 1, rank: 0 });
        proof {
            assert forall|d: RelativePosition| d.wf() && Self::spec_valid_move(d) implies
                moves@.contains(d) by {
                if d.file == -1 && d.rank == -1 {
                    assert(moves@[0] == d);
                } else if d.file == -1 && d.rank == 1 {
                    assert(moves@[1] == d);
                } else if d.file == 1 && d.rank == -1 {
                    assert(moves@[2] == d);
                } else if d.file == 1 && d.rank == 1 {
                    assert(moves@[3] == d);
                } else if d.file == 0 && d.rank == -1 {
                    assert(moves@[4] == d);
                } else if d.file == 0 && d.rank == 1 {
                    assert(moves@[5] == d);
                } else if d.file == -1 && d.rank == 0 {
                    assert(moves@[6] == d);
                } else {
                    assert(moves@[7] == d);
                }
            }
            assert(moves@.no_duplicates());
        }
        moves
    }

    pub fn possible_captures(&self) -> (r: Vec<RelativePosition>)
        ensures
            forall|i: int|
                0 <= i < r@.len() ==> (#[trigger] r@[i]).wf() && Self::spec_valid_move(r@[i]),
            forall|d: RelativePosition| d.wf() && Self::spec_valid_move(d) ==> r@.contains(d),
            r@.no_duplicates(),
            r@.len() == 8,
    {
        self.possible_moves()
    }

    pub fn possible_plays(&self) -> (r: Vec<RelativePosition>)
        ensures
            forall|i: int|
                0 <= i < r@.len() ==> (#[trigger] r@[i]).wf() && Self::spec_valid_move(r@[i]),
            forall|d: RelativePosition| d.wf() && Self::spec_valid_move(d) ==> r@.contains(d),
            r@.no_duplicates(),
            r@.len() == 8,
    {
        self.possible_moves()
    }
}

} // verus!
