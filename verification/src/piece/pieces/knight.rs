use vstd::prelude::*;

use crate::board::relative_position::RelativePosition;
use crate::color::Color;

verus! {

/// A knight: jumps in the eight fixed L-shapes, two squares along one axis
/// and one along the other.
#[derive(PartialEq, Eq, Structural, Clone, Copy, Debug)]
pub struct Knight {
    pub color: Color,
}

impl Knight {
    pub fn new(color: Color) -> (r: Knight)
        ensures
            r == (Knight { color }),
    {
        Knight { color }
    }

    pub fn color(&self) -> (r: Color)
        ensures
            r == self.color,
    {
        self.color
    }

    /// The one-letter algebraic prefix of the kind.
    pub fn prefix() -> (c: char)
        ensures
            c == 'N',
    {
        'N'
    }

    /// The figurine glyph of the kind.
    pub fn icon() -> (c: char)
        ensures
            c == '♞',
    {
        '♞'
    }

    /// An L-shape: magnitudes 2 and 1 across the two axes.
    pub open spec fn spec_valid_move(d: RelativePosition) -> bool {
        ((d.file == 2 || d.file == -2) && (d.rank == 1 || d.rank == -1)) || ((d.file == 1 || d.file
            == -1) && (d.rank == 2 || d.rank == -2))
    }

    pub fn is_valid_move(&self, position: &RelativePosition) -> (r: bool)
        ensures
            r == Self::spec_valid_move(*position),
    {
        ((position.file == 2 || position.file == -2) && (position.rank == 1 || position.rank == -1))
            || ((position.file == 1 || position.file == -1) && (position.rank == 2 || position.rank
            == -2))
    }

    pub fn is_valid_capture(&self, position: &RelativePosition) -> (r: bool)
        ensures
            r == Self::spec_valid_move(*position),
    {
        self.is_valid_move(position)
    }

    pub fn is_valid_play(&self, position: &RelativePosition) -> (r: bool)
        ensures
            r == Self::spec_valid_move(*position),
    {
        self.is_valid_move(position)
    }

    /// Enumerates the eight L-shaped jumps, without duplicates.
    pub fn possible_moves(&self) -> (r: Vec<RelativePosition>)
        ensures
            forall|i: int|
                0 <= i < r@.len() ==> (#[trigger] r@[i]).wf() && Self::spec_valid_move(r@[i]),
            forall|d: RelativePosition| d.wf() && Self::spec_valid_move(d) ==> r@.contains(d),
            r@.no_duplicates(),
            r@.len() == 8,
    {
        let mut moves: Vec<RelativePosition> = Vec::new();
        moves.push(RelativePosition { file: -2, rank: -1 });
        moves.push(RelativePosition { file: -2, rank: 1 });
        moves.push(RelativePosition { file: -1, rank: -2 });
        moves.push(RelativePosition { file: -1, rank: 2 });
        moves.push(RelativePosition { file: 1, rank: -2 });
        moves.push(RelativePosition { file: 1, rank: 2 });
        moves.push(RelativePosition { file: 2, rank: -1 });
        moves.push(RelativePosition { file: 2, rank: 1 });
        proof {
            assert forall|d: RelativePosition| d.wf() && Self::spec_valid_move(d) implies
                moves@.contains(d) by {
                if d.file == -2 && d.rank == -1 {
                    assert(moves@[0] == d);
                } else if d.file == -2 && d.rank == 1 {
                    assert(moves@[1] == d);
                } else if d.file == -1 && d.rank == -2 {
                    assert(moves@[2] == d);
                } else if d.file == -1 && d.rank == 2 {
                    assert(moves@[3] == d);
                } else if d.file == 1 && d.rank == -2 {
                    assert(moves@[4] == d);
                } else if d.file == 1 && d.rank == 2 {
                    assert(moves@[5] == d);
                } else if d.file == 2 && d.rank == -1 {
                    assert(moves@[6] == d);
                } else {
                    assert(moves@[7] == d);
                }
            }
            assert(moves@.no_duplicates());
        }
        moves
    }

    pub fn possible_captures(&self) -> (r: Vec<RelativePosition>)
        ensures
            forall|i: int|
                0 <= i < r@.len() ==> (#[trigger] r@[i]).wf() && Self::spec_valid_move(r@[i]),
            forall|d: RelativePosition| d.wf() && Self::spec_valid_move(d) ==> r@.contains(d),
            r@.no_duplicates(),
            r@.len() == 8,
    {
        self.possible_moves()
    }

    pub fn possible_plays(&self) -> (r: Vec<RelativePosition>)
        ensures
            forall|i: int|
                0 <= i < r@.len() ==> (#[trigger] r@[i]).wf() && Self::spec_valid_move(r@[i]),
            forall|d: RelativePosition| d.wf() && Self::spec_valid_move(d) ==> r@.contains(d),
            r@.no_duplicates(),
            r@.len() == 8,
    {
        self.possible_moves()
    }
}

} // verus!
