use vstd::prelude::*;

use crate::board::relative_position::RelativePosition;
use crate::color::Color;
use crate::piece::movement::diagonal::diagonal_moves;
use crate::piece::movement::diagonal::is_diagonal;
use crate::piece::movement::diagonal::is_valid_diagonal_move;
use crate::piece::movement::linear::is_linear;
use crate::piece::movement::linear::is_valid_linear_move;
use crate::piece::movement::linear::linear_moves;

verus! {

/// A queen: slides any distance along a file, a rank or a diagonal.
#[derive(PartialEq, Eq, Structural, Clone, Copy, Debug)]
pub struct Queen {
    pub color: Color,
}

impl Queen {
    pub fn new(color: Color) -> (r: Queen)
        ensures
            r == (Queen { color }),
    {
        Queen { color }
    }

    pub fn color(&self) -> (r: Color)
        ensures
            r == self.color,
    {
        self.color
    }

    /// The one-letter algebraic prefix of the kind.
    pub fn prefix() -> (c: char)
        ensures
            c == 'Q',
    {
        'Q'
    }

    /// The figurine glyph of the kind.
    pub fn icon() -> (c: char)
        ensures
            c == '♛',
    {
        '♛'
    }

    /// Any diagonal or linear displacement.
    pub open spec fn spec_valid_move(d: RelativePosition) -> bool {
        is_diagonal(d) || is_linear(d)
    }

    pub fn is_valid_move(&self, position: &RelativePosition) -> (r: bool)
        ensures
            r == Self::spec_valid_move(*position),
    {
        is_valid_diagonal_move(position) || is_valid_linear_move(position)
    }

    pub fn is_valid_capture(&self, position: &RelativePosition) -> (r: bool)
        ensures
            r == Self::spec_valid_move(*position),
    {
        self.is_valid_move(position)
    }

    pub fn is_valid_play(&self, position: &RelativePosition) -> (r: bool)
        ensures
            r == Self::spec_valid_move(*position),
    {
        self.is_valid_move(position)
    }

    /// Enumerates the 56 diagonal and linear displacements, without
    /// duplicates.
    pub fn possible_moves(&self) -> (r: Vec<RelativePosition>)
        ensures
            forall|i: int|
                0 <= i < r@.len() ==> (#[trigger] r@[i]).wf() && Self::spec_valid_move(r@[i]),
            forall|d: RelativePosition| d.wf() && Self::spec_valid_move(d) ==> r@.contains(d),
            r@.no_duplicates(),
            r@.len() == 56,
    {
        let mut moves = diagonal_moves();
        let ghost diag = moves@;
        let mut lin = linear_moves();
        let ghost linv = lin@;
        moves.append(&mut lin);
        proof {
            assert(moves@ == diag + linv);
            assert forall|d: RelativePosition| d.wf() && Self::spec_valid_move(d) implies
                moves@.contains(d) by {
                if is_diagonal(d) {
                    let i = choose|i: int| 0 <= i < diag.len() && diag[i] == d;
                    assert(moves@[i] == d);
                } else {
                    let i = choose|i: int| 0 <= i < linv.len() && linv[i] == d;
                    assert(moves@[diag.len() + i] == d);
                }
            }
            // no element is both diagonal and linear, so the halves stay
            // disjoint and the whole list duplicate-free
            assert forall|i: int, j: int|
                0 <= i < moves@.len() && 0 <= j < moves@.len() && i != j implies moves@[i]
                != moves@[j] by {
                if i < diag.len() && j < diag.len() {
                    assert(moves@[i] == diag[i] && moves@[j] == diag[j]);
                } else if i >= diag.len() && j >= diag.len() {
                    assert(moves@[i] == linv[i - diag.len()] && moves@[j] == linv[j - diag.len()]);
                } else if i < diag.len() {
                    assert(is_diagonal(moves@[i]) && is_linear(moves@[j]));
                } else {
                    assert(is_linear(moves@[i]) && is_diagonal(moves@[j]));
                }
            }
            assert(moves@.no_duplicates());
        }
        moves
    }

    pub fn possible_captures(&self) -> (r: Vec<RelativePosition>)
        ensures
            forall|i: int|
                0 <= i < r@.len() ==> (#[trigger] r@[i]).wf() && Self::spec_valid_move(r@[i]),
            forall|d: RelativePosition| d.wf() && Self::spec_valid_move(d) ==> r@.contains(d),
            r@.no_duplicates(),
            r@.len() == 56,
    {
        self.possible_moves()
    }

    pub fn possible_plays(&self) -> (r: Vec<RelativePosition>)
        ensures
            forall|i: int|
                0 <= i < r@.len() ==> (#[trigger] r@[i]).wf() && Self::spec_valid_move(r@[i]),
            forall|d: RelativePosition| d.wf() && Self::spec_valid_move(d) ==> r@.contains(d),
            r@.no_duplicates(),
            r@.len() == 56,
    {
        self.possible_moves()
    }
}

} // verus!
