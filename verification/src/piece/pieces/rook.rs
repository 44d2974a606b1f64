use vstd::prelude::*;

use crate::board::relative_position::RelativePosition;
use crate::color::Color;
use crate::piece::movement::linear::is_linear;
use crate::piece::movement::linear::is_valid_linear_move;
use crate::piece::movement::linear::linear_moves;

verus! {

/// A rook: slides any distance along a file or a rank.
#[derive(PartialEq, Eq, Structural, Clone, Copy, Debug)]
pub struct Rook {
    pub color: Color,
}

impl Rook {
    pub fn new(color: Color) -> (r: Rook)
        ensures
            r == (Rook { color }),
    {
        Rook { color }
    }

    pub fn color(&self) -> (r: Color)
        ensures
            r == self.color,
    {
        self.color
    }

    /// The one-letter algebraic prefix of the kind.
    pub fn prefix() -> (c: char)
        ensures
            c == 'R',
    {
        'R'
    }

    /// The figurine glyph of the kind.
    pub fn icon() -> (c: char)
        ensures
            c == '♜',
    {
        '♜'
    }

    pub fn is_valid_move(&self, position: &RelativePosition) -> (r: bool)
        ensures
            r == is_linear(*position),
    {
        is_valid_linear_move(position)
    }

    pub fn is_valid_capture(&self, position: &RelativePosition) -> (r: bool)
        ensures
            r == is_linear(*position),
    {
        self.is_valid_move(position)
    }

    pub fn is_valid_play(&self, position: &RelativePosition) -> (r: bool)
        ensures
            r == is_linear(*position),
    {
        self.is_valid_move(position)
    }

    /// Enumerates the 28 linear displacements, without duplicates.
    pub fn possible_moves(&self) -> (r: Vec<RelativePosition>)
        ensures
            forall|i: int| 0 <= i < r@.len() ==> (#[trigger] r@[i]).wf() && is_linear(r@[i]),
            forall|d: RelativePosition| d.wf() && is_linear(d) ==> r@.contains(d),
            r@.no_duplicates(),
            r@.len() == 28,
    {
        linear_moves()
    }

    pub fn possible_captures(&self) -> (r: Vec<RelativePosition>)
        ensures
            forall|i: int| 0 <= i < r@.len() ==> (#[trigger] r@[i]).wf() && is_linear(r@[i]),
            forall|d: RelativePosition| d.wf() && is_linear(d) ==> r@.contains(d),
            r@.no_duplicates(),
            r@.len() == 28,
    {
        self.possible_moves()
    }

    pub fn possible_plays(&self) -> (r: Vec<RelativePosition>)
        ensures
            forall|i: int| 0 <= i < r@.len() ==> (#[trigger] r@[i]).wf() && is_linear(r@[i]),
            forall|d: RelativePosition| d.wf() && is_linear(d) ==> r@.contains(d),
            r@.no_duplicates(),
            r@.len() == 28,
    {
        self.possible_moves()
    }
}

} // verus!
