use vstd::prelude::*;

use crate::board::relative_position::RelativePosition;
use crate::color::Color;
use crate::piece::movement::diagonal::diagonal_moves;
use crate::piece::movement::diagonal::is_diagonal;
use crate::piece::movement::diagonal::is_valid_diagonal_move;

verus! {

/// A bishop: slides any distance along a diagonal.
#[derive(PartialEq, Eq, Structural, Clone, Copy, Debug)]
pub struct Bishop {
    pub color: Color,
}

impl Bishop {
    pub fn new(color: Color) -> (r: Bishop)
        ensures
            r == (Bishop { color }),
    {
        Bishop { color }
    }

    pub fn color(&self) -> (r: Color)
        ensures
            r == self.color,
    {
        self.color
    }

    /// The one-letter algebraic prefix of the kind.
    pub fn prefix() -> (c: char)
        ensures
            c == 'B',
    {
        'B'
    }

    /// The figurine glyph of the kind.
    pub fn icon() -> (c: char)
        ensures
            c == '♝',
    {
        '♝'
    }

    pub fn is_valid_move(&self, position: &RelativePosition) -> (r: bool)
        ensures
            r == is_diagonal(*position),
    {
        is_valid_diagonal_move(position)
    }

    pub fn is_valid_capture(&self, position: &RelativePosition) -> (r: bool)
        ensures
            r == is_diagonal(*position),
    {
        self.is_valid_move(position)
    }

    pub fn is_valid_play(&self, position: &RelativePosition) -> (r: bool)
        ensures
            r == is_diagonal(*position),
    {
        self.is_valid_move(position)
    }

    /// Enumerates the 28 diagonal displacements, without duplicates.
    pub fn possible_moves(&self) -> (r: Vec<RelativePosition>)
        ensures
            forall|i: int| 0 <= i < r@.len() ==> (#[trigger] r@[i]).wf() && is_diagonal(r@[i]),
            forall|d: RelativePosition| d.wf() && is_diagonal(d) ==> r@.contains(d),
            r@.no_duplicates(),
            r@.len() == 28,
    {
        diagonal_moves()
    }

    pub fn possible_captures(&self) -> (r: Vec<RelativePosition>)
        ensures
            forall|i: int| 0 <= i < r@.len() ==> (#[trigger] r@[i]).wf() && is_diagonal(r@[i]),
            forall|d: RelativePosition| d.wf() && is_diagonal(d) ==> r@.contains(d),
            r@.no_duplicates(),
            r@.len() == 28,
    {
        self.possible_moves()
    }

    pub fn possible_plays(&self) -> (r: Vec<RelativePosition>)
        ensures
            forall|i: int| 0 <= i < r@.len() ==> (#[trigger] r@[i]).wf() && is_diagonal(r@[i]),
            forall|d: RelativePosition| d.wf() && is_diagonal(d) ==> r@.contains(d),
            r@.no_duplicates(),
            r@.len() == 28,
    {
        self.possible_moves()
    }
}

} // verus!
