use vstd::prelude::*;

use crate::board::relative_position::RelativePosition;
use crate::color::Color;

verus! {

/// A pawn: advances one or two steps straight ahead, captures one step
/// diagonally ahead.  "Ahead" is the rank direction of its color.
#[derive(PartialEq, Eq, Structural, Clone, Copy, Debug)]
pub struct Pawn {
    pub color: Color,
}

impl Pawn {
    pub fn new(color: Color) -> (r: Pawn)
        ensures
            r == (Pawn { color }),
    {
        Pawn { color }
    }

    pub fn color(&self) -> (r: Color)
        ensures
            r == self.color,
    {
        self.color
    }

    /// The one-letter algebraic prefix of the kind.
    pub fn prefix() -> (c: char)
        ensures
            c == 'P',
    {
        'P'
    }

    /// The figurine glyph of the kind.
    pub fn icon() -> (c: char)
        ensures
            c == '♟',
    {
        '♟'
    }

    /// The rank direction a pawn of this color advances in: +1 for White,
    /// -1 for Black.
    pub open spec fn spec_rank_multiplier(self) -> i8 {
        match self.color {
            Color::White => 1i8,
            Color::Black => -1i8,
        }
    }

    /// Returns the rank direction this pawn advances in.
    pub fn rank_multiplier(&self) -> (r: i8)
        ensures
            r == self.spec_rank_multiplier(),
    {
        match self.color {
            Color::White => 1,
            Color::Black => -1,
        }
    }

    /// Whether a displacement covers two ranks in either direction.
    pub open spec fn spec_is_double_move(to: RelativePosition) -> bool {
        to.rank == 2 || to.rank == -2
    }

    /// Returns whether the displacement covers two ranks.
    pub fn is_double_move(to: &RelativePosition) -> (r: bool)
        ensures
            r == Self::spec_is_double_move(*to),
    {
        to.rank == 2 || to.rank == -2
    }

    /// A pawn advance: straight ahead by one or two ranks.
    pub open spec fn spec_valid_move(self, d: RelativePosition) -> bool {
        d.file == 0 && (d.rank == self.spec_rank_multiplier() || d.rank == 2
            * self.spec_rank_multiplier())
    }

    /// A pawn capture: one step diagonally ahead.
    pub open spec fn spec_valid_capture(self, d: RelativePosition) -> bool {
        (d.file == 1 || d.file == -1) && d.rank == self.spec_rank_multiplier()
    }

    pub fn is_valid_move(&self, position: &RelativePosition) -> (r: bool)
        ensures
            r == self.spec_valid_move(*position),
    {
        let m: i8 = self.rank_multiplier();
        position.file == 0 && (position.rank as i16 == m as i16 || position.rank as i16 == 2
            * m as i16)
    }

    pub fn is_valid_capture(&self, position: &RelativePosition) -> (r: bool)
        ensures
            r == self.spec_valid_capture(*position),
    {
        let m: i8 = self.rank_multiplier();
        (position.file == 1 || position.file == -1) && position.rank == m
    }

    pub fn is_valid_play(&self, position: &RelativePosition) -> (r: bool)
        ensures
            r == (self.spec_valid_move(*position) || self.spec_valid_capture(*position)),
    {
        self.is_valid_move(position) || self.is_valid_capture(position)
    }

    /// Enumerates the two forward advances, exactly.
    pub fn possible_moves(&self) -> (r: Vec<RelativePosition>)
        ensures
            r@ == seq![
                (RelativePosition { file: 0i8, rank: self.spec_rank_multiplier() }),
                (RelativePosition { file: 0i8, rank: (2 * self.spec_rank_multiplier()) as i8 }),
            ],
            forall|i: int|
                0 <= i < r@.len() ==> (#[trigger] r@[i]).wf() && self.spec_valid_move(r@[i]),
            forall|d: RelativePosition| d.wf() && self.spec_valid_move(d) ==> r@.contains(d),
            r@.no_duplicates(),
            r@.len() == 2,
    {
        let m: i8 = self.rank_multiplier();
        let mut moves: Vec<RelativePosition> = Vec::new();
        moves.push(RelativePosition { file: 0, rank: m });
        moves.push(RelativePosition { file: 0, rank: 2 * m });
        proof {
            assert(moves@ =~= seq![
                (RelativePosition { file: 0i8, rank: self.spec_rank_multiplier() }),
                (RelativePosition { file: 0i8, rank: (2 * self.spec_rank_multiplier()) as i8 }),
            ]);
            assert forall|d: RelativePosition| d.wf() && self.spec_valid_move(d) implies
                moves@.contains(d) by {
                if d.rank == self.spec_rank_multiplier() {
                    assert(moves@[0] == d);
                } else {
                    assert(moves@[1] == d);
                }
            }
        }
        moves
    }

    /// Enumerates the two forward-diagonal capture steps, exactly.
    pub fn possible_captures(&self) -> (r: Vec<RelativePosition>)
        ensures
            r@ == seq![
                (RelativePosition { file: 1i8, rank: self.spec_rank_multiplier() }),
                (RelativePosition { file: -1i8, rank: self.spec_rank_multiplier() }),
            ],
            forall|i: int|
                0 <= i < r@.len() ==> (#[trigger] r@[i]).wf() && self.spec_valid_capture(r@[i]),
            forall|d: RelativePosition| d.wf() && self.spec_valid_capture(d) ==> r@.contains(d),
            r@.no_duplicates(),
            r@.len() == 2,
    {
        let m: i8 = self.rank_multiplier();
        let mut captures: Vec<RelativePosition> = Vec::new();
        captures.push(RelativePosition { file: 1, rank: m });
        captures.push(RelativePosition { file: -1, rank: m });
        proof {
            assert(captures@ =~= seq![
                (RelativePosition { file: 1i8, rank: self.spec_rank_multiplier() }),
                (RelativePosition { file: -1i8, rank: self.spec_rank_multiplier() }),
            ]);
            assert forall|d: RelativePosition| d.wf() && self.spec_valid_capture(d) implies
                captures@.contains(d) by {
                if d.file == 1 {
                    assert(captures@[0] == d);
                } else {
                    assert(captures@[1] == d);
                }
            }
        }
        captures
    }

    /// Enumerates the complete, obstruction-blind play displacements: the
    /// two forward advances followed by the two capture steps.
    pub fn possible_plays(&self) -> (r: Vec<RelativePosition>)
        ensures
            forall|i: int|
                0 <= i < r@.len() ==> (#[trigger] r@[i]).wf() && (self.spec_valid_move(r@[i])
                    || self.spec_valid_capture(r@[i])),
            forall|d: RelativePosition|
                d.wf() && (self.spec_valid_move(d) || self.spec_valid_capture(d)) ==> r@.contains(
                    d,
                ),
            r@.no_duplicates(),
            r@.len() == 4,
    {
        let mut plays = self.possible_moves();
        let mut captures = self.possible_captures();
        plays.append(&mut captures);
        proof {
            assert(plays@ =~= seq![
                (RelativePosition { file: 0i8, rank: self.spec_rank_multiplier() }),
                (RelativePosition { file: 0i8, rank: (2 * self.spec_rank_multiplier()) as i8 }),
                (RelativePosition { file: 1i8, rank: self.spec_rank_multiplier() }),
                (RelativePosition { file: -1i8, rank: self.spec_rank_multiplier() }),
            ]);
            assert forall|d: RelativePosition|
                d.wf() && (self.spec_valid_move(d) || self.spec_valid_capture(d)) implies
                plays@.contains(d) by {
                if d.file == 0 && d.rank == self.spec_rank_multiplier() {
                    assert(plays@[0] == d);
                } else if d.file == 0 {
                    assert(plays@[1] == d);
                } else if d.file == 1 {
                    assert(plays@[2] == d);
                } else {
                    assert(plays@[3] == d);
                }
            }
        }
        plays
    }
}

} // verus!
