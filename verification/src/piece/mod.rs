use vstd::math::abs;
use vstd::prelude::*;

use crate::board::position::Position;
use crate::board::relative_position::RelativePosition;
use crate::board::Board;
use crate::board::BoardModel;
use crate::error::Error;
use crate::color::Color;
use crate::piece::movement::diagonal::is_diagonal;
use crate::piece::movement::linear::is_linear;
use crate::piece::pieces::bishop::Bishop;
use crate::piece::pieces::king::King;
use crate::piece::pieces::knight::Knight;
use crate::piece::pieces::pawn::Pawn;
use crate::piece::pieces::queen::Queen;
use crate::piece::pieces::rook::Rook;

pub mod movement;
pub mod pieces;

verus! {

/// A chess piece: one of the six kinds, each carrying its color.  A piece
/// has no identity beyond kind and color: it is a value, created fresh
/// whenever one needs to be placed or compared.
#[derive(PartialEq, Eq, Structural, Clone, Copy, Debug)]
pub enum Piece {
    Pawn(Pawn),
    Knight(Knight),
    Bishop(Bishop),
    Rook(Rook),
    Queen(Queen),
    King(King),
}

/// Builds a piece of the kind named by its one-letter algebraic prefix, or
/// nothing for an unknown prefix.
pub open spec fn spec_piece_factory(prefix: char, color: Color) -> Option<Piece> {
    if prefix == 'P' {
        Some(Piece::Pawn(Pawn { color }))
    } else if prefix == 'R' {
        Some(Piece::Rook(Rook { color }))
    } else if prefix == 'N' {
        Some(Piece::Knight(Knight { color }))
    } else if prefix == 'B' {
        Some(Piece::Bishop(Bishop { color }))
    } else if prefix == 'Q' {
        Some(Piece::Queen(Queen { color }))
    } else if prefix == 'K' {
        Some(Piece::King(King { color }))
    } else {
        None
    }
}

/// Creates a fresh piece from a one-letter prefix and a color.  Returns
/// nothing when the prefix names no kind.
pub fn piece_factory(prefix: char, color: Color) -> (r: Option<Piece>)
    ensures
        r == spec_piece_factory(prefix, color),
{
    match prefix {
        'P' => Some(Piece::Pawn(Pawn::new(color))),
        'R' => Some(Piece::Rook(Rook::new(color))),
        'N' => Some(Piece::Knight(Knight::new(color))),
        'B' => Some(Piece::Bishop(Bishop::new(color))),
        'Q' => Some(Piece::Queen(Queen::new(color))),
        'K' => Some(Piece::King(King::new(color))),
        _ => None,
    }
}

impl Piece {
    /// The color this piece plays for.
    pub open spec fn spec_color(self) -> Color {
        match self {
            Piece::Pawn(p) => p.color,
            Piece::Knight(p) => p.color,
            Piece::Bishop(p) => p.color,
            Piece::Rook(p) => p.color,
            Piece::Queen(p) => p.color,
            Piece::King(p) => p.color,
        }
    }

    /// The one-letter algebraic prefix of this piece's kind.
    pub open spec fn spec_prefix(self) -> char {
        match self {
            Piece::Pawn(_) => 'P',
            Piece::Knight(_) => 'N',
            Piece::Bishop(_) => 'B',
            Piece::Rook(_) => 'R',
            Piece::Queen(_) => 'Q',
            Piece::King(_) => 'K',
        }
    }

    /// The obstruction-blind movement geometry of this piece.
    pub open spec fn spec_valid_move(self, d: RelativePosition) -> bool {
        match self {
            Piece::Pawn(p) => p.spec_valid_move(d),
            Piece::Knight(_) => Knight::spec_valid_move(d),
            Piece::Bishop(_) => is_diagonal(d),
            Piece::Rook(_) => is_linear(d),
            Piece::Queen(_) => Queen::spec_valid_move(d),
            Piece::King(_) => King::spec_valid_move(d),
        }
    }

    /// The obstruction-blind capture geometry of this piece: identical to
    /// the movement geometry for every kind but the pawn.
    pub open spec fn spec_valid_capture(self, d: RelativePosition) -> bool {
        match self {
            Piece::Pawn(p) => p.spec_valid_capture(d),
            _ => self.spec_valid_move(d),
        }
    }

    /// Either a valid move or a valid capture.
    pub open spec fn spec_valid_play(self, d: RelativePosition) -> bool {
        self.spec_valid_move(d) || self.spec_valid_capture(d)
    }

    /// How many obstruction-blind movement displacements the kind has.
    pub open spec fn spec_move_count(self) -> int {
        match self {
            Piece::Pawn(_) => 2,
            Piece::Knight(_) => 8,
            Piece::Bishop(_) => 28,
            Piece::Rook(_) => 28,
            Piece::Queen(_) => 56,
            Piece::King(_) => 8,
        }
    }

    /// How many obstruction-blind capture displacements the kind has.
    pub open spec fn spec_capture_count(self) -> int {
        match self {
            Piece::Pawn(_) => 2,
            _ => self.spec_move_count(),
        }
    }

    /// How many obstruction-blind play displacements the kind has: for a
    /// pawn its two advances and two capture steps, for every other kind
    /// its movement displacements.
    pub open spec fn spec_play_count(self) -> int {
        match self {
            Piece::Pawn(_) => 4,
            _ => self.spec_move_count(),
        }
    }

    pub fn color(&self) -> (r: Color)
        ensures
            r == self.spec_color(),
    {
        match self {
            Piece::Pawn(p) => p.color(),
            Piece::Knight(p) => p.color(),
            Piece::Bishop(p) => p.color(),
            Piece::Rook(p) => p.color(),
            Piece::Queen(p) => p.color(),
            Piece::King(p) => p.color(),
        }
    }

    pub fn prefix(&self) -> (r: char)
        ensures
            r == self.spec_prefix(),
    {
        match self {
            Piece::Pawn(_) => Pawn::prefix(),
            Piece::Knight(_) => Knight::prefix(),
            Piece::Bishop(_) => Bishop::prefix(),
            Piece::Rook(_) => Rook::prefix(),
            Piece::Queen(_) => Queen::prefix(),
            Piece::King(_) => King::prefix(),
        }
    }

    /// The figurine glyph of this piece's kind.
    pub open spec fn spec_icon(self) -> char {
        match self {
            Piece::Pawn(_) => '♟',
            Piece::Knight(_) => '♞',
            Piece::Bishop(_) => '♝',
            Piece::Rook(_) => '♜',
            Piece::Queen(_) => '♛',
            Piece::King(_) => '♚',
        }
    }

    pub fn icon(&self) -> (r: char)
        ensures
            r == self.spec_icon(),
    {
        match self {
            Piece::Pawn(_) => Pawn::icon(),
            Piece::Knight(_) => Knight::icon(),
            Piece::Bishop(_) => Bishop::icon(),
            Piece::Rook(_) => Rook::icon(),
            Piece::Queen(_) => Queen::icon(),
            Piece::King(_) => King::icon(),
        }
    }

    /// The long name of this piece's kind.
    pub fn name(&self) -> (r: &'static str)
        ensures
            self is Pawn ==> r@ == "Pawn"@,
            self is Knight ==> r@ == "Knight"@,
            self is Bishop ==> r@ == "Bishop"@,
            self is Rook ==> r@ == "Rook"@,
            self is Queen ==> r@ == "Queen"@,
            self is King ==> r@ == "King"@,
    {
        match self {
            Piece::Pawn(_) => "Pawn",
            Piece::Knight(_) => "Knight",
            Piece::Bishop(_) => "Bishop",
            Piece::Rook(_) => "Rook",
            Piece::Queen(_) => "Queen",
            Piece::King(_) => "King",
        }
    }

    /// The conventional material value of this piece's kind.
    pub open spec fn spec_value(self) -> u8 {
        match self {
            Piece::Pawn(_) => 1,
            Piece::Knight(_) => 3,
            Piece::Bishop(_) => 3,
            Piece::Rook(_) => 5,
            Piece::Queen(_) => 9,
            Piece::King(_) => 0,
        }
    }

    pub fn value(&self) -> (r: u8)
        ensures
            r == self.spec_value(),
    {
        match self {
            Piece::Pawn(_) => 1,
            Piece::Knight(_) => 3,
            Piece::Bishop(_) => 3,
            Piece::Rook(_) => 5,
            Piece::Queen(_) => 9,
            Piece::King(_) => 0,
        }
    }

    pub fn is_valid_move(&self, position: &RelativePosition) -> (r: bool)
        ensures
            r == self.spec_valid_move(*position),
    {
        match self {
            Piece::Pawn(p) => p.is_valid_move(position),
            Piece::Knight(p) => p.is_valid_move(position),
            Piece::Bishop(p) => p.is_valid_move(position),
            Piece::Rook(p) => p.is_valid_move(position),
            Piece::Queen(p) => p.is_valid_move(position),
            Piece::King(p) => p.is_valid_move(position),
        }
    }

    pub fn is_valid_capture(&self, position: &RelativePosition) -> (r: bool)
        ensures
            r == self.spec_valid_capture(*position),
    {
        match self {
            Piece::Pawn(p) => p.is_valid_capture(position),
            Piece::Knight(p) => p.is_valid_capture(position),
            Piece::Bishop(p) => p.is_valid_capture(position),
            Piece::Rook(p) => p.is_valid_capture(position),
            Piece::Queen(p) => p.is_valid_capture(position),
            Piece::King(p) => p.is_valid_capture(position),
        }
    }

    pub fn is_valid_play(&self, position: &RelativePosition) -> (r: bool)
        ensures
            r == self.spec_valid_play(*position),
    {
        self.is_valid_move(position) || self.is_valid_capture(position)
    }

    /// Enumerates the complete, obstruction-blind movement displacements of
    /// this piece: a displacement is listed exactly once if and only if it
    /// is in range and satisfies the piece's movement geometry.
    pub fn possible_moves(&self) -> (r: Vec<RelativePosition>)
        ensures
            forall|i: int|
                0 <= i < r@.len() ==> (#[trigger] r@[i]).wf() && self.spec_valid_move(r@[i]),
            forall|d: RelativePosition| d.wf() && self.spec_valid_move(d) ==> r@.contains(d),
            r@.no_duplicates(),
            r@.len() == self.spec_move_count(),
    {
        match self {
            Piece::Pawn(p) => p.possible_moves(),
            Piece::Knight(p) => p.possible_moves(),
            Piece::Bishop(p) => p.possible_moves(),
            Piece::Rook(p) => p.possible_moves(),
            Piece::Queen(p) => p.possible_moves(),
            Piece::King(p) => p.possible_moves(),
        }
    }

    /// Enumerates the complete, obstruction-blind capture displacements of
    /// this piece, each exactly once.
    pub fn possible_captures(&self) -> (r: Vec<RelativePosition>)
        ensures
            forall|i: int|
                0 <= i < r@.len() ==> (#[trigger] r@[i]).wf() && self.spec_valid_capture(r@[i]),
            forall|d: RelativePosition| d.wf() && self.spec_valid_capture(d) ==> r@.contains(d),
            r@.no_duplicates(),
            r@.len() == self.spec_capture_count(),
    {
        match self {
            Piece::Pawn(p) => p.possible_captures(),
            Piece::Knight(p) => p.possible_captures(),
            Piece::Bishop(p) => p.possible_captures(),
            Piece::Rook(p) => p.possible_captures(),
            Piece::Queen(p) => p.possible_captures(),
            Piece::King(p) => p.possible_captures(),
        }
    }

    /// Enumerates the complete, obstruction-blind play displacements of
    /// this piece, each exactly once: a displacement is listed if and only
    /// if it is a valid move or a valid capture.
    pub fn possible_plays(&self) -> (r: Vec<RelativePosition>)
        ensures
            forall|i: int|
                0 <= i < r@.len() ==> (#[trigger] r@[i]).wf() && self.spec_valid_play(r@[i]),
            forall|d: RelativePosition| d.wf() && self.spec_valid_play(d) ==> r@.contains(d),
            r@.no_duplicates(),
            r@.len() == self.spec_play_count(),
    {
        match self {
            Piece::Pawn(p) => p.possible_plays(),
            Piece::Knight(p) => p.possible_plays(),
            Piece::Bishop(p) => p.possible_plays(),
            Piece::Rook(p) => p.possible_plays(),
            Piece::Queen(p) => p.possible_plays(),
            Piece::King(p) => p.possible_plays(),
        }
    }

    /// The shared obstruction check: walks every square strictly between
    /// `from` and `to` (exclusive of both ends) along the unit direction
    /// vector and fails on the first occupied one.  Single-step moves have
    /// no interior squares and succeed trivially.
    pub fn will_colide(&self, board: &Board, from: &Position, to: &Position) -> (r: Result<
        (),
        Error,
    >)
        requires
            board.wf(),
            from.wf(),
            to.wf(),
        ensures
            r == spec_will_colide(board@, *from, *to),
    {
        let df: i16 = to.file as i16 - from.file as i16;
        let dr: i16 = to.rank as i16 - from.rank as i16;
        let sf: i16 = if df > 0 {
            1
        } else if df < 0 {
            -1
        } else {
            0
        };
        let sr: i16 = if dr > 0 {
            1
        } else if dr < 0 {
            -1
        } else {
            0
        };
        if df == 0 && dr == 0 {
            return Ok(());
        }
        let is_diag = df == dr || df == -dr;
        let is_line = df == 0 || dr == 0;
        if !is_diag && !is_line {
            return Ok(());
        }
        let adf: i16 = if df >= 0 {
            df
        } else {
            -df
        };
        let adr: i16 = if dr >= 0 {
            dr
        } else {
            -dr
        };
        let total: i16 = if is_diag {
            adf
        } else {
            adf + adr
        };
        let mut left: i16 = total - 1;
        let mut f: i16 = from.file as i16 + sf;
        let mut r: i16 = from.rank as i16 + sr;
        proof {
            assert(spec_will_colide(board@, *from, *to) == spec_walk(
                board@,
                *from,
                *to,
                f as int,
                r as int,
                sf as int,
                sr as int,
                left as nat,
            ));
        }
        while left > 0
            invariant
                board.wf(),
                from.wf(),
                to.wf(),
                0 <= left,
                -1 <= sf <= 1,
                -1 <= sr <= 1,
                sf == 1 ==> f as int + left == to.file && from.file < f,
                sf == -1 ==> f as int - left == to.file && f < from.file,
                sf == 0 ==> f == from.file && f as int == to.file,
                sr == 1 ==> r as int + left == to.rank && from.rank < r,
                sr == -1 ==> r as int - left == to.rank && r < from.rank,
                sr == 0 ==> r == from.rank && r as int == to.rank,
                spec_will_colide(board@, *from, *to) == spec_walk(
                    board@,
                    *from,
                    *to,
                    f as int,
                    r as int,
                    sf as int,
                    sr as int,
                    left as nat,
                ),
            decreases left,
        {
            assert(1 <= f <= 8 && 1 <= r <= 8);
            let p = Position { file: f as u8, rank: r as u8 };
            match board.get_piece_at(&p) {
                Some(piece) => {
                    return Err(Error::PathObstructed(piece, p, *from, *to));
                },
                None => {},
            }
            f = f + sf;
            r = r + sr;
            left = left - 1;
        }
        Ok(())
    }
}

/// One step of the obstruction walk: inspects `left` squares starting at
/// `(f, r)`, each `(sf, sr)` apart, and fails on the first occupied one,
/// naming the blocker, its square, and the attempted `from`/`to`.
pub open spec fn spec_walk(
    b: BoardModel,
    from: Position,
    to: Position,
    f: int,
    r: int,
    sf: int,
    sr: int,
    left: nat,
) -> Result<(), Error>
    decreases left,
{
    if left == 0 {
        Ok(())
    } else {
        let p = Position { file: f as u8, rank: r as u8 };
        match b.at(p) {
            Some(piece) => Err(Error::PathObstructed(piece, p, from, to)),
            None => spec_walk(b, from, to, f + sf, r + sr, sf, sr, (left - 1) as nat),
        }
    }
}

/// The obstruction check over a displacement: for a diagonal or linear
/// displacement, every square strictly between `from` and `to` along the
/// unit direction must be empty, and the first occupied one fails the
/// walk.  Any other displacement has no squares to check.  The
/// destination square itself is never inspected.
pub open spec fn spec_will_colide(b: BoardModel, from: Position, to: Position) -> Result<
    (),
    Error,
> {
    let df = to.file - from.file;
    let dr = to.rank - from.rank;
    let sf: int = if df > 0 {
        1
    } else if df < 0 {
        -1
    } else {
        0
    };
    let sr: int = if dr > 0 {
        1
    } else if dr < 0 {
        -1
    } else {
        0
    };
    if df == 0 && dr == 0 {
        Ok(())
    } else if df == dr || df == -dr {
        spec_walk(b, from, to, from.file + sf, from.rank + sr, sf, sr, (abs(df) - 1) as nat)
    } else if df == 0 || dr == 0 {
        spec_walk(
            b,
            from,
            to,
            from.file + sf,
            from.rank + sr,
            sf,
            sr,
            (abs(df) + abs(dr) - 1) as nat,
        )
    } else {
        Ok(())
    }
}

} // verus!
