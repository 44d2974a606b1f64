use vstd::prelude::*;

use crate::board::relative_position::RelativePosition;
use crate::error::Error;

verus! {

/// An absolute square on the board: a file and a rank, each in `1..=8`.
///
/// Renders to and parses from two-character algebraic text such as `"e4"`:
/// files 1..=8 map to `'a'..='h'` and ranks to `'1'..='8'`.
#[derive(PartialEq, Eq, Structural, Clone, Copy, Debug)]
pub struct Position {
    pub file: u8,
    pub rank: u8,
}

impl Position {
    /// A square is well formed when file and rank both lie in `1..=8`.
    pub open spec fn wf(self) -> bool {
        1 <= self.file <= 8 && 1 <= self.rank <= 8
    }

    /// What `new` returns: a square for in-range coordinates, an
    /// out-of-bounds error otherwise.
    pub open spec fn spec_new(file: u8, rank: u8) -> Result<Position, Error> {
        if 1 <= file <= 8 && 1 <= rank <= 8 {
            Ok(Position { file, rank })
        } else {
            Err(Error::OutOfBounds)
        }
    }

    /// Constructs a square, failing if and only if `file` or `rank` falls
    /// outside `1..=8`.
    pub fn new(file: u8, rank: u8) -> (r: Result<Position, Error>)
        ensures
            r == Self::spec_new(file, rank),
            r is Ok <==> (1 <= file <= 8 && 1 <= rank <= 8),
            r matches Ok(p) ==> p.wf() && p == (Position { file, rank }),
    {
        if file > 8 || file < 1 {
            return Err(Error::OutOfBounds);
        }
        if rank > 8 || rank < 1 {
            return Err(Error::OutOfBounds);
        }
        Ok(Position { file, rank })
    }

    /// The file coordinate, in `1..=8` for a well-formed square.
    pub fn file(&self) -> (r: u8)
        ensures
            r == self.file,
    {
        self.file
    }

    /// The rank coordinate, in `1..=8` for a well-formed square.
    pub fn rank(&self) -> (r: u8)
        ensures
            r == self.rank,
    {
        self.rank
    }

    /// The algebraic letter of a file: 1 maps to 'a', ..., 8 to 'h'.
    pub open spec fn spec_file_char(self) -> char {
        if self.file == 1 {
            'a'
        } else if self.file == 2 {
            'b'
        } else if self.file == 3 {
            'c'
        } else if self.file == 4 {
            'd'
        } else if self.file == 5 {
            'e'
        } else if self.file == 6 {
            'f'
        } else if self.file == 7 {
            'g'
        } else {
            'h'
        }
    }

    /// The algebraic digit of a rank: 1 maps to '1', ..., 8 to '8'.
    pub open spec fn spec_rank_char(self) -> char {
        if self.rank == 1 {
            '1'
        } else if self.rank == 2 {
            '2'
        } else if self.rank == 3 {
            '3'
        } else if self.rank == 4 {
            '4'
        } else if self.rank == 5 {
            '5'
        } else if self.rank == 6 {
            '6'
        } else if self.rank == 7 {
            '7'
        } else {
            '8'
        }
    }

    /// Returns the algebraic letter of this square's file.
    pub fn file_char(&self) -> (c: char)
        requires
            self.wf(),
        ensures
            c == self.spec_file_char(),
    {
        match self.file {
            1 => 'a',
            2 => 'b',
            3 => 'c',
            4 => 'd',
            5 => 'e',
            6 => 'f',
            7 => 'g',
            _ => 'h',
        }
    }

    /// The file encoded by an algebraic letter, if any.
    pub open spec fn spec_file_of_char(c: char) -> Option<u8> {
        if c == 'a' {
            Some(1u8)
        } else if c == 'b' {
            Some(2u8)
        } else if c == 'c' {
            Some(3u8)
        } else if c == 'd' {
            Some(4u8)
        } else if c == 'e' {
            Some(5u8)
        } else if c == 'f' {
            Some(6u8)
        } else if c == 'g' {
            Some(7u8)
        } else if c == 'h' {
            Some(8u8)
        } else {
            None
        }
    }

    /// The rank encoded by an algebraic digit, if any.
    pub open spec fn spec_rank_of_char(c: char) -> Option<u8> {
        if c == '1' {
            Some(1u8)
        } else if c == '2' {
            Some(2u8)
        } else if c == '3' {
            Some(3u8)
        } else if c == '4' {
            Some(4u8)
        } else if c == '5' {
            Some(5u8)
        } else if c == '6' {
            Some(6u8)
        } else if c == '7' {
            Some(7u8)
        } else if c == '8' {
            Some(8u8)
        } else {
            None
        }
    }

    /// Returns the file encoded by an algebraic letter, if any.
    pub fn file_of_char(c: char) -> (r: Option<u8>)
        ensures
            r == Self::spec_file_of_char(c),
    {
        match c {
            'a' => Some(1),
            'b' => Some(2),
            'c' => Some(3),
            'd' => Some(4),
            'e' => Some(5),
            'f' => Some(6),
            'g' => Some(7),
            'h' => Some(8),
            _ => None,
        }
    }

    /// Returns the rank encoded by an algebraic digit, if any.
    pub fn rank_of_char(c: char) -> (r: Option<u8>)
        ensures
            r == Self::spec_rank_of_char(c),
    {
        match c {
            '1' => Some(1),
            '2' => Some(2),
            '3' => Some(3),
            '4' => Some(4),
            '5' => Some(5),
            '6' => Some(6),
            '7' => Some(7),
            '8' => Some(8),
            _ => None,
        }
    }

    /// What composing a square with a displacement yields: the displaced
    /// square when it stays on the board, an out-of-bounds error otherwise.
    pub open spec fn spec_from_relative(
        absolute_position: Position,
        relative_position: RelativePosition,
    ) -> Result<Position, Error> {
        let f = absolute_position.file + relative_position.file;
        let r = absolute_position.rank + relative_position.rank;
        if 1 <= f <= 8 && 1 <= r <= 8 {
            Ok(Position { file: f as u8, rank: r as u8 })
        } else {
            Err(Error::OutOfBounds)
        }
    }

    /// Composes an absolute square with a displacement and revalidates.
    pub fn from_relative(absolute_position: Position, relative_position: RelativePosition) -> (r:
        Result<Position, Error>)
        requires
            absolute_position.wf(),
            relative_position.wf(),
        ensures
            r == Self::spec_from_relative(absolute_position, relative_position),
    {
        let f: i16 = absolute_position.file as i16 + relative_position.file as i16;
        let r: i16 = absolute_position.rank as i16 + relative_position.rank as i16;
        if 1 <= f && f <= 8 && 1 <= r && r <= 8 {
            Ok(Position { file: f as u8, rank: r as u8 })
        } else {
            Err(Error::OutOfBounds)
        }
    }

    /// What parsing algebraic text yields: the square for a two-character
    /// file-letter rank-digit string, a parse error otherwise.
    pub open spec fn spec_parse(s: Seq<char>) -> Result<Position, Error> {
        if s.len() != 2 {
            Err(Error::ParseError)
        } else {
            match Self::spec_file_of_char(s[0]) {
                Option::None => Err(Error::ParseError),
                Option::Some(file) => match Self::spec_rank_of_char(s[1]) {
                    Option::None => Err(Error::ParseError),
                    Option::Some(rank) => Ok(Position { file, rank }),
                },
            }
        }
    }

    /// Parses a square from two-character algebraic text such as `"e4"`.
    /// Rejects any string whose length differs from 2 or whose characters
    /// fall outside `'a'..='h'` and `'1'..='8'`.
    pub fn from_string(string: &str) -> (r: Result<Position, Error>)
        ensures
            r == Self::spec_parse(string@),
            r matches Ok(p) ==> p.wf(),
    {
        let n = string.unicode_len();
        if n != 2 {
            return Err(Error::ParseError);
        }
        let file = match Self::file_of_char(string.get_char(0)) {
            Option::Some(file) => file,
            Option::None => {
                return Err(Error::ParseError);
            },
        };
        let rank = match Self::rank_of_char(string.get_char(1)) {
            Option::Some(rank) => rank,
            Option::None => {
                return Err(Error::ParseError);
            },
        };
        Ok(Position { file, rank })
    }

    /// The algebraic rendering of a square: its file letter then its rank
    /// digit.
    pub open spec fn spec_text(self) -> Seq<char> {
        seq![self.spec_file_char(), self.spec_rank_char()]
    }

    /// Renders this square as two-character algebraic text such as `"e4"`.
    pub fn to_text(&self) -> (r: String)
        requires
            self.wf(),
        ensures
            r@ == self.spec_text(),
    {
        proof {
            reveal_strlit("a");
            reveal_strlit("b");
            reveal_strlit("c");
            reveal_strlit("d");
            reveal_strlit("e");
            reveal_strlit("f");
            reveal_strlit("g");
            reveal_strlit("h");
            reveal_strlit("1");
            reveal_strlit("2");
            reveal_strlit("3");
            reveal_strlit("4");
            reveal_strlit("5");
            reveal_strlit("6");
            reveal_strlit("7");
            reveal_strlit("8");
        }
        let file_text = match self.file {
            1 => "a",
            2 => "b",
            3 => "c",
            4 => "d",
            5 => "e",
            6 => "f",
            7 => "g",
            _ => "h",
        };
        let rank_text = match self.rank {
            1 => "1",
            2 => "2",
            3 => "3",
            4 => "4",
            5 => "5",
            6 => "6",
            7 => "7",
            _ => "8",
        };
        let mut out = String::from_str(file_text);
        out.append(rank_text);
        assert(out@ =~= self.spec_text());
        out
    }
}

/// Text round trip: parsing the rendered algebraic text of any well-formed
/// square gives that square back.
pub proof fn lemma_text_round_trip(p: Position)
    requires
        p.wf(),
    ensures
        Position::spec_parse(p.spec_text()) == Ok::<Position, Error>(p),
{
}

} // verus!
