//! The PGN movetext reader: strips check marks, splits the text into
//! numbered-turn chunks and per-side move tokens, parses each token's
//! fields, and feeds the resolver to build concrete movements.

use vstd::prelude::*;

use crate::board::position::Position;
use crate::board::spec_candidate_movement;
use crate::board::spec_digit_value;
use crate::board::spec_is_candidate_origin;
use crate::color::Color;
use crate::error::Error;
use crate::game::movement::Movement;
use crate::game::Game;
use crate::piece::pieces::king::King;
use crate::piece::piece_factory;
use crate::piece::spec_piece_factory;
use crate::piece::Piece;

verus! {

/// The whitespace characters the movetext grammar recognizes.
pub open spec fn spec_is_space(c: char) -> bool {
    c == ' ' || c == '\t' || c == '\n' || c == '\r'
}

/// Returns whether a character is movetext whitespace.
fn is_space(c: char) -> (r: bool)
    ensures
        r == spec_is_space(c),
{
    c == ' ' || c == '\t' || c == '\n' || c == '\r'
}

/// Returns whether a character is a decimal digit.
fn is_digit(c: char) -> (r: bool)
    ensures
        r == (spec_digit_value(c) is Some),
{
    match c {
        '0' => true,
        '1' => true,
        '2' => true,
        '3' => true,
        '4' => true,
        '5' => true,
        '6' => true,
        '7' => true,
        '8' => true,
        '9' => true,
        _ => false,
    }
}

/// A movetext with every check mark removed.
pub open spec fn spec_remove_plus(s: Seq<char>) -> Seq<char>
    decreases s.len(),
{
    if s.len() == 0 {
        Seq::empty()
    } else if s.last() == '+' {
        spec_remove_plus(s.drop_last())
    } else {
        spec_remove_plus(s.drop_last()).push(s.last())
    }
}

/// Strips the check and checkmate annotation marks (`+`) from a movetext.
pub fn clean_string(pgn: &str) -> (r: String)
    ensures
        r@ == spec_remove_plus(pgn@),
{
    let n = pgn.unicode_len();
    let mut out = String::new();
    let mut i: usize = 0;
    while i < n
        invariant
            0 <= i <= n,
            n == pgn@.len(),
            out@ == spec_remove_plus(pgn@.subrange(0, i as int)),
        decreases n - i,
    {
        let ghost prefix = pgn@.subrange(0, i as int);
        proof {
            assert(pgn@.subrange(0, i as int + 1).drop_last() =~= prefix);
            assert(pgn@.subrange(0, i as int + 1).last() == pgn@[i as int]);
        }
        let c = pgn.get_char(i);
        if c != '+' {
            out.append(pgn.substring_char(i, i + 1));
            proof {
                assert(pgn@.subrange(i as int, i as int + 1) =~= seq![pgn@[i as int]]);
                assert(out@ =~= spec_remove_plus(pgn@.subrange(0, i as int + 1)));
            }
        }
        i = i + 1;
    }
    proof {
        assert(pgn@.subrange(0, n as int) =~= pgn@);
    }
    out
}

/// A text with its trailing whitespace removed.
pub open spec fn spec_trim_end(s: Seq<char>) -> Seq<char>
    decreases s.len(),
{
    if s.len() == 0 {
        s
    } else if spec_is_space(s.last()) {
        spec_trim_end(s.drop_last())
    } else {
        s
    }
}

/// A text with its leading whitespace removed.
pub open spec fn spec_trim_start(s: Seq<char>) -> Seq<char>
    decreases s.len(),
{
    if s.len() == 0 {
        s
    } else if spec_is_space(s[0]) {
        spec_trim_start(s.skip(1))
    } else {
        s
    }
}

/// A text with surrounding whitespace removed.
pub open spec fn spec_trim(s: Seq<char>) -> Seq<char> {
    spec_trim_start(spec_trim_end(s))
}

/// Removes surrounding whitespace from a text.
fn trim_text(s: &str) -> (r: String)
    ensures
        r@ == spec_trim(s@),
{
    let n = s.unicode_len();
    let mut end: usize = n;
    proof {
        assert(s@.subrange(0, n as int) =~= s@);
    }
    while end > 0 && is_space(s.get_char(end - 1))
        invariant
            0 <= end <= n,
            n == s@.len(),
            spec_trim_end(s@) == spec_trim_end(s@.subrange(0, end as int)),
        decreases end,
    {
        proof {
            assert(s@.subrange(0, end as int).drop_last() =~= s@.subrange(0, end as int - 1));
        }
        end = end - 1;
    }
    proof {
        assert(spec_trim_end(s@.subrange(0, end as int)) =~= s@.subrange(0, end as int));
    }
    let mut start: usize = 0;
    while start < end && is_space(s.get_char(start))
        invariant
            0 <= start <= end <= n,
            n == s@.len(),
            spec_trim_end(s@) == s@.subrange(0, end as int),
            spec_trim(s@) == spec_trim_start(s@.subrange(start as int, end as int)),
        decreases end - start,
    {
        proof {
            assert(s@.subrange(start as int, end as int).skip(1) =~= s@.subrange(
                start as int + 1,
                end as int,
            ));
        }
        start = start + 1;
    }
    proof {
        assert(spec_trim_start(s@.subrange(start as int, end as int)) =~= s@.subrange(
            start as int,
            end as int,
        ));
    }
    s.substring_char(start, end).to_owned()
}

/// One pass of the whitespace tokenizer: the maximal runs of
/// non-whitespace characters of `s` appended to `tokens`, with `current`
/// the run in progress.
pub open spec fn spec_space_split_from(
    s: Seq<char>,
    tokens: Seq<Seq<char>>,
    current: Seq<char>,
) -> Seq<Seq<char>>
    decreases s.len(),
{
    if s.len() == 0 {
        if current.len() == 0 {
            tokens
        } else {
            tokens.push(current)
        }
    } else if spec_is_space(s[0]) {
        if current.len() == 0 {
            spec_space_split_from(s.skip(1), tokens, Seq::empty())
        } else {
            spec_space_split_from(s.skip(1), tokens.push(current), Seq::empty())
        }
    } else {
        spec_space_split_from(s.skip(1), tokens, current.push(s[0]))
    }
}

/// The whitespace-separated tokens of a text.
pub open spec fn spec_space_tokens(s: Seq<char>) -> Seq<Seq<char>> {
    spec_space_split_from(s, Seq::empty(), Seq::empty())
}

/// Splits a text into its whitespace-separated tokens.
fn space_tokens(s: &str) -> (r: Vec<String>)
    ensures
        r.deep_view() == spec_space_tokens(s@),
{
    let n = s.unicode_len();
    let mut tokens: Vec<String> = Vec::new();
    let mut current = String::new();
    proof {
        assert(s@.skip(0) =~= s@);
        assert(tokens.deep_view() =~= Seq::<Seq<char>>::empty());
    }
    let mut i: usize = 0;
    while i < n
        invariant
            0 <= i <= n,
            n == s@.len(),
            spec_space_tokens(s@) == spec_space_split_from(
                s@.skip(i as int),
                tokens.deep_view(),
                current@,
            ),
        decreases n - i,
    {
        let ghost rest = s@.skip(i as int);
        proof {
            assert(rest[0] == s@[i as int]);
            assert(rest.skip(1) =~= s@.skip(i as int + 1));
        }
        let c = s.get_char(i);
        if is_space(c) {
            if current.unicode_len() > 0 {
                let ghost before = tokens.deep_view();
                let ghost cur = current@;
                tokens.push(current);
                current = String::new();
                proof {
                    assert(tokens.deep_view() =~= before.push(cur));
                }
            } else {
                proof {
                    assert(current@ =~= Seq::<char>::empty());
                }
            }
        } else {
            let ghost cur = current@;
            current.append(s.substring_char(i, i + 1));
            proof {
                assert(s@.subrange(i as int, i as int + 1) =~= seq![s@[i as int]]);
                assert(current@ =~= cur.push(s@[i as int]));
            }
        }
        i = i + 1;
    }
    proof {
        assert(s@.skip(n as int) =~= Seq::<char>::empty());
    }
    if current.unicode_len() > 0 {
        let ghost before = tokens.deep_view();
        tokens.push(current);
        proof {
            assert(tokens.deep_view() =~= before.push(current@));
        }
    }
    tokens
}

/// One pass of the turn splitter: the chunks of `s` delimited by
/// move-number matches, a maximal digit run immediately followed by a
/// period.  `current` is the chunk in progress and `digits` the pending
/// digit run.
pub open spec fn spec_turn_split_from(
    s: Seq<char>,
    chunks: Seq<Seq<char>>,
    current: Seq<char>,
    digits: Seq<char>,
) -> Seq<Seq<char>>
    decreases s.len(),
{
    if s.len() == 0 {
        chunks.push(current + digits)
    } else {
        let c = s[0];
        if spec_digit_value(c) is Some {
            spec_turn_split_from(s.skip(1), chunks, current, digits.push(c))
        } else if c == '.' && digits.len() > 0 {
            spec_turn_split_from(s.skip(1), chunks.push(current), Seq::empty(), Seq::empty())
        } else {
            spec_turn_split_from(s.skip(1), chunks, current + digits + seq![c], Seq::empty())
        }
    }
}

/// The raw chunks of a movetext between move-number matches.
pub open spec fn spec_turn_chunks(s: Seq<char>) -> Seq<Seq<char>> {
    spec_turn_split_from(s, Seq::empty(), Seq::empty(), Seq::empty())
}

/// The chunks, each trimmed of surrounding whitespace, with empty chunks
/// dropped.
pub open spec fn spec_clean_chunks(chunks: Seq<Seq<char>>) -> Seq<Seq<char>>
    decreases chunks.len(),
{
    if chunks.len() == 0 {
        Seq::empty()
    } else {
        let rest = spec_clean_chunks(chunks.drop_last());
        let t = spec_trim(chunks.last());
        if t.len() > 0 {
            rest.push(t)
        } else {
            rest
        }
    }
}

/// The turn strings of a movetext: the text between move-number matches,
/// trimmed, with empty pieces dropped.
pub open spec fn spec_turn_strings(s: Seq<char>) -> Seq<Seq<char>> {
    spec_clean_chunks(spec_turn_chunks(s))
}

/// Splits a movetext into its numbered-turn chunks: the text between
/// move-number matches (a maximal digit run immediately followed by a
/// period), trimmed of surrounding whitespace, with empty pieces dropped.
pub fn get_turn_strings(pgn: &str) -> (r: Vec<String>)
    ensures
        r.deep_view() == spec_turn_strings(pgn@),
{
    let n = pgn.unicode_len();
    let mut chunks: Vec<String> = Vec::new();
    let mut current = String::new();
    let mut digits = String::new();
    proof {
        assert(pgn@.skip(0) =~= pgn@);
        assert(chunks.deep_view() =~= Seq::<Seq<char>>::empty());
    }
    let mut i: usize = 0;
    while i < n
        invariant
            0 <= i <= n,
            n == pgn@.len(),
            spec_turn_chunks(pgn@) == spec_turn_split_from(
                pgn@.skip(i as int),
                chunks.deep_view(),
                current@,
                digits@,
            ),
        decreases n - i,
    {
        let ghost rest = pgn@.skip(i as int);
        proof {
            assert(rest[0] == pgn@[i as int]);
            assert(rest.skip(1) =~= pgn@.skip(i as int + 1));
        }
        let c = pgn.get_char(i);
        if is_digit(c) {
            let ghost dig = digits@;
            digits.append(pgn.substring_char(i, i + 1));
            proof {
                assert(pgn@.subrange(i as int, i as int + 1) =~= seq![pgn@[i as int]]);
                assert(digits@ =~= dig.push(pgn@[i as int]));
            }
        } else if c == '.' && digits.unicode_len() > 0 {
            let ghost before = chunks.deep_view();
            let ghost cur = current@;
            chunks.push(current);
            current = String::new();
            digits = String::new();
            proof {
                assert(chunks.deep_view() =~= before.push(cur));
            }
        } else {
            let ghost cur = current@;
            let ghost dig = digits@;
            current.append(digits.as_str());
            current.append(pgn.substring_char(i, i + 1));
            digits = String::new();
            proof {
                assert(pgn@.subrange(i as int, i as int + 1) =~= seq![pgn@[i as int]]);
                assert(current@ =~= cur + dig + seq![pgn@[i as int]]);
            }
        }
        i = i + 1;
    }
    proof {
        assert(pgn@.skip(n as int) =~= Seq::<char>::empty());
    }
    let ghost cur = current@;
    let ghost dig = digits@;
    current.append(digits.as_str());
    let ghost before = chunks.deep_view();
    chunks.push(current);
    proof {
        assert(chunks.deep_view() =~= before.push(cur + dig));
        assert(chunks.deep_view() == spec_turn_chunks(pgn@));
    }
    let m = chunks.len();
    let mut out: Vec<String> = Vec::new();
    proof {
        assert(chunks.deep_view().subrange(0, 0) =~= Seq::<Seq<char>>::empty());
        assert(out.deep_view() =~= Seq::<Seq<char>>::empty());
    }
    let mut k: usize = 0;
    while k < m
        invariant
            0 <= k <= m,
            m == chunks.deep_view().len(),
            chunks.deep_view() == spec_turn_chunks(pgn@),
            out.deep_view() == spec_clean_chunks(chunks.deep_view().subrange(0, k as int)),
        decreases m - k,
    {
        let ghost prefix = chunks.deep_view().subrange(0, k as int);
        proof {
            assert(chunks.deep_view().subrange(0, k as int + 1).drop_last() =~= prefix);
            assert(chunks.deep_view().subrange(0, k as int + 1).last() == chunks.deep_view()[k as int]);
        }
        let t = trim_text(chunks[k].as_str());
        if t.unicode_len() > 0 {
            let ghost before_out = out.deep_view();
            out.push(t);
            proof {
                assert(out.deep_view() =~= before_out.push(
                    spec_trim(chunks.deep_view()[k as int]),
                ));
            }
        }
        k = k + 1;
    }
    proof {
        assert(chunks.deep_view().subrange(0, m as int) =~= chunks.deep_view());
    }
    out
}

/// Returns whether a character occurs in a text.
pub open spec fn spec_contains_char(s: Seq<char>, c: char) -> bool {
    exists|i: int| 0 <= i < s.len() && s[i] == c
}

/// Scans a text for a character.
fn contains_char(s: &str, c: char) -> (r: bool)
    ensures
        r == spec_contains_char(s@, c),
{
    let n = s.unicode_len();
    let mut i: usize = 0;
    while i < n
        invariant
            0 <= i <= n,
            n == s@.len(),
            forall|k: int| 0 <= k < i ==> s@[k] != c,
        decreases n - i,
    {
        if s.get_char(i) == c {
            proof {
                assert(s@[i as int] == c);
            }
            return true;
        }
        i = i + 1;
    }
    false
}

/// An uppercase ASCII letter, marking an explicit piece prefix.
pub open spec fn spec_is_upper(c: char) -> bool {
    'A' <= c <= 'Z'
}

/// The fields parsed out of one algebraic move token: the piece prefix
/// (pawn when no leading uppercase letter), the capture flag, the two
/// destination characters, and the optional disambiguating character.
pub struct ParsedToken {
    pub prefix: char,
    pub is_capture: bool,
    pub destination: Seq<char>,
    pub disambiguator: Option<char>,
}

/// What parsing a non-castle move token yields.  The destination is the
/// two characters before a promotion suffix (`=` and a piece letter) or
/// at the very end; what precedes it past the prefix, less a capture
/// marker, disambiguates; a token too short for its markers is rejected.
pub open spec fn spec_parse_token(s: Seq<char>) -> Result<ParsedToken, Error> {
    let n = s.len() as int;
    if n == 0 {
        Err(Error::ParseError)
    } else {
        let has_eq = spec_contains_char(s, '=');
        let has_x = spec_contains_char(s, 'x');
        let upper = spec_is_upper(s[0]);
        let cut: int = if has_eq {
            4
        } else {
            2
        };
        let dstart = n - cut;
        let rstart: int = if upper {
            1
        } else {
            0
        };
        let rend: int = if has_x {
            n - cut - 1
        } else {
            n - cut
        };
        if dstart < 0 || rend < rstart {
            Err(Error::ParseError)
        } else {
            Ok(
                ParsedToken {
                    prefix: if upper {
                        s[0]
                    } else {
                        'P'
                    },
                    is_capture: has_x,
                    destination: s.subrange(dstart, dstart + 2),
                    disambiguator: if rend > rstart {
                        Some(s[rstart])
                    } else {
                        None
                    },
                },
            )
        }
    }
}

/// The algebraic text of a king-side castle.
pub open spec fn spec_castle_king_text() -> Seq<char> {
    seq!['O', '-', 'O']
}

/// The algebraic text of a queen-side castle.
pub open spec fn spec_castle_queen_text() -> Seq<char> {
    seq!['O', '-', 'O', '-', 'O']
}

/// The parsed token together with its factory piece and destination
/// square, when all three parse.
pub open spec fn spec_token_fields(s: Seq<char>, color: Color) -> Option<
    (ParsedToken, Piece, Position),
> {
    match spec_parse_token(s) {
        Err(_) => None,
        Ok(t) => match spec_piece_factory(t.prefix, color) {
            None => None,
            Some(p) => match Position::spec_parse(t.destination) {
                Err(_) => None,
                Ok(to) => Some((t, p, to)),
            },
        },
    }
}

/// Movement `m` is what the token describes for the side `color`: the
/// corresponding castle for the literal castle texts, and otherwise the
/// described move or capture whose origin is the unique candidate the
/// resolver finds.
pub open spec fn spec_movement_resolved(game: Game, s: Seq<char>, color: Color, m: Movement) -> bool {
    if s == spec_castle_king_text() {
        m == Movement::CastleKingSide(Piece::King(King { color }))
    } else if s == spec_castle_queen_text() {
        m == Movement::CastleQueenSide(Piece::King(King { color }))
    } else {
        match spec_token_fields(s, color) {
            None => false,
            Some((t, p, to)) => exists|from: Position|
                {
                    &&& #[trigger] spec_is_candidate_origin(
                        game,
                        p,
                        to,
                        t.is_capture,
                        t.disambiguator,
                        from,
                    )
                    &&& forall|q: Position|
                        spec_is_candidate_origin(
                            game,
                            p,
                            to,
                            t.is_capture,
                            t.disambiguator,
                            q,
                        ) ==> q == from
                    &&& m == spec_candidate_movement(p, from, to, t.is_capture)
                },
        }
    }
}

/// Builds the movement a single algebraic token describes for the side
/// `color`: the castle texts map to castles; any other token is parsed
/// into prefix, capture flag, destination and disambiguator, and the
/// resolver deduces the unique origin.
#[verifier::rlimit(100)]
pub fn get_movement(game: &Game, movement_string: &str, color: Color) -> (r: Result<
    Movement,
    Error,
>)
    requires
        game.board.wf(),
    ensures
        (match r {
            Ok(m) => m.wf() && spec_movement_resolved(*game, movement_string@, color, m),
            Err(e) => movement_string@ != spec_castle_king_text() && movement_string@
                != spec_castle_queen_text() && (match spec_token_fields(movement_string@, color) {
                None => e == Error::ParseError,
                Some((t, p, to)) => match e {
                    Error::NoPieceFound => forall|q: Position|
                        !spec_is_candidate_origin(*game, p, to, t.is_capture, t.disambiguator, q),
                    Error::AmbiguousMove(a, b) => a != b && spec_is_candidate_origin(
                        *game,
                        p,
                        to,
                        t.is_capture,
                        t.disambiguator,
                        a,
                    ) && spec_is_candidate_origin(*game, p, to, t.is_capture, t.disambiguator, b),
                    _ => false,
                },
            }),
        }),
{
    let n = movement_string.unicode_len();
    if n == 3 && movement_string.get_char(0) == 'O' && movement_string.get_char(1) == '-'
        && movement_string.get_char(2) == 'O' {
        proof {
            assert(movement_string@ =~= spec_castle_king_text());
        }
        return Ok(Movement::CastleKingSide(Piece::King(King::new(color))));
    }
    if n == 5 && movement_string.get_char(0) == 'O' && movement_string.get_char(1) == '-'
        && movement_string.get_char(2) == 'O' && movement_string.get_char(3) == '-'
        && movement_string.get_char(4) == 'O' {
        proof {
            assert(movement_string@ =~= spec_castle_queen_text());
        }
        return Ok(Movement::CastleQueenSide(Piece::King(King::new(color))));
    }
    proof {
        assert(movement_string@ != spec_castle_king_text());
        assert(movement_string@ != spec_castle_queen_text());
    }
    if n == 0 {
        return Err(Error::ParseError);
    }
    let has_eq = contains_char(movement_string, '=');
    let has_x = contains_char(movement_string, 'x');
    let c0 = movement_string.get_char(0);
    let upper = 'A' <= c0 && c0 <= 'Z';
    let prefix = if upper {
        c0
    } else {
        'P'
    };
    let cut: usize = if has_eq {
        4
    } else {
        2
    };
    if n < cut {
        return Err(Error::ParseError);
    }
    let dstart = n - cut;
    let rstart: usize = if upper {
        1
    } else {
        0
    };
    let rend0 = n - cut;
    if has_x && rend0 == 0 {
        return Err(Error::ParseError);
    }
    let rend: usize = if has_x {
        rend0 - 1
    } else {
        rend0
    };
    if rend < rstart {
        return Err(Error::ParseError);
    }
    let ghost token = (match spec_parse_token(movement_string@) {
        Ok(t) => t,
        Err(_) => arbitrary(),
    });
    proof {
        assert(spec_parse_token(movement_string@) is Ok);
        assert(token.prefix == prefix);
        assert(token.is_capture == has_x);
        assert(token.destination =~= movement_string@.subrange(
            dstart as int,
            dstart as int + 2,
        ));
    }
    let d0 = movement_string.get_char(dstart);
    let d1 = movement_string.get_char(dstart + 1);
    let file = match Position::file_of_char(d0) {
        Some(file) => file,
        None => {
            return Err(Error::ParseError);
        },
    };
    let rank = match Position::rank_of_char(d1) {
        Some(rank) => rank,
        None => {
            return Err(Error::ParseError);
        },
    };
    let to = Position { file, rank };
    proof {
        assert(Position::spec_parse(token.destination) == Ok::<Position, Error>(to));
    }
    let disamb: Option<char> = if rend > rstart {
        Some(movement_string.get_char(rstart))
    } else {
        None
    };
    proof {
        assert(token.disambiguator == disamb);
    }
    let piece = match piece_factory(prefix, color) {
        Some(piece) => piece,
        None => {
            return Err(Error::ParseError);
        },
    };
    let from = match game.board().get_position_by_movement(
        game,
        &piece,
        &to,
        has_x,
        disamb,
        movement_string,
    ) {
        Ok(from) => from,
        Err(e) => {
            return Err(e);
        },
    };
    proof {
        assert(from != to);
    }
    let movement = if has_x {
        Movement::new_capture(piece, from, to, None)
    } else {
        Movement::new_move(piece, from, to, None)
    };
    match movement {
        Some(m) => Ok(m),
        None => Err(Error::ParseError),
    }
}

/// The token a given ply reads: plies `2i` and `2i + 1` take the first
/// and second move tokens of turn `i`.
pub open spec fn spec_ply_token(cleaned: Seq<char>, i: int) -> Seq<char> {
    spec_space_tokens(spec_turn_strings(cleaned)[i / 2])[i % 2]
}

/// The side a given ply belongs to: White for even plies.
pub open spec fn spec_ply_color(i: int) -> Color {
    if i % 2 == 0 {
        Color::White
    } else {
        Color::Black
    }
}

/// The state-independent shape a token dictates for its movement: the
/// castle texts map to the corresponding castle of the given side; any
/// other token maps to a move or capture, per its capture marker, of the
/// piece its prefix names, to its parsed destination, without promotion.
/// Only the resolved origin depends on the game state.
pub open spec fn spec_token_movement_shape(s: Seq<char>, color: Color, m: Movement) -> bool {
    if s == spec_castle_king_text() {
        m == Movement::CastleKingSide(Piece::King(King { color }))
    } else if s == spec_castle_queen_text() {
        m == Movement::CastleQueenSide(Piece::King(King { color }))
    } else {
        match spec_token_fields(s, color) {
            None => false,
            Some((t, p, to)) => match m {
                Movement::Capture(mp, _, mto, mpromo) => t.is_capture && mp == p && mto == to
                    && mpromo is None,
                Movement::Move(mp, _, mto, mpromo) => !t.is_capture && mp == p && mto == to
                    && mpromo is None,
                _ => false,
            },
        }
    }
}

/// Reads a whole movetext: strips check marks, splits it into turns, and
/// for each turn resolves and plays White's and then Black's move.  The
/// first failing token or rejected play aborts with its error.  On
/// success every turn supplied two tokens and every logged ply has the
/// shape its token dictates.
pub fn from_pgn(pgn: &str) -> (r: Result<Game, Error>)
    ensures
        r matches Ok(g) ==> g.wf() && g.turn == Color::White && g.movements@.len() == 2
            * spec_turn_strings(spec_remove_plus(pgn@)).len(),
        r is Ok ==> forall|t: int|
            0 <= t < spec_turn_strings(spec_remove_plus(pgn@)).len() ==> spec_space_tokens(
                #[trigger] spec_turn_strings(spec_remove_plus(pgn@))[t],
            ).len() >= 2,
        r matches Ok(g) ==> forall|i: int|
            0 <= i < g.movements@.len() ==> spec_token_movement_shape(
                spec_ply_token(spec_remove_plus(pgn@), i),
                spec_ply_color(i),
                #[trigger] g.movements@[i],
            ),
        spec_turn_strings(spec_remove_plus(pgn@)).len() == 0 ==> r is Ok,
{
    let cleaned = clean_string(pgn);
    let turns = get_turn_strings(cleaned.as_str());
    let mut game = Game::new_classical();
    let n = turns.len();
    let mut i: usize = 0;
    while i < n
        invariant
            0 <= i <= n,
            n == turns@.len(),
            n == spec_turn_strings(spec_remove_plus(pgn@)).len(),
            turns.deep_view() == spec_turn_strings(spec_remove_plus(pgn@)),
            game.wf(),
            game.turn == Color::White,
            game.movements@.len() == 2 * i,
            forall|t: int|
                0 <= t < i ==> spec_space_tokens(
                    #[trigger] spec_turn_strings(spec_remove_plus(pgn@))[t],
                ).len() >= 2,
            forall|j: int|
                0 <= j < game.movements@.len() ==> spec_token_movement_shape(
                    spec_ply_token(spec_remove_plus(pgn@), j),
                    spec_ply_color(j),
                    #[trigger] game.movements@[j],
                ),
        decreases n - i,
    {
        let ghost cleaned_view = spec_remove_plus(pgn@);
        let ghost turn_text = spec_turn_strings(cleaned_view)[i as int];
        proof {
            assert(turns.deep_view()[i as int] == turns@[i as int]@);
            assert(turns@[i as int]@ == turn_text);
        }
        let pair = match get_movement_string(turns[i].as_str()) {
            Ok(pair) => pair,
            Err(e) => {
                return Err(e);
            },
        };
        let (white_move, black_move) = pair;
        proof {
            assert(white_move@ == spec_ply_token(cleaned_view, 2 * i as int));
            assert(black_move@ == spec_ply_token(cleaned_view, 2 * i as int + 1));
        }
        let m1 = match get_movement(&game, white_move.as_str(), Color::White) {
            Ok(m) => m,
            Err(e) => {
                return Err(e);
            },
        };
        proof {
            assert(spec_token_movement_shape(white_move@, Color::White, m1));
        }
        match game.play(m1) {
            Ok(_) => {},
            Err(e) => {
                return Err(e);
            },
        };
        let m2 = match get_movement(&game, black_move.as_str(), Color::Black) {
            Ok(m) => m,
            Err(e) => {
                return Err(e);
            },
        };
        proof {
            assert(spec_token_movement_shape(black_move@, Color::Black, m2));
        }
        match game.play(m2) {
            Ok(_) => {},
            Err(e) => {
                return Err(e);
            },
        };
        proof {
            assert(game.movements@[2 * i as int] == m1);
            assert(game.movements@[2 * i as int + 1] == m2);
            assert(spec_ply_color(2 * i as int) == Color::White);
            assert(spec_ply_color(2 * i as int + 1) == Color::Black);
        }
        i = i + 1;
    }
    Ok(game)
}

/// Splits one turn's text into White's and Black's move tokens: the first
/// two whitespace-separated tokens.  Fails when the turn holds fewer than
/// two.
pub fn get_movement_string(turn: &str) -> (r: Result<(String, String), Error>)
    ensures
        (match r {
            Ok(pair) => spec_space_tokens(turn@).len() >= 2 && pair.0@ == spec_space_tokens(
                turn@,
            )[0] && pair.1@ == spec_space_tokens(turn@)[1],
            Err(e) => e == Error::ParseError && spec_space_tokens(turn@).len() < 2,
        }),
{
    let tokens = space_tokens(turn);
    if tokens.len() < 2 {
        return Err(Error::ParseError);
    }
    let white = tokens[0].clone();
    let black = tokens[1].clone();
    proof {
        assert(white@ == spec_space_tokens(turn@)[0]);
        assert(black@ == spec_space_tokens(turn@)[1]);
    }
    Ok((white, black))
}

} // verus!
