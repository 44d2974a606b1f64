use chess::board::position::Position;
use chess::board::relative_position::RelativePosition;
use chess::error::Error;

#[test]
fn position_new_bounds() {
    for file in 0u8..=9 {
        for rank in 0u8..=9 {
            let r = Position::new(file, rank);
            let in_range = (1..=8).contains(&file) && (1..=8).contains(&rank);
            assert_eq!(r.is_ok(), in_range, "file {} rank {}", file, rank);
            if !in_range {
                assert_eq!(r, Err(Error::OutOfBounds));
            }
        }
    }
}

#[test]
fn position_accessors() {
    let p = Position::new(5, 4).unwrap();
    assert_eq!(p.file(), 5);
    assert_eq!(p.rank(), 4);
    assert_eq!(p.file_char(), 'e');
}

#[test]
fn position_file_chars() {
    let letters = ['a', 'b', 'c', 'd', 'e', 'f', 'g', 'h'];
    for file in 1u8..=8 {
        let p = Position::new(file, 1).unwrap();
        assert_eq!(p.file_char(), letters[(file - 1) as usize]);
    }
}

#[test]
fn position_text_round_trip() {
    for file in 1u8..=8 {
        for rank in 1u8..=8 {
            let p = Position::new(file, rank).unwrap();
            let text = p.to_text();
            assert_eq!(Position::from_string(text.as_str()), Ok(p), "square {}", text);
        }
    }
}

#[test]
fn position_from_string_exact() {
    let p = Position::from_string("e4").unwrap();
    assert_eq!(p.file(), 5);
    assert_eq!(p.rank(), 4);
    assert_eq!(p.to_text(), "e4");
}

#[test]
fn position_from_string_rejects() {
    assert_eq!(Position::from_string(""), Err(Error::ParseError));
    assert_eq!(Position::from_string("e"), Err(Error::ParseError));
    assert_eq!(Position::from_string("e44"), Err(Error::ParseError));
    assert_eq!(Position::from_string("i4"), Err(Error::ParseError));
    assert_eq!(Position::from_string("e9"), Err(Error::ParseError));
    assert_eq!(Position::from_string("e0"), Err(Error::ParseError));
    assert_eq!(Position::from_string("44"), Err(Error::ParseError));
}

#[test]
fn relative_position_bounds() {
    for file in -9i8..=9 {
        for rank in -9i8..=9 {
            let r = RelativePosition::new(file, rank);
            let in_range = (-7..=7).contains(&file) && (-7..=7).contains(&rank);
            assert_eq!(r.is_ok(), in_range, "file {} rank {}", file, rank);
            if !in_range {
                assert_eq!(r, Err(Error::OutOfBounds));
            }
        }
    }
}

#[test]
fn relative_from_absolute() {
    let from = Position::new(5, 2).unwrap();
    let to = Position::new(5, 4).unwrap();
    let d = RelativePosition::from_absolute(&from, &to).unwrap();
    assert_eq!(d.file(), 0);
    assert_eq!(d.rank(), 2);
}

#[test]
fn position_from_relative_composes() {
    let base = Position::new(1, 1).unwrap();
    let d = RelativePosition::new(7, 7).unwrap();
    let p = Position::from_relative(base, d).unwrap();
    assert_eq!(p.file(), 8);
    assert_eq!(p.rank(), 8);

    let off = RelativePosition::new(-1, 0).unwrap();
    assert_eq!(Position::from_relative(base, off), Err(Error::OutOfBounds));
}
