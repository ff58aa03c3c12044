use chess_actions::CodecError;
use chess_actions::coords_to_square;
use chess_actions::square_to_coords;

const FILES: [char; 8] = ['a', 'b', 'c', 'd', 'e', 'f', 'g', 'h'];
const RANKS: [char; 8] = ['1', '2', '3', '4', '5', '6', '7', '8'];

#[test]
fn square_to_coords_corners() {
    assert_eq!(square_to_coords("a1"), Ok((0, 0)));
    assert_eq!(square_to_coords("h8"), Ok((7, 7)));
    assert_eq!(square_to_coords("a8"), Ok((0, 7)));
    assert_eq!(square_to_coords("h1"), Ok((7, 0)));
    assert_eq!(square_to_coords("e2"), Ok((4, 1)));
}

#[test]
fn square_to_coords_rejects_bad_labels() {
    assert_eq!(square_to_coords("i1"), Err(CodecError::InvalidSquare));
    assert_eq!(square_to_coords("z5"), Err(CodecError::InvalidSquare));
    assert_eq!(square_to_coords("a0"), Err(CodecError::InvalidSquare));
    assert_eq!(square_to_coords("a9"), Err(CodecError::InvalidSquare));
    assert_eq!(square_to_coords("ax"), Err(CodecError::InvalidSquare));
    assert_eq!(square_to_coords("4e"), Err(CodecError::InvalidSquare));
}

#[test]
fn coords_to_square_exact_labels() {
    assert_eq!(coords_to_square(0, 0), Ok(String::from("a1")));
    assert_eq!(coords_to_square(7, 7), Ok(String::from("h8")));
    assert_eq!(coords_to_square(4, 3), Ok(String::from("e4")));
}

#[test]
fn coords_to_square_rejects_off_board() {
    assert_eq!(coords_to_square(8, 0), Err(CodecError::InvalidCoordinate));
    assert_eq!(coords_to_square(-1, 3), Err(CodecError::InvalidCoordinate));
    assert_eq!(coords_to_square(0, 8), Err(CodecError::InvalidCoordinate));
    assert_eq!(coords_to_square(3, -1), Err(CodecError::InvalidCoordinate));
}

#[test]
fn round_trip_all_64_labels() {
    for f in FILES {
        for r in RANKS {
            let label = format!("{}{}", f, r);
            let (x, y) = square_to_coords(&label).unwrap();
            assert!((0..8).contains(&x) && (0..8).contains(&y));
            assert_eq!(coords_to_square(x, y), Ok(label));
        }
    }
}

#[test]
fn round_trip_all_64_coordinate_pairs() {
    for x in 0..8i16 {
        for y in 0..8i16 {
            let label = coords_to_square(x, y).unwrap();
            assert_eq!(square_to_coords(&label), Ok((x, y)));
        }
    }
}
