//! The coordinate codec: conversion between a two-character square label
//! (file letter 'a'..'h', rank digit '1'..'8') and a coordinate pair
//! (x, y) with x, y in [0, 8).
use vstd::prelude::*;

use crate::CodecError;

verus! {

/// Whether `c` is a valid file letter, 'a' through 'h'.
pub open spec fn is_file_char(c: char) -> bool {
    c == 'a' || c == 'b' || c == 'c' || c == 'd' || c == 'e' || c == 'f' || c == 'g' || c == 'h'
}

/// Whether `c` is a valid rank digit, '1' through '8'.
pub open spec fn is_rank_char(c: char) -> bool {
    c == '1' || c == '2' || c == '3' || c == '4' || c == '5' || c == '6' || c == '7' || c == '8'
}

/// The x coordinate a file letter stands for; -1 for any other character.
pub open spec fn file_index_of(c: char) -> int {
    if c == 'a' {
        0
    } else if c == 'b' {
        1
    } else if c == 'c' {
        2
    } else if c == 'd' {
        3
    } else if c == 'e' {
        4
    } else if c == 'f' {
        5
    } else if c == 'g' {
        6
    } else if c == 'h' {
        7
    } else {
        -1
    }
}

/// The y coordinate a rank digit stands for; -1 for any other character.
pub open spec fn rank_index_of(c: char) -> int {
    if c == '1' {
        0
    } else if c == '2' {
        1
    } else if c == '3' {
        2
    } else if c == '4' {
        3
    } else if c == '5' {
        4
    } else if c == '6' {
        5
    } else if c == '7' {
        6
    } else if c == '8' {
        7
    } else {
        -1
    }
}

/// The file letter of an x coordinate in [0, 8); 'h' is reused out of range,
/// but every caller stays within the board.
pub open spec fn file_char_of(x: int) -> char {
    if x == 0 {
        'a'
    } else if x == 1 {
        'b'
    } else if x == 2 {
        'c'
    } else if x == 3 {
        'd'
    } else if x == 4 {
        'e'
    } else if x == 5 {
        'f'
    } else if x == 6 {
        'g'
    } else {
        'h'
    }
}

/// The rank digit of a y coordinate in [0, 8); '8' is reused out of range,
/// but every caller stays within the board.
pub open spec fn rank_char_of(y: int) -> char {
    if y == 0 {
        '1'
    } else if y == 1 {
        '2'
    } else if y == 2 {
        '3'
    } else if y == 3 {
        '4'
    } else if y == 4 {
        '5'
    } else if y == 5 {
        '6'
    } else if y == 6 {
        '7'
    } else {
        '8'
    }
}

/// Parses a square label into its coordinate pair: "a1" is (0, 0) and
/// "h8" is (7, 7). Characters past the first two are ignored.
pub fn square_to_coords(square: &str) -> (r: Result<(i16, i16), CodecError>)
    requires
        square@.len() >= 2,
    ensures
        r is Ok <==> is_file_char(square@[0]) && is_rank_char(square@[1]),
        r is Ok ==> r->Ok_0.0 == file_index_of(square@[0]) && r->Ok_0.1 == rank_index_of(
            square@[1],
        ),
        r is Err ==> r->Err_0 == CodecError::InvalidSquare,
{
    let letter = square.get_char(0);
    let num = square.get_char(1);
    let x: i16 = match letter {
        'a' => 0,
        'b' => 1,
        'c' => 2,
        'd' => 3,
        'e' => 4,
        'f' => 5,
        'g' => 6,
        'h' => 7,
        _ => {
            return Err(CodecError::InvalidSquare);
        },
    };
    let y: i16 = match num {
        '1' => 0,
        '2' => 1,
        '3' => 2,
        '4' => 3,
        '5' => 4,
        '6' => 5,
        '7' => 6,
        '8' => 7,
        _ => {
            return Err(CodecError::InvalidSquare);
        },
    };
    Ok((x, y))
}

/// Prints a coordinate pair as its square label: (0, 0) is "a1" and
/// (7, 7) is "h8". A coordinate outside the board is rejected rather
/// than printed as a meaningless label.
pub fn coords_to_square(x: i16, y: i16) -> (r: Result<String, CodecError>)
    ensures
        r is Ok <==> 0 <= x < 8 && 0 <= y < 8,
        r is Ok ==> r->Ok_0@.len() == 2 && r->Ok_0@[0] == file_char_of(x as int)
            && r->Ok_0@[1] == rank_char_of(y as int),
        r is Err ==> r->Err_0 == CodecError::InvalidCoordinate,
{
    let letter: &str = match x {
        0 => "a",
        1 => "b",
        2 => "c",
        3 => "d",
        4 => "e",
        5 => "f",
        6 => "g",
        7 => "h",
        _ => {
            return Err(CodecError::InvalidCoordinate);
        },
    };
    let num: &str = match y {
        0 => "1",
        1 => "2",
        2 => "3",
        3 => "4",
        4 => "5",
        5 => "6",
        6 => "7",
        7 => "8",
        _ => {
            return Err(CodecError::InvalidCoordinate);
        },
    };
    proof {
        reveal_strlit("a");
        reveal_strlit("b");
        reveal_strlit("c");
        reveal_strlit("d");
        reveal_strlit("e");
        reveal_strlit("f");
        reveal_strlit("g");
        reveal_strlit("h");
        reveal_strlit("1");
        reveal_strlit("2");
        reveal_strlit("3");
        reveal_strlit("4");
        reveal_strlit("5");
        reveal_strlit("6");
        reveal_strlit("7");
        reveal_strlit("8");
    }
    let label = String::from_str(letter).concat(num);
    Ok(label)
}

/// Round trip from coordinates to label characters and back: for every
/// on-board coordinate pair, the label characters are valid and parse back
/// to the same pair.
pub proof fn lemma_coords_round_trip(x: int, y: int)
    requires
        0 <= x < 8,
        0 <= y < 8,
    ensures
        is_file_char(file_char_of(x)),
        is_rank_char(rank_char_of(y)),
        file_index_of(file_char_of(x)) == x,
        rank_index_of(rank_char_of(y)) == y,
{
}

/// Round trip from label characters to coordinates and back: for every
/// valid file letter and rank digit, the parsed coordinates lie on the
/// board and print back to the same characters.
pub proof fn lemma_label_round_trip(c0: char, c1: char)
    requires
        is_file_char(c0),
        is_rank_char(c1),
    ensures
        0 <= file_index_of(c0) < 8,
        0 <= rank_index_of(c1) < 8,
        file_char_of(file_index_of(c0)) == c0,
        rank_char_of(rank_index_of(c1)) == c1,
{
}

} // verus!
