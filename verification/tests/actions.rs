use chess_actions::ACTION_SPACE_LEN;
use chess_actions::ActionIndex;
use chess_actions::CodecError;
use chess_actions::Move;
use chess_actions::PromotionPiece;
use chess_actions::action_to_move_string;
use chess_actions::decode;
use chess_actions::encode;

fn mv(origin: &str, dest: &str, promotion: Option<PromotionPiece>) -> Move {
    let (ox, oy) = chess_actions::square_to_coords(origin).unwrap();
    let (dx, dy) = chess_actions::square_to_coords(dest).unwrap();
    Move::new(ox, oy, dx, dy, promotion)
}

#[test]
fn action_space_size() {
    assert_eq!(ACTION_SPACE_LEN, 4672);
}

#[test]
fn origin_bijection_over_the_whole_space() {
    for id in 0..ACTION_SPACE_LEN {
        let d = decode(id);
        let origin = id / 73;
        assert_eq!(d.origin_x, (origin / 8) as i16);
        assert_eq!(d.origin_y, (origin % 8) as i16);
        assert_eq!((d.origin_x * 8 + d.origin_y) as u16, origin);
    }
}

#[test]
fn band_thresholds_partition_move_types() {
    for move_type in 0..73u16 {
        let directional = move_type < 56;
        let knight = (56..64).contains(&move_type);
        let underpromotion = (64..73).contains(&move_type);
        let fired = [directional, knight, underpromotion]
            .iter()
            .filter(|&&b| b)
            .count();
        assert_eq!(fired, 1);
    }
}

#[test]
fn directional_pawn_double_push() {
    let m = mv("e2", "e4", None);
    let id = encode(&m).unwrap();
    // origin e2 has index 4 * 8 + 1 = 33; north is direction 0, two steps.
    assert_eq!(id, 33 * 73 + 2);
    assert_eq!(id % 73, 0 * 8 + 2);
    let d = decode(id);
    assert_eq!((d.dest_x, d.dest_y), (4, 3));
    assert_eq!(d.promotion, None);
    assert_eq!(action_to_move_string(id), Ok(String::from("e2e4")));
}

#[test]
fn knight_development_move() {
    let m = mv("g1", "f3", None);
    let id = encode(&m).unwrap();
    // origin g1 has index 48; the (-1, 2) leap is knight entry 7.
    assert_eq!(id, 48 * 73 + 56 + 7);
    let d = decode(id);
    assert_eq!((d.dest_x, d.dest_y), (5, 2));
    assert_eq!(d.promotion, None);
    assert_eq!(action_to_move_string(id), Ok(String::from("g1f3")));
}

#[test]
fn underpromotion_capture_to_knight() {
    let m = mv("b7", "a8", Some(PromotionPiece::Knight));
    let id = encode(&m).unwrap();
    // knight is piece 2, a column delta of -1 is direction 0: 64 + 2 * 3.
    assert_eq!(id % 73, 70);
    assert_eq!(id, 14 * 73 + 70);
    let d = decode(id);
    assert_eq!((d.dest_x, d.dest_y), (0, 7));
    assert_eq!(d.promotion, Some(PromotionPiece::Knight));
    assert_eq!(action_to_move_string(id), Ok(String::from("b7a8N")));
}

#[test]
fn underpromotions_to_rook_and_bishop() {
    let rook = encode(&mv("b7", "b8", Some(PromotionPiece::Rook))).unwrap();
    assert_eq!(rook % 73, 64 + 0 * 3 + 1);
    assert_eq!(action_to_move_string(rook), Ok(String::from("b7b8R")));
    let bishop = encode(&mv("b7", "c8", Some(PromotionPiece::Bishop))).unwrap();
    assert_eq!(bishop % 73, 64 + 1 * 3 + 2);
    assert_eq!(action_to_move_string(bishop), Ok(String::from("b7c8B")));
}

#[test]
fn queen_promotion_falls_through_to_directional() {
    let m = mv("b7", "b8", Some(PromotionPiece::Queen));
    let id = encode(&m).unwrap();
    // one step north: directional move type 1, not in the band from 64 up.
    assert_eq!(id % 73, 1);
    assert_eq!(id, 14 * 73 + 1);
    let d = decode(id);
    assert_eq!((d.dest_x, d.dest_y), (1, 7));
    assert_eq!(d.promotion, None);
    // A queen promotion's string therefore carries no promotion letter.
    assert_eq!(action_to_move_string(id), Ok(String::from("b7b8")));
}

#[test]
fn null_move_is_unclassifiable() {
    let m = mv("d4", "d4", None);
    assert_eq!(encode(&m), Err(CodecError::UnclassifiableMove));
}

#[test]
fn wide_underpromotion_is_unclassifiable() {
    let m = mv("a7", "c8", Some(PromotionPiece::Rook));
    assert_eq!(encode(&m), Err(CodecError::UnclassifiableMove));
}

#[test]
fn north_west_slide_lands_on_knight_band() {
    // The stride-8 directional sub-index sends north-west moves into the
    // values of the knight band, where decode reconstructs a knight leap
    // whose destination can leave the board.
    let m = mv("h1", "g2", None);
    let id = encode(&m).unwrap();
    assert_eq!(id % 73, 7 * 8 + 1);
    let d = decode(id);
    assert_eq!((d.dest_x, d.dest_y), (9, 1));
    assert_eq!(
        action_to_move_string(id),
        Err(CodecError::InvalidCoordinate)
    );
}

#[test]
fn mask_length_is_the_action_space_size() {
    let index = ActionIndex::build(&vec![]).unwrap();
    assert_eq!(index.mask().len(), 4672);
    let index = ActionIndex::build(&vec![mv("e2", "e4", None)]).unwrap();
    assert_eq!(index.mask().len(), 4672);
}

#[test]
fn mask_agrees_with_the_encoded_move_set() {
    let moves = vec![
        mv("e2", "e4", None),
        mv("g1", "f3", None),
        mv("b7", "a8", Some(PromotionPiece::Knight)),
        mv("b7", "b8", Some(PromotionPiece::Queen)),
    ];
    let ids: Vec<u16> = moves.iter().map(|m| encode(m).unwrap()).collect();
    let index = ActionIndex::build(&moves).unwrap();
    let mask = index.mask();
    assert_eq!(mask.len(), 4672);
    for id in 0..ACTION_SPACE_LEN {
        let expected = if ids.contains(&id) { 1 } else { 0 };
        assert_eq!(mask[id as usize], expected);
    }
}

#[test]
fn resolve_returns_the_indexed_move() {
    let m = mv("e2", "e4", None);
    let index = ActionIndex::build(&vec![m]).unwrap();
    let id = encode(&m).unwrap();
    assert_eq!(index.resolve(id), Ok(m));
}

#[test]
fn resolve_fails_wherever_the_mask_is_zero() {
    let moves = vec![mv("e2", "e4", None), mv("g1", "f3", None)];
    let index = ActionIndex::build(&moves).unwrap();
    let mask = index.mask();
    for id in 0..ACTION_SPACE_LEN {
        match index.resolve(id) {
            Ok(_) => assert_eq!(mask[id as usize], 1),
            Err(e) => {
                assert_eq!(mask[id as usize], 0);
                assert_eq!(e, CodecError::IllegalActionId);
            }
        }
    }
}

#[test]
fn resolve_rejects_ids_past_the_space() {
    let index = ActionIndex::build(&vec![mv("e2", "e4", None)]).unwrap();
    assert_eq!(index.resolve(4672), Err(CodecError::IllegalActionId));
    assert_eq!(index.resolve(u16::MAX), Err(CodecError::IllegalActionId));
}

#[test]
fn build_fails_on_an_unclassifiable_move() {
    let moves = vec![mv("e2", "e4", None), mv("d4", "d4", None)];
    assert_eq!(
        ActionIndex::build(&moves).err(),
        Some(CodecError::UnclassifiableMove)
    );
}

#[test]
fn later_move_overwrites_an_earlier_collision() {
    // The underpromotion band does not record the row delta, so these two
    // moves encode to the same id; the later one wins.
    let first = mv("b7", "a8", Some(PromotionPiece::Knight));
    let second = mv("b7", "a7", Some(PromotionPiece::Knight));
    let id = encode(&first).unwrap();
    assert_eq!(encode(&second).unwrap(), id);
    let index = ActionIndex::build(&vec![first, second]).unwrap();
    assert_eq!(index.resolve(id), Ok(second));
}

#[test]
fn decode_covers_every_id_in_range() {
    for id in 0..ACTION_SPACE_LEN {
        let d = decode(id);
        assert!((0..8).contains(&d.origin_x) && (0..8).contains(&d.origin_y));
        let move_type = id % 73;
        if move_type >= 64 {
            assert!(d.promotion.is_some());
            assert_eq!(d.dest_y, d.origin_y + 1);
        } else {
            assert_eq!(d.promotion, None);
        }
    }
}
