//! The action codec: a bidirectional mapping between a chess move and an
//! action id in [0, 4672).
//!
//! An action id is `origin_index * 73 + move_type`, with
//! `origin_index = x * 8 + y` for the origin coordinates and `move_type`
//! in one of three bands:
//!
//! - directional, `direction * 8 + steps` with `steps = max(|dx|, |dy|)`:
//!   sliding moves, king steps, pawn pushes and captures including queen
//!   promotions;
//! - knight, `56 + knight_index`, the eight fixed knight leap vectors;
//! - underpromotion, `64 + piece_index * 3 + (dx + 1)`, for promotions to
//!   rook, bishop or knight (piece indices 0, 1 and 2); queen promotions
//!   fall through to the directional band.
//!
//! Encoding classifies in that order: underpromotion first, then knight,
//! then directional. Decoding dispatches on the `move_type` thresholds
//! (64 and 56) and never fails for an id in range, though the destination
//! it reconstructs may lie outside the board for ids no real move encodes
//! to.
use vstd::prelude::*;

use crate::ACTION_SPACE_LEN;
use crate::CodecError;
use crate::square::file_char_of;
use crate::square::rank_char_of;
use crate::square::coords_to_square;

verus! {

/// A dense move identifier in [0, 4672).
pub type ActionId = u16;

/// The piece a pawn promotes to.
#[derive(Clone, Copy, Debug, PartialEq, Eq, Structural)]
pub enum PromotionPiece {
    Rook,
    Bishop,
    Knight,
    Queen,
}

/// A chess move as the codec sees it: origin and destination coordinates,
/// and the promotion piece if the move promotes. Legality is the concern
/// of the external move generator, not of the codec.
#[derive(Clone, Copy, Debug, PartialEq, Eq)]
pub struct Move {
    pub origin_x: i16,
    pub origin_y: i16,
    pub dest_x: i16,
    pub dest_y: i16,
    pub promotion: Option<PromotionPiece>,
}

impl Move {
    /// Both endpoints lie on the board.
    pub open spec fn wf(self) -> bool {
        &&& 0 <= self.origin_x < 8
        &&& 0 <= self.origin_y < 8
        &&& 0 <= self.dest_x < 8
        &&& 0 <= self.dest_y < 8
    }

    /// Column delta, destination minus origin.
    pub open spec fn dx(self) -> int {
        self.dest_x - self.origin_x
    }

    /// Row delta, destination minus origin.
    pub open spec fn dy(self) -> int {
        self.dest_y - self.origin_y
    }

    /// The flat index of the origin square: x * 8 + y.
    pub open spec fn origin_index(self) -> int {
        self.origin_x * 8 + self.origin_y
    }

    /// A promotion to anything but a queen.
    pub open spec fn is_underpromotion(self) -> bool {
        match self.promotion {
            Some(p) => p != PromotionPiece::Queen,
            None => false,
        }
    }

    /// Builds a move from on-board coordinates.
    pub fn new(origin_x: i16, origin_y: i16, dest_x: i16, dest_y: i16, promotion: Option<
        PromotionPiece,
    >) -> (m: Move)
        requires
            0 <= origin_x < 8,
            0 <= origin_y < 8,
            0 <= dest_x < 8,
            0 <= dest_y < 8,
        ensures
            m == (Move { origin_x, origin_y, dest_x, dest_y, promotion }),
            m.wf(),
    {
        Move { origin_x, origin_y, dest_x, dest_y, promotion }
    }
}

/// The sign of an integer: -1, 0 or 1.
pub open spec fn signum(a: int) -> int {
    if a > 0 {
        1
    } else if a < 0 {
        -1
    } else {
        0
    }
}

/// The magnitude of an integer.
pub open spec fn magnitude(a: int) -> int {
    if a < 0 {
        -a
    } else {
        a
    }
}

/// The direction table: unit vectors (dx, dy) ordered
/// N, NE, E, SE, S, SW, W, NW. Out-of-range indices reuse the last entry;
/// every caller stays within [0, 8).
pub open spec fn direction_vector(d: int) -> (int, int) {
    if d == 0 {
        (0, 1)
    } else if d == 1 {
        (1, 1)
    } else if d == 2 {
        (1, 0)
    } else if d == 3 {
        (1, -1)
    } else if d == 4 {
        (0, -1)
    } else if d == 5 {
        (-1, -1)
    } else if d == 6 {
        (-1, 0)
    } else {
        (-1, 1)
    }
}

/// The index into the direction table of a sign pair; -1 for (0, 0),
/// which matches no direction.
pub open spec fn direction_index_of(sx: int, sy: int) -> int {
    if sx == 0 && sy == 1 {
        0
    } else if sx == 1 && sy == 1 {
        1
    } else if sx == 1 && sy == 0 {
        2
    } else if sx == 1 && sy == -1 {
        3
    } else if sx == 0 && sy == -1 {
        4
    } else if sx == -1 && sy == -1 {
        5
    } else if sx == -1 && sy == 0 {
        6
    } else if sx == -1 && sy == 1 {
        7
    } else {
        -1
    }
}

/// The knight leap table: the eight (dx, dy) vectors in their fixed order.
/// Out-of-range indices reuse the last entry; every caller stays within
/// [0, 8).
pub open spec fn knight_vector(k: int) -> (int, int) {
    if k == 0 {
        (1, 2)
    } else if k == 1 {
        (2, 1)
    } else if k == 2 {
        (2, -1)
    } else if k == 3 {
        (1, -2)
    } else if k == 4 {
        (-1, -2)
    } else if k == 5 {
        (-2, -1)
    } else if k == 6 {
        (-2, 1)
    } else {
        (-1, 2)
    }
}

/// The index into the knight leap table of a delta; -1 if the delta is
/// not a knight leap.
pub open spec fn knight_index_of(dxv: int, dyv: int) -> int {
    if dxv == 1 && dyv == 2 {
        0
    } else if dxv == 2 && dyv == 1 {
        1
    } else if dxv == 2 && dyv == -1 {
        2
    } else if dxv == 1 && dyv == -2 {
        3
    } else if dxv == -1 && dyv == -2 {
        4
    } else if dxv == -2 && dyv == -1 {
        5
    } else if dxv == -2 && dyv == 1 {
        6
    } else if dxv == -1 && dyv == 2 {
        7
    } else {
        -1
    }
}

/// Whether a delta is a knight leap: one step in one axis, two in the
/// other.
pub open spec fn is_knight_delta(dxv: int, dyv: int) -> bool {
    ||| magnitude(dxv) == 1 && magnitude(dyv) == 2
    ||| magnitude(dxv) == 2 && magnitude(dyv) == 1
}

/// The promotion-piece table: rook 0, bishop 1, knight 2. A queen never
/// reaches the table (queen promotions use the directional band); its
/// entry only keeps the function total.
pub open spec fn promotion_piece_index(p: PromotionPiece) -> int {
    match p {
        PromotionPiece::Rook => 0,
        PromotionPiece::Bishop => 1,
        PromotionPiece::Knight => 2,
        PromotionPiece::Queen => 3,
    }
}

/// The inverse promotion-piece table on indices 0, 1 and 2.
pub open spec fn promotion_piece_of(i: int) -> PromotionPiece {
    if i == 0 {
        PromotionPiece::Rook
    } else if i == 1 {
        PromotionPiece::Bishop
    } else {
        PromotionPiece::Knight
    }
}

/// Whether a move's geometry fits one of the three bands. An
/// underpromotion needs a column delta of -1, 0 or 1; any other move needs
/// a nonzero delta so that a direction matches its signs (knight leaps
/// always qualify).
pub open spec fn classifiable(m: Move) -> bool {
    if m.is_underpromotion() {
        -1 <= m.dx() <= 1
    } else {
        !(m.dx() == 0 && m.dy() == 0)
    }
}

/// The move type in [0, 73) that a classifiable move encodes to,
/// classified strictly in the order underpromotion, knight, directional.
pub open spec fn move_type_of(m: Move) -> int
    recommends
        m.wf(),
        classifiable(m),
{
    if m.is_underpromotion() {
        64 + promotion_piece_index(m.promotion->0) * 3 + (m.dx() + 1)
    } else if is_knight_delta(m.dx(), m.dy()) {
        56 + knight_index_of(m.dx(), m.dy())
    } else {
        direction_index_of(signum(m.dx()), signum(m.dy())) * 8 + if magnitude(m.dx()) >= magnitude(
            m.dy(),
        ) {
            magnitude(m.dx())
        } else {
            magnitude(m.dy())
        }
    }
}

/// The action id a classifiable move encodes to.
pub open spec fn action_id_of(m: Move) -> int
    recommends
        m.wf(),
        classifiable(m),
{
    m.origin_index() * 73 + move_type_of(m)
}

/// Encodes a move into its action id. Fails exactly on moves that fit no
/// band: an underpromotion whose column delta is outside [-1, 1], or a
/// null move from a square to itself.
pub fn encode(m: &Move) -> (r: Result<ActionId, CodecError>)
    requires
        m.wf(),
    ensures
        r is Ok <==> classifiable(*m),
        r is Ok ==> r->Ok_0 == action_id_of(*m) && r->Ok_0 < ACTION_SPACE_LEN,
        r is Err ==> r->Err_0 == CodecError::UnclassifiableMove,
{
    let origin_index: u16 = (m.origin_x * 8 + m.origin_y) as u16;
    let diff_col: i16 = m.dest_x - m.origin_x;
    let diff_row: i16 = m.dest_y - m.origin_y;

    if let Some(p) = m.promotion {
        if p != PromotionPiece::Queen {
            let piece_index: u16 = match p {
                PromotionPiece::Rook => 0,
                PromotionPiece::Bishop => 1,
                PromotionPiece::Knight => 2,
                PromotionPiece::Queen => 3,
            };
            let direction: u16 = match diff_col {
                -1 => 0,
                0 => 1,
                1 => 2,
                _ => {
                    return Err(CodecError::UnclassifiableMove);
                },
            };
            let move_type: u16 = 64 + piece_index * 3 + direction;
            return Ok(origin_index * 73 + move_type);
        }
    }

    let knight_index: Option<u16> = match (diff_col, diff_row) {
        (1, 2) => Some(0),
        (2, 1) => Some(1),
        (2, -1) => Some(2),
        (1, -2) => Some(3),
        (-1, -2) => Some(4),
        (-2, -1) => Some(5),
        (-2, 1) => Some(6),
        (-1, 2) => Some(7),
        _ => None,
    };
    if let Some(k) = knight_index {
        let move_type: u16 = 56 + k;
        return Ok(origin_index * 73 + move_type);
    }

    let sign_col: i16 = if diff_col > 0 {
        1
    } else if diff_col < 0 {
        -1
    } else {
        0
    };
    let sign_row: i16 = if diff_row > 0 {
        1
    } else if diff_row < 0 {
        -1
    } else {
        0
    };
    let direction: u16 = match (sign_col, sign_row) {
        (0, 1) => 0,
        (1, 1) => 1,
        (1, 0) => 2,
        (1, -1) => 3,
        (0, -1) => 4,
        (-1, -1) => 5,
        (-1, 0) => 6,
        (-1, 1) => 7,
        _ => {
            return Err(CodecError::UnclassifiableMove);
        },
    };
    let abs_col: i16 = if diff_col < 0 {
        -diff_col
    } else {
        diff_col
    };
    let abs_row: i16 = if diff_row < 0 {
        -diff_row
    } else {
        diff_row
    };
    let num_steps: u16 = (if abs_col >= abs_row {
        abs_col
    } else {
        abs_row
    }) as u16;
    let move_type: u16 = direction * 8 + num_steps;
    Ok(origin_index * 73 + move_type)
}

/// What an action id decodes to: the origin and destination coordinates
/// and, for the underpromotion band, the promoted-to piece. The
/// destination of an id that no real move encodes to may lie outside the
/// board; callers must not assume the result is a playable move.
#[derive(Clone, Copy, Debug, PartialEq, Eq)]
pub struct DecodedAction {
    pub origin_x: i16,
    pub origin_y: i16,
    pub dest_x: i16,
    pub dest_y: i16,
    pub promotion: Option<PromotionPiece>,
}

impl DecodedAction {
    /// The flat index of the origin square: x * 8 + y.
    pub open spec fn origin_index(self) -> int {
        self.origin_x * 8 + self.origin_y
    }
}

/// The directional band of the move-type space.
pub open spec fn is_directional_type(move_type: int) -> bool {
    0 <= move_type < 56
}

/// The knight band of the move-type space.
pub open spec fn is_knight_type(move_type: int) -> bool {
    56 <= move_type < 64
}

/// The underpromotion band of the move-type space.
pub open spec fn is_underpromotion_type(move_type: int) -> bool {
    64 <= move_type < 73
}

/// What decoding reconstructs from an action id: split the id into origin
/// index and move type, then dispatch on the move-type thresholds,
/// mirroring the encoder's bands.
pub open spec fn decode_spec(id: int) -> DecodedAction
    recommends
        0 <= id < 4672,
{
    let ox = (id / 73) / 8;
    let oy = (id / 73) % 8;
    let move_type = id % 73;
    if move_type >= 64 {
        let promo = move_type - 64;
        DecodedAction {
            origin_x: ox as i16,
            origin_y: oy as i16,
            dest_x: (ox + (promo % 3) - 1) as i16,
            dest_y: (oy + 1) as i16,
            promotion: Some(promotion_piece_of(promo / 3)),
        }
    } else if move_type >= 56 {
        let v = knight_vector(move_type - 56);
        DecodedAction {
            origin_x: ox as i16,
            origin_y: oy as i16,
            dest_x: (ox + v.0) as i16,
            dest_y: (oy + v.1) as i16,
            promotion: None,
        }
    } else {
        let v = direction_vector(move_type / 8);
        let steps = move_type % 8;
        DecodedAction {
            origin_x: ox as i16,
            origin_y: oy as i16,
            dest_x: (ox + v.0 * steps) as i16,
            dest_y: (oy + v.1 * steps) as i16,
            promotion: None,
        }
    }
}

/// Decodes an action id. Never fails for an id in range: it always yields
/// coordinates, though the destination may lie off the board for ids no
/// real move encodes to.
pub fn decode(id: ActionId) -> (r: DecodedAction)
    requires
        id < ACTION_SPACE_LEN,
    ensures
        r == decode_spec(id as int),
{
    let origin_sq: u16 = id / 73;
    let move_type: u16 = id % 73;
    let origin_x: i16 = (origin_sq / 8) as i16;
    let origin_y: i16 = (origin_sq % 8) as i16;

    if move_type >= 64 {
        let promo: u16 = move_type - 64;
        let piece = match promo / 3 {
            0 => PromotionPiece::Rook,
            1 => PromotionPiece::Bishop,
            _ => PromotionPiece::Knight,
        };
        let diff_col: i16 = (promo % 3) as i16 - 1;
        DecodedAction {
            origin_x,
            origin_y,
            dest_x: origin_x + diff_col,
            dest_y: origin_y + 1,
            promotion: Some(piece),
        }
    } else if move_type >= 56 {
        let (dx, dy): (i16, i16) = match move_type - 56 {
            0 => (1, 2),
            1 => (2, 1),
            2 => (2, -1),
            3 => (1, -2),
            4 => (-1, -2),
            5 => (-2, -1),
            6 => (-2, 1),
            _ => (-1, 2),
        };
        DecodedAction {
            origin_x,
            origin_y,
            dest_x: origin_x + dx,
            dest_y: origin_y + dy,
            promotion: None,
        }
    } else {
        let (dir_x, dir_y): (i16, i16) = match move_type / 8 {
            0 => (0, 1),
            1 => (1, 1),
            2 => (1, 0),
            3 => (1, -1),
            4 => (0, -1),
            5 => (-1, -1),
            6 => (-1, 0),
            _ => (-1, 1),
        };
        let num_steps: i16 = (move_type % 8) as i16;
        proof {
            assert(-7 <= dir_x * num_steps <= 7 && -7 <= dir_y * num_steps <= 7)
                by (nonlinear_arith)
                requires
                    -1 <= dir_x <= 1,
                    -1 <= dir_y <= 1,
                    0 <= num_steps <= 7,
            ;
        }
        DecodedAction {
            origin_x,
            origin_y,
            dest_x: origin_x + dir_x * num_steps,
            dest_y: origin_y + dir_y * num_steps,
            promotion: None,
        }
    }
}

/// The letter a promotion piece is written as in a move string.
pub open spec fn promotion_char_of(p: PromotionPiece) -> char {
    match p {
        PromotionPiece::Rook => 'R',
        PromotionPiece::Bishop => 'B',
        PromotionPiece::Knight => 'N',
        PromotionPiece::Queen => 'Q',
    }
}

/// Renders an action id as a move string: origin label, destination
/// label, and the promotion letter for the underpromotion band, as in
/// "e2e4" or "b7a8N". Fails exactly when the decoded destination lies
/// off the board, which happens only for ids that no real move encodes
/// to.
pub fn action_to_move_string(action: ActionId) -> (r: Result<String, CodecError>)
    requires
        action < ACTION_SPACE_LEN,
    ensures
        r is Ok <==> 0 <= decode_spec(action as int).dest_x < 8 && 0 <= decode_spec(
            action as int,
        ).dest_y < 8,
        r is Ok ==> ({
            let d = decode_spec(action as int);
            let s = r->Ok_0@;
            &&& s.len() == if d.promotion is Some {
                5int
            } else {
                4int
            }
            &&& s[0] == file_char_of(d.origin_x as int)
            &&& s[1] == rank_char_of(d.origin_y as int)
            &&& s[2] == file_char_of(d.dest_x as int)
            &&& s[3] == rank_char_of(d.dest_y as int)
            &&& (d.promotion matches Some(p) ==> s[4] == promotion_char_of(p))
        }),
        r is Err ==> r->Err_0 == CodecError::InvalidCoordinate,
{
    let d = decode(action);
    proof {
        lemma_origin_bijection(action as int);
    }
    let from_sq = match coords_to_square(d.origin_x, d.origin_y) {
        Ok(s) => s,
        Err(e) => {
            return Err(e);
        },
    };
    let to_sq = match coords_to_square(d.dest_x, d.dest_y) {
        Ok(s) => s,
        Err(_) => {
            return Err(CodecError::InvalidCoordinate);
        },
    };
    let squares = from_sq.concat(to_sq.as_str());
    match d.promotion {
        Some(p) => {
            let letter: &str = match p {
                PromotionPiece::Rook => "R",
                PromotionPiece::Bishop => "B",
                PromotionPiece::Knight => "N",
                PromotionPiece::Queen => "Q",
            };
            proof {
                reveal_strlit("R");
                reveal_strlit("B");
                reveal_strlit("N");
                reveal_strlit("Q");
            }
            Ok(squares.concat(letter))
        },
        None => Ok(squares),
    }
}

/// Splitting a composite action id recovers its two factors.
proof fn lemma_split_action_id(origin: int, move_type: int)
    requires
        0 <= origin < 64,
        0 <= move_type < 73,
    ensures
        (origin * 73 + move_type) / 73 == origin,
        (origin * 73 + move_type) % 73 == move_type,
        0 <= origin * 73 + move_type < 4672,
{
    assert(0 <= origin * 73 + move_type < 4672) by (nonlinear_arith)
        requires
            0 <= origin < 64,
            0 <= move_type < 73,
    ;
    vstd::arithmetic::div_mod::lemma_fundamental_div_mod_converse_div(
        origin * 73 + move_type,
        73,
        origin,
        move_type,
    );
    vstd::arithmetic::div_mod::lemma_fundamental_div_mod_converse_mod(
        origin * 73 + move_type,
        73,
        origin,
        move_type,
    );
}

/// Splitting a flat origin index recovers its coordinates.
proof fn lemma_split_origin_index(x: int, y: int)
    requires
        0 <= x < 8,
        0 <= y < 8,
    ensures
        (x * 8 + y) / 8 == x,
        (x * 8 + y) % 8 == y,
        0 <= x * 8 + y < 64,
{
    vstd::arithmetic::div_mod::lemma_fundamental_div_mod_converse_div(x * 8 + y, 8, x, y);
    vstd::arithmetic::div_mod::lemma_fundamental_div_mod_converse_mod(x * 8 + y, 8, x, y);
}

/// Every move type in [0, 73) falls in exactly one of the three bands,
/// so exactly one classification rule fires during decode.
pub proof fn lemma_band_disjointness(move_type: int)
    requires
        0 <= move_type < 73,
    ensures
        is_directional_type(move_type) || is_knight_type(move_type) || is_underpromotion_type(
            move_type,
        ),
        is_directional_type(move_type) ==> !is_knight_type(move_type) && !is_underpromotion_type(
            move_type,
        ),
        is_knight_type(move_type) ==> !is_directional_type(move_type) && !is_underpromotion_type(
            move_type,
        ),
        is_underpromotion_type(move_type) ==> !is_directional_type(move_type) && !is_knight_type(
            move_type,
        ),
{
}

/// Decoding any id in range recovers the origin square that the id was
/// built from: the origin coordinates are those of `id / 73`, they lie on
/// the board, and re-encoding them gives back `id / 73`.
pub proof fn lemma_origin_bijection(id: int)
    requires
        0 <= id < 4672,
    ensures
        decode_spec(id).origin_x == (id / 73) / 8,
        decode_spec(id).origin_y == (id / 73) % 8,
        0 <= decode_spec(id).origin_x < 8,
        0 <= decode_spec(id).origin_y < 8,
        decode_spec(id).origin_index() == id / 73,
{
    assert(0 <= id / 73 < 64) by (nonlinear_arith)
        requires
            0 <= id < 4672,
    ;
    vstd::arithmetic::div_mod::lemma_fundamental_div_mod(id / 73, 8);
}

/// Round trip for underpromotions: decoding the id of an encoded
/// underpromotion reproduces the origin, the destination column and the
/// promotion piece. The reconstructed destination row is always one above
/// the origin: the encoder does not record the row delta.
pub proof fn lemma_underpromotion_round_trip(m: Move)
    requires
        m.wf(),
        classifiable(m),
        m.is_underpromotion(),
    ensures
        is_underpromotion_type(move_type_of(m)),
        0 <= action_id_of(m) < 4672,
        decode_spec(action_id_of(m)).origin_x == m.origin_x,
        decode_spec(action_id_of(m)).origin_y == m.origin_y,
        decode_spec(action_id_of(m)).dest_x == m.dest_x,
        decode_spec(action_id_of(m)).dest_y == m.origin_y + 1,
        decode_spec(action_id_of(m)).promotion == m.promotion,
{
    let piece = promotion_piece_index(m.promotion->0);
    let promo = piece * 3 + (m.dx() + 1);
    let move_type = move_type_of(m);
    lemma_split_origin_index(m.origin_x as int, m.origin_y as int);
    lemma_split_action_id(m.origin_index(), move_type);
    vstd::arithmetic::div_mod::lemma_fundamental_div_mod_converse_div(
        promo,
        3,
        piece,
        m.dx() + 1,
    );
    vstd::arithmetic::div_mod::lemma_fundamental_div_mod_converse_mod(
        promo,
        3,
        piece,
        m.dx() + 1,
    );
}

/// Round trip for knight moves: decoding the id of an encoded knight
/// leap reproduces the origin and the destination exactly.
pub proof fn lemma_knight_round_trip(m: Move)
    requires
        m.wf(),
        !m.is_underpromotion(),
        is_knight_delta(m.dx(), m.dy()),
    ensures
        is_knight_type(move_type_of(m)),
        0 <= action_id_of(m) < 4672,
        decode_spec(action_id_of(m)).origin_x == m.origin_x,
        decode_spec(action_id_of(m)).origin_y == m.origin_y,
        decode_spec(action_id_of(m)).dest_x == m.dest_x,
        decode_spec(action_id_of(m)).dest_y == m.dest_y,
        decode_spec(action_id_of(m)).promotion is None,
{
    lemma_split_origin_index(m.origin_x as int, m.origin_y as int);
    lemma_split_action_id(m.origin_index(), move_type_of(m));
}

/// Round trip for straight-line moves: decoding the id of an encoded
/// directional move reproduces the origin and the destination, provided
/// the delta lies exactly on one of the eight rays and its direction is
/// not north-west. (A north-west move type lands on the values of the
/// knight band, where decode's thresholds classify it as a knight leap:
/// a quirk of the stride-8 directional sub-index this codec inherits.)
pub proof fn lemma_directional_round_trip(m: Move)
    requires
        m.wf(),
        classifiable(m),
        !m.is_underpromotion(),
        !is_knight_delta(m.dx(), m.dy()),
        m.dx() == 0 || m.dy() == 0 || magnitude(m.dx()) == magnitude(m.dy()),
        direction_index_of(signum(m.dx()), signum(m.dy())) != 7,
    ensures
        is_directional_type(move_type_of(m)),
        0 <= action_id_of(m) < 4672,
        decode_spec(action_id_of(m)).origin_x == m.origin_x,
        decode_spec(action_id_of(m)).origin_y == m.origin_y,
        decode_spec(action_id_of(m)).dest_x == m.dest_x,
        decode_spec(action_id_of(m)).dest_y == m.dest_y,
        decode_spec(action_id_of(m)).promotion is None,
{
    let dir = direction_index_of(signum(m.dx()), signum(m.dy()));
    let steps = if magnitude(m.dx()) >= magnitude(m.dy()) {
        magnitude(m.dx())
    } else {
        magnitude(m.dy())
    };
    assert(0 <= dir <= 6);
    assert(1 <= steps <= 7);
    lemma_split_origin_index(m.origin_x as int, m.origin_y as int);
    lemma_split_action_id(m.origin_index(), move_type_of(m));
    vstd::arithmetic::div_mod::lemma_fundamental_div_mod_converse_div(
        dir * 8 + steps,
        8,
        dir,
        steps,
    );
    vstd::arithmetic::div_mod::lemma_fundamental_div_mod_converse_mod(
        dir * 8 + steps,
        8,
        dir,
        steps,
    );
    let v = direction_vector(dir);
    assert(v.0 * steps == m.dx() && v.1 * steps == m.dy()) by (nonlinear_arith)
        requires
            v == direction_vector(dir),
            dir == direction_index_of(signum(m.dx()), signum(m.dy())),
            0 <= dir <= 6,
            steps == if magnitude(m.dx()) >= magnitude(m.dy()) {
                magnitude(m.dx())
            } else {
                magnitude(m.dy())
            },
            m.dx() == 0 || m.dy() == 0 || magnitude(m.dx()) == magnitude(m.dy()),
            !(m.dx() == 0 && m.dy() == 0),
    ;
}

} // verus!
