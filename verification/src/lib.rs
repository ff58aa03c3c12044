//! A verified action-space codec for chess agents.
//!
//! A move is addressed by a dense integer identifier (an action id) in the
//! fixed range `[0, 4672)`: 64 origin squares times 73 per-origin move types
//! (8 directions x 7 step counts, 8 knight leaps, and 9 underpromotions).
//! The crate converts between square labels and coordinates, encodes moves
//! into action ids and decodes them back, and builds a per-position index
//! from the currently legal moves to answer mask and resolve queries.
//!
//! Board representation, legality checking and move generation are left to
//! an external chess engine; this crate only consumes plain move data.
use vstd::prelude::*;

mod codec;
mod index;
mod square;

pub use codec::ActionId;
pub use codec::DecodedAction;
pub use codec::Move;
pub use codec::PromotionPiece;
pub use codec::action_id_of;
pub use codec::action_to_move_string;
pub use codec::classifiable;
pub use codec::decode;
pub use codec::decode_spec;
pub use codec::encode;
pub use codec::is_directional_type;
pub use codec::is_knight_type;
pub use codec::is_underpromotion_type;
pub use codec::lemma_band_disjointness;
pub use codec::lemma_directional_round_trip;
pub use codec::lemma_knight_round_trip;
pub use codec::lemma_origin_bijection;
pub use codec::lemma_underpromotion_round_trip;
pub use codec::move_type_of;
pub use codec::promotion_char_of;
pub use index::ActionIndex;
pub use index::action_map_of;
pub use index::lemma_index_keys;
pub use square::coords_to_square;
pub use square::file_char_of;
pub use square::file_index_of;
pub use square::is_file_char;
pub use square::is_rank_char;
pub use square::lemma_coords_round_trip;
pub use square::lemma_label_round_trip;
pub use square::rank_char_of;
pub use square::rank_index_of;
pub use square::square_to_coords;

verus! {

/// Size of the flat action space: 64 origin squares x 73 move types.
pub const ACTION_SPACE_LEN: u16 = 4672;

/// The error kinds of the codec.
#[derive(Clone, Copy, Debug, PartialEq, Eq, Structural)]
pub enum CodecError {
    /// A square label whose file letter or rank digit is out of range.
    InvalidSquare,
    /// A coordinate outside the board passed where a square was expected.
    InvalidCoordinate,
    /// A move whose geometry fits none of the three encoding bands.
    UnclassifiableMove,
    /// An action id that no currently legal move encodes to.
    IllegalActionId,
}

} // verus!
