//! The action index: for one board position, the mapping from the action
//! id of every currently legal move to the move itself, the action mask
//! over the full space, and resolution of a chosen id back to a move.
//!
//! An index is scoped to a single position: it is built once from that
//! position's move list, queried read-only, and discarded once a move is
//! applied and the next position's index is built.
use vstd::prelude::*;

use crate::ACTION_SPACE_LEN;
use crate::CodecError;
use crate::codec::ActionId;
use crate::codec::Move;
use crate::codec::action_id_of;
use crate::codec::classifiable;
use crate::codec::encode;

verus! {

/// The map that a move list builds: each move inserted in list order
/// under its action id, a later move silently overwriting an earlier one
/// that encodes to the same id (not expected for a correct move
/// generator, since origin plus destination geometry is unique within
/// the scheme).
pub open spec fn action_map_of(moves: Seq<Move>) -> Map<int, Move>
    decreases moves.len(),
{
    if moves.len() == 0 {
        Map::empty()
    } else {
        action_map_of(moves.drop_last()).insert(action_id_of(moves.last()), moves.last())
    }
}

/// The map a slot vector holds: one entry per occupied slot.
spec fn slots_map(slots: Seq<Option<Move>>) -> Map<int, Move> {
    Map::new(|i: int| 0 <= i < slots.len() && slots[i] is Some, |i: int| slots[i]->0)
}

/// A position-scoped index from action ids to the legal moves that
/// encode to them.
pub struct ActionIndex {
    slots: Vec<Option<Move>>,
}

impl View for ActionIndex {
    type V = Map<int, Move>;

    /// The mapping from action ids to the moves filed under them.
    closed spec fn view(&self) -> Map<int, Move> {
        slots_map(self.slots@)
    }
}

impl ActionIndex {
    /// The index always carries one slot per point of the action space.
    pub closed spec fn wf(self) -> bool {
        self.slots@.len() == ACTION_SPACE_LEN
    }

    /// Builds the index for a position from its legal move list: every
    /// move is encoded and filed under its action id. Fails exactly when
    /// some move in the list is unclassifiable, so that a broken move
    /// generator is never silently swallowed.
    pub fn build(moves: &Vec<Move>) -> (r: Result<ActionIndex, CodecError>)
        requires
            forall|k: int| 0 <= k < moves@.len() ==> (#[trigger] moves@[k]).wf(),
        ensures
            r is Ok <==> (forall|k: int|
                0 <= k < moves@.len() ==> classifiable(#[trigger] moves@[k])),
            r is Ok ==> r->Ok_0.wf() && r->Ok_0@ == action_map_of(moves@),
            r is Err ==> r->Err_0 == CodecError::UnclassifiableMove,
    {
        let mut slots: Vec<Option<Move>> = Vec::new();
        let mut j: usize = 0;
        while j < ACTION_SPACE_LEN as usize
            invariant
                j <= ACTION_SPACE_LEN,
                slots@.len() == j,
                forall|i: int| 0 <= i < j ==> (#[trigger] slots@[i]) is None,
            decreases ACTION_SPACE_LEN as int - j,
        {
            slots.push(None);
            j += 1;
        }
        proof {
            assert(slots_map(slots@) =~= action_map_of(moves@.take(0)));
        }

        let mut i: usize = 0;
        while i < moves.len()
            invariant
                i <= moves@.len(),
                slots@.len() == ACTION_SPACE_LEN,
                forall|k: int| 0 <= k < moves@.len() ==> (#[trigger] moves@[k]).wf(),
                forall|k: int| 0 <= k < i ==> classifiable(#[trigger] moves@[k]),
                slots_map(slots@) == action_map_of(moves@.take(i as int)),
            decreases moves@.len() - i,
        {
            let m = moves[i];
            match encode(&m) {
                Err(_) => {
                    return Err(CodecError::UnclassifiableMove);
                },
                Ok(id) => {
                    let ghost before = slots@;
                    slots[id as usize] = Some(m);
                    proof {
                        assert(moves@.take(i + 1).drop_last() =~= moves@.take(i as int));
                        assert(moves@.take(i + 1).last() == moves@[i as int]);
                        assert(slots_map(slots@) =~= slots_map(before).insert(
                            id as int,
                            m,
                        ));
                    }
                },
            }
            i += 1;
        }
        proof {
            assert(moves@.take(moves@.len() as int) =~= moves@);
        }
        Ok(ActionIndex { slots })
    }

    /// The action mask: 4672 entries, 1 at every id this index holds and
    /// 0 elsewhere, aligned so that entry i answers for action id i.
    pub fn mask(&self) -> (r: Vec<u8>)
        requires
            self.wf(),
        ensures
            r@.len() == ACTION_SPACE_LEN,
            forall|i: int|
                0 <= i < r@.len() ==> (#[trigger] r@[i]) == (if self@.contains_key(i) {
                    1u8
                } else {
                    0u8
                }),
    {
        let mut out: Vec<u8> = Vec::new();
        let mut i: usize = 0;
        while i < ACTION_SPACE_LEN as usize
            invariant
                self.wf(),
                i <= ACTION_SPACE_LEN,
                out@.len() == i,
                forall|j: int|
                    0 <= j < i ==> (#[trigger] out@[j]) == (if self@.contains_key(j) {
                        1u8
                    } else {
                        0u8
                    }),
            decreases ACTION_SPACE_LEN as int - i,
        {
            if self.slots[i].is_some() {
                out.push(1);
            } else {
                out.push(0);
            }
            i += 1;
        }
        out
    }

    /// Resolves a chosen action id to the legal move it stands for.
    /// Fails exactly when the id is not a key of this index: the
    /// enforcement point that keeps an out-of-range or illegal agent
    /// choice from reaching the board.
    pub fn resolve(&self, id: ActionId) -> (r: Result<Move, CodecError>)
        requires
            self.wf(),
        ensures
            r is Ok <==> self@.contains_key(id as int),
            r is Ok ==> r->Ok_0 == self@[id as int],
            r is Err ==> r->Err_0 == CodecError::IllegalActionId,
    {
        if id >= ACTION_SPACE_LEN {
            return Err(CodecError::IllegalActionId);
        }
        match self.slots[id as usize] {
            Some(m) => Ok(m),
            None => Err(CodecError::IllegalActionId),
        }
    }
}

/// An id is a key of the map a move list builds exactly when some move
/// in the list encodes to it; the move filed under the key is then one
/// of those moves (the last, when several collide).
pub proof fn lemma_index_keys(moves: Seq<Move>, id: int)
    ensures
        action_map_of(moves).contains_key(id) <==> exists|k: int|
            0 <= k < moves.len() && action_id_of(#[trigger] moves[k]) == id,
        action_map_of(moves).contains_key(id) ==> exists|k: int|
            0 <= k < moves.len() && action_id_of(#[trigger] moves[k]) == id && moves[k]
                == action_map_of(moves)[id],
    decreases moves.len(),
{
    if moves.len() > 0 {
        lemma_index_keys(moves.drop_last(), id);
        if action_id_of(moves.last()) == id {
            assert(moves[moves.len() - 1] == moves.last());
        } else if action_map_of(moves).contains_key(id) {
            let k = choose|k: int|
                0 <= k < moves.drop_last().len() && action_id_of(
                    #[trigger] moves.drop_last()[k],
                ) == id && moves.drop_last()[k] == action_map_of(moves.drop_last())[id];
            assert(moves[k] == moves.drop_last()[k]);
        } else {
            assert(forall|k: int|
                0 <= k < moves.len() - 1 ==> moves.drop_last()[k] == #[trigger] moves[k]);
        }
    }
}

} // verus!
