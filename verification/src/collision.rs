use vstd::prelude::*;

use crate::grid::GridPos;
use crate::tilemap::ActiveCollision;

verus! {

/// `target` is blocked by the map or occupied by one of `npc_positions`.
pub open spec fn move_blocked(
    target: GridPos,
    collision: ActiveCollision,
    npc_positions: Seq<GridPos>,
) -> bool {
    collision.blocked_at(target.x as int, target.y as int) || npc_positions.contains(target)
}

/// True if `target` is blocked by static map geometry or by an NPC
/// currently standing there.
pub fn is_move_blocked(target: GridPos, collision: &ActiveCollision, npc_positions: &[GridPos]) -> (r:
    bool)
    ensures
        r == move_blocked(target, *collision, npc_positions@),
{
    if collision.is_blocked(target.x, target.y) {
        return true;
    }
    let mut i: usize = 0;
    while i < npc_positions.len()
        invariant
            i <= npc_positions@.len(),
            forall|k: int| 0 <= k < i ==> npc_positions@[k] != target,
        decreases npc_positions@.len() - i,
    {
        if npc_positions[i] == target {
            return true;
        }
        i = i + 1;
    }
    false
}

} // verus!
