use vstd::prelude::*;

use crate::collision::{is_move_blocked, move_blocked};
use crate::grid::{Direction, Facing, GridPos};
use crate::tilemap::ActiveCollision;

verus! {

/// Which movement keys are held this frame (arrow keys or WASD).
#[derive(Debug, Clone, Copy, PartialEq, Eq, Structural)]
pub struct HeldKeys {
    pub up: bool,
    pub down: bool,
    pub left: bool,
    pub right: bool,
}

/// The direction the held keys ask for; up beats down beats left beats
/// right.
pub open spec fn held_direction(keys: HeldKeys) -> Option<Direction> {
    if keys.up {
        Some(Direction::Up)
    } else if keys.down {
        Some(Direction::Down)
    } else if keys.left {
        Some(Direction::Left)
    } else if keys.right {
        Some(Direction::Right)
    } else {
        None
    }
}

/// The player's tile and facing after one frame of movement input, and
/// whether they started a step.
pub open spec fn player_step(
    input_locked: bool,
    keys: HeldKeys,
    pos: GridPos,
    facing: Facing,
    collision: ActiveCollision,
    npc_positions: Seq<GridPos>,
) -> (GridPos, Facing, bool) {
    if input_locked {
        (pos, facing, false)
    } else {
        match held_direction(keys) {
            None => (pos, facing, false),
            Some(dir) => {
                let target = pos.step(dir);
                if move_blocked(target, collision, npc_positions) {
                    (pos, Facing { dir }, false)
                } else {
                    (target, Facing { dir }, true)
                }
            },
        }
    }
}

/// The direction the held keys ask for.
pub fn direction_from_keys(keys: HeldKeys) -> (r: Option<Direction>)
    ensures
        r == held_direction(keys),
{
    if keys.up {
        Some(Direction::Up)
    } else if keys.down {
        Some(Direction::Down)
    } else if keys.left {
        Some(Direction::Left)
    } else if keys.right {
        Some(Direction::Right)
    } else {
        None
    }
}

/// One frame of player movement: unless input is locked, a held direction
/// turns the player that way and, if the neighbouring tile is neither
/// blocked by the map nor taken by an NPC, moves them onto it. Returns
/// whether a step was taken (the caller animates it).
pub fn player_input_system(
    input_locked: bool,
    keys: HeldKeys,
    pos: &mut GridPos,
    facing: &mut Facing,
    collision: &ActiveCollision,
    npc_positions: &[GridPos],
) -> (moved: bool)
    requires
        !input_locked ==> (held_direction(keys) matches Some(d) ==> old(pos).can_step(d)),
    ensures
        (*final(pos), *final(facing), moved) == player_step(
            input_locked,
            keys,
            *old(pos),
            *old(facing),
            *collision,
            npc_positions@,
        ),
{
    if input_locked {
        return false;
    }
    let dir = match direction_from_keys(keys) {
        Some(d) => d,
        None => {
            return false;
        },
    };
    facing.dir = dir;

    let target = pos.stepped(dir);
    if is_move_blocked(target, collision, npc_positions) {
        return false;
    }
    *pos = target;
    true
}

/// A single held key moves that way; with several, up wins over down,
/// down over left and left over right; with none the player stays.
pub proof fn lemma_key_priority(keys: HeldKeys)
    ensures
        keys.up ==> held_direction(keys) == Some(Direction::Up),
        !keys.up && keys.down ==> held_direction(keys) == Some(Direction::Down),
        !keys.up && !keys.down && keys.left ==> held_direction(keys) == Some(Direction::Left),
        !keys.up && !keys.down && !keys.left && keys.right ==> held_direction(keys) == Some(
            Direction::Right,
        ),
        !keys.up && !keys.down && !keys.left && !keys.right ==> held_direction(keys) is None,
{
}

/// The player only ever steps onto a neighbouring tile that is free: not
/// blocked by the map and not taken by an NPC. In particular a player on
/// open ground stays on open ground.
pub proof fn lemma_player_only_steps_onto_free_tiles(
    input_locked: bool,
    keys: HeldKeys,
    pos: GridPos,
    facing: Facing,
    collision: ActiveCollision,
    npc_positions: Seq<GridPos>,
)
    requires
        pos.can_step_all(),
    ensures
        ({
            let (new_pos, _, moved) = player_step(
                input_locked,
                keys,
                pos,
                facing,
                collision,
                npc_positions,
            );
            &&& moved ==> pos.adjacent(new_pos)
            &&& moved ==> !collision.blocked_at(new_pos.x as int, new_pos.y as int)
            &&& moved ==> !npc_positions.contains(new_pos)
            &&& !moved ==> new_pos == pos
            &&& !collision.blocked_at(pos.x as int, pos.y as int) ==> !collision.blocked_at(
                new_pos.x as int,
                new_pos.y as int,
            )
        }),
{
}

} // verus!
