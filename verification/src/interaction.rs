use vstd::prelude::*;

use crate::grid::{Direction, Facing, GridPos};
use crate::npc::NpcId;
use crate::tilemap::gun_spot_pos;

verus! {

/// Where a door leads.
#[derive(Debug, Clone, Copy, PartialEq, Eq, Structural)]
pub enum DoorTarget {
    EnterHouse,
    ExitHouse,
}

/// Something the player can interact with by standing next to it.
#[derive(Debug, Clone, Copy)]
pub enum Interactable {
    Npc(NpcId),
    Door(DoorTarget),
    GunHidingSpot,
    Sign(&'static str),
}

/// Fired when the player successfully interacts with something in front of
/// them. Consumed by whichever part of the game (dialogue, transitions,
/// ...) cares about that particular [`Interactable`] variant.
#[derive(Debug, Clone, Copy)]
pub struct InteractionEvent(pub Interactable);

/// `item` may be used from where the player stands: the gun's hiding spot
/// only from just south of it while facing north onto it (`faced_north`),
/// everything else from any neighbouring tile.
pub open spec fn usable(item: Interactable, faced_north: bool) -> bool {
    match item {
        Interactable::GunHidingSpot => faced_north,
        _ => true,
    }
}

/// The first usable interactable at `target` among `items[i..]`.
pub open spec fn first_at_from(
    items: Seq<(GridPos, Interactable)>,
    target: GridPos,
    faced_north: bool,
    i: int,
) -> Option<Interactable>
    decreases items.len() - i,
{
    if i < 0 || i >= items.len() {
        None
    } else if items[i].0 == target && usable(items[i].1, faced_north) {
        Some(items[i].1)
    } else {
        first_at_from(items, target, faced_north, i + 1)
    }
}

/// The first usable interactable standing at `target`.
pub open spec fn first_at(
    items: Seq<(GridPos, Interactable)>,
    target: GridPos,
    faced_north: bool,
) -> Option<Interactable> {
    first_at_from(items, target, faced_north, 0)
}

/// The tiles the interact key tries, in order: the faced one first, then
/// every neighbour in the order up, down, left, right.
pub open spec fn search_order(facing: Direction) -> Seq<Direction> {
    seq![facing, Direction::Up, Direction::Down, Direction::Left, Direction::Right]
}

/// What the `i`-th tried tile offers. Only the faced tile, and only when
/// facing north, offers the gun's hiding spot.
pub open spec fn attempt(
    pos: GridPos,
    facing: Direction,
    items: Seq<(GridPos, Interactable)>,
    i: int,
) -> Option<Interactable> {
    first_at(items, pos.step(search_order(facing)[i]), i == 0 && facing == Direction::Up)
}

/// What the player at `pos` looking `facing` interacts with: the first
/// tried tile that offers something.
pub open spec fn interaction_target(
    pos: GridPos,
    facing: Direction,
    items: Seq<(GridPos, Interactable)>,
) -> Option<Interactable> {
    if attempt(pos, facing, items, 0) is Some {
        attempt(pos, facing, items, 0)
    } else if attempt(pos, facing, items, 1) is Some {
        attempt(pos, facing, items, 1)
    } else if attempt(pos, facing, items, 2) is Some {
        attempt(pos, facing, items, 2)
    } else if attempt(pos, facing, items, 3) is Some {
        attempt(pos, facing, items, 3)
    } else {
        attempt(pos, facing, items, 4)
    }
}

/// Every tile the search actually tries (it stops at the first that
/// offers something) lies inside the `i32` coordinate range.
pub open spec fn search_in_range(
    pos: GridPos,
    facing: Direction,
    items: Seq<(GridPos, Interactable)>,
) -> bool {
    let o = search_order(facing);
    &&& pos.can_step(o[0])
    &&& attempt(pos, facing, items, 0) is None ==> pos.can_step(o[1])
    &&& attempt(pos, facing, items, 0) is None && attempt(pos, facing, items, 1) is None
        ==> pos.can_step(o[2])
    &&& attempt(pos, facing, items, 0) is None && attempt(pos, facing, items, 1) is None
        && attempt(pos, facing, items, 2) is None ==> pos.can_step(o[3])
    &&& attempt(pos, facing, items, 0) is None && attempt(pos, facing, items, 1) is None
        && attempt(pos, facing, items, 2) is None && attempt(pos, facing, items, 3) is None
        ==> pos.can_step(o[4])
}

/// The interaction a press of the interact key causes, if any.
pub open spec fn interaction_for_key(
    input_locked: bool,
    interact_just_pressed: bool,
    player: Option<(GridPos, Facing)>,
    items: Seq<(GridPos, Interactable)>,
) -> Option<Interactable> {
    if input_locked || !interact_just_pressed {
        None
    } else {
        match player {
            None => None,
            Some((pos, facing)) => interaction_target(pos, facing.dir, items),
        }
    }
}

/// The search reaches its `k`-th tile only if that tile is in range.
proof fn lemma_tried_tile_in_range(
    pos: GridPos,
    facing: Direction,
    items: Seq<(GridPos, Interactable)>,
    k: int,
)
    requires
        0 <= k < 5,
        search_in_range(pos, facing, items),
        forall|j: int| 0 <= j < k ==> #[trigger] attempt(pos, facing, items, j) is None,
    ensures
        pos.can_step(search_order(facing)[k]),
{
    if k >= 1 {
        assert(attempt(pos, facing, items, 0) is None);
    }
    if k >= 2 {
        assert(attempt(pos, facing, items, 1) is None);
    }
    if k >= 3 {
        assert(attempt(pos, facing, items, 2) is None);
    }
    if k >= 4 {
        assert(attempt(pos, facing, items, 3) is None);
    }
}

/// The first usable interactable standing at `target`.
fn find_at(items: &[(GridPos, Interactable)], target: GridPos, faced_north: bool) -> (r: Option<
    Interactable,
>)
    ensures
        r == first_at(items@, target, faced_north),
{
    let mut i: usize = 0;
    while i < items.len()
        invariant
            i <= items@.len(),
            first_at(items@, target, faced_north) == first_at_from(
                items@,
                target,
                faced_north,
                i as int,
            ),
        decreases items@.len() - i,
    {
        let usable_here = match items[i].1 {
            Interactable::GunHidingSpot => faced_north,
            _ => true,
        };
        if items[i].0 == target && usable_here {
            return Some(items[i].1);
        }
        i = i + 1;
    }
    None
}

/// Whether pressing the interact key would try a tile beyond the `i32`
/// coordinate range (the search stops at the first tile that offers
/// something).
pub fn interaction_search_overflows(
    player_pos: GridPos,
    facing: Facing,
    interactables: &[(GridPos, Interactable)],
) -> (r: bool)
    ensures
        r == !search_in_range(player_pos, facing.dir, interactables@),
{
    let order: [Direction; 5] = [
        facing.dir,
        Direction::Up,
        Direction::Down,
        Direction::Left,
        Direction::Right,
    ];
    let mut k: usize = 0;
    while k < 5
        invariant
            k <= 5,
            order@ == search_order(facing.dir),
            forall|j: int| 0 <= j < k ==> player_pos.can_step(#[trigger] order@[j]),
            forall|j: int| 0 <= j < k ==> #[trigger] attempt(player_pos, facing.dir, interactables@, j) is None,
        decreases 5 - k,
    {
        let (dx, dy) = order[k].offset();
        if player_pos.x.checked_add(dx).is_none() || player_pos.y.checked_add(dy).is_none() {
            proof {
                let s = interactables@;
                let p = player_pos;
                let f = facing.dir;
                assert(k >= 1 ==> attempt(p, f, s, 0) is None);
                assert(k >= 2 ==> attempt(p, f, s, 1) is None);
                assert(k >= 3 ==> attempt(p, f, s, 2) is None);
                assert(k >= 4 ==> attempt(p, f, s, 3) is None);
            }
            return true;
        }
        let target = player_pos.stepped(order[k]);
        if find_at(interactables, target, k == 0 && facing.dir == Direction::Up).is_some() {
            proof {
                let s = interactables@;
                let p = player_pos;
                let f = facing.dir;
                assert(k >= 1 ==> attempt(p, f, s, 0) is None);
                assert(k >= 2 ==> attempt(p, f, s, 1) is None);
                assert(k >= 3 ==> attempt(p, f, s, 2) is None);
                assert(k >= 4 ==> attempt(p, f, s, 3) is None);
                assert(k >= 1 ==> p.can_step(order@[0]));
                assert(k >= 2 ==> p.can_step(order@[1]));
                assert(k >= 3 ==> p.can_step(order@[2]));
                assert(k >= 4 ==> p.can_step(order@[3]));
            }
            return false;
        }
        k = k + 1;
    }
    proof {
        let s = interactables@;
        let p = player_pos;
        let f = facing.dir;
        assert(attempt(p, f, s, 0) is None && attempt(p, f, s, 1) is None);
        assert(attempt(p, f, s, 2) is None && attempt(p, f, s, 3) is None);
        assert(p.can_step(order@[0]) && p.can_step(order@[1]) && p.can_step(order@[2]));
        assert(p.can_step(order@[3]) && p.can_step(order@[4]));
    }
    false
}

/// Decides what a press of the interact key reaches: nothing while input
/// is locked or without a player; otherwise whatever stands on the tile
/// the player faces, or failing that on any adjacent tile (standing right
/// next to something is enough even if the facing isn't exact). The gun's
/// hiding spot is the exception: it can only be used standing just south
/// of it, facing north onto it. `interactables` lists every interactable
/// with its tile.
pub fn interact_key_system(
    input_locked: bool,
    interact_just_pressed: bool,
    player: Option<(GridPos, Facing)>,
    interactables: &[(GridPos, Interactable)],
) -> (r: Option<InteractionEvent>)
    requires
        !input_locked && interact_just_pressed ==> (player matches Some((pos, facing))
            ==> search_in_range(pos, facing.dir, interactables@)),
    ensures
        r matches Some(e) ==> interaction_for_key(
            input_locked,
            interact_just_pressed,
            player,
            interactables@,
        ) == Some(e.0),
        r is None ==> interaction_for_key(
            input_locked,
            interact_just_pressed,
            player,
            interactables@,
        ) is None,
        r matches Some(e) && e.0 is GunHidingSpot ==> (player matches Some((pos, facing)) && facing.dir
            == Direction::Up && exists|k: int|
            0 <= k < interactables@.len() && interactables@[k].0 == pos.step(Direction::Up)
                && #[trigger] interactables@[k].1 is GunHidingSpot),
{
    if input_locked || !interact_just_pressed {
        return None;
    }
    let (player_pos, facing) = match player {
        Some(p) => p,
        None => {
            return None;
        },
    };
    let order: [Direction; 5] = [
        facing.dir,
        Direction::Up,
        Direction::Down,
        Direction::Left,
        Direction::Right,
    ];
    let mut k: usize = 0;
    while k < 5
        invariant
            k <= 5,
            search_in_range(player_pos, facing.dir, interactables@),
            player == Some((player_pos, facing)),
            !input_locked && interact_just_pressed,
            order@ == search_order(facing.dir),
            forall|j: int| 0 <= j < k ==> #[trigger] attempt(player_pos, facing.dir, interactables@, j) is None,
        decreases 5 - k,
    {
        proof {
            lemma_tried_tile_in_range(player_pos, facing.dir, interactables@, k as int);
        }
        let target = player_pos.stepped(order[k]);
        if let Some(it) = find_at(interactables, target, k == 0 && facing.dir == Direction::Up) {
            proof {
                let s = interactables@;
                let p = player_pos;
                let f = facing.dir;
                assert(k >= 1 ==> attempt(p, f, s, 0) is None);
                assert(k >= 2 ==> attempt(p, f, s, 1) is None);
                assert(k >= 3 ==> attempt(p, f, s, 2) is None);
                assert(k >= 4 ==> attempt(p, f, s, 3) is None);
                assert(attempt(p, f, s, k as int) == Some(it));
                if it is GunHidingSpot {
                    let i = lemma_first_at_from_found(s, target, k == 0 && f == Direction::Up, 0);
                    assert(k == 0 && f == Direction::Up);
                    assert(s[i].1 is GunHidingSpot);
                }
            }
            return Some(InteractionEvent(it));
        }
        k = k + 1;
    }
    proof {
        let s = interactables@;
        let p = player_pos;
        let f = facing.dir;
        assert(attempt(p, f, s, 0) is None);
        assert(attempt(p, f, s, 1) is None);
        assert(attempt(p, f, s, 2) is None);
        assert(attempt(p, f, s, 3) is None);
        assert(attempt(p, f, s, 4) is None);
    }
    None
}

/// Whatever the interact key reaches stands on a tile adjacent to the
/// player.
pub proof fn lemma_interaction_is_adjacent(
    input_locked: bool,
    interact_just_pressed: bool,
    pos: GridPos,
    facing: Facing,
    items: Seq<(GridPos, Interactable)>,
)
    requires
        pos.can_step_all(),
        interaction_for_key(input_locked, interact_just_pressed, Some((pos, facing)), items) is Some,
    ensures
        exists|k: int|
            0 <= k < items.len() && pos.adjacent(#[trigger] items[k].0) && Some(items[k].1)
                == interaction_for_key(
                input_locked,
                interact_just_pressed,
                Some((pos, facing)),
                items,
            ),
{
    let r = interaction_for_key(input_locked, interact_just_pressed, Some((pos, facing)), items);
    let dirs = search_order(facing.dir);
    let j = choose|j: int| 0 <= j < 5 && attempt(pos, facing.dir, items, j) == r;
    let k = lemma_first_at_from_found(
        items,
        pos.step(dirs[j]),
        j == 0 && facing.dir == Direction::Up,
        0,
    );
    assert(pos.adjacent(items[k].0));
}

/// The faced tile comes first: whatever usable thing stands on it is what
/// the key reaches; only when it offers nothing does the key reach a
/// neighbour, and then never the gun's hiding spot.
pub proof fn lemma_faced_tile_comes_first(pos: GridPos, facing: Direction, items: Seq<(GridPos, Interactable)>)
    ensures
        first_at(items, pos.step(facing), facing == Direction::Up) is Some ==> interaction_target(
            pos,
            facing,
            items,
        ) == first_at(items, pos.step(facing), facing == Direction::Up),
        first_at(items, pos.step(facing), facing == Direction::Up) is None && interaction_target(
            pos,
            facing,
            items,
        ) is Some ==> !(interaction_target(pos, facing, items)->0 is GunHidingSpot),
{
    let r = interaction_target(pos, facing, items);
    if first_at(items, pos.step(facing), facing == Direction::Up) is None && r is Some {
        let j = choose|j: int| 1 <= j < 5 && attempt(pos, facing, items, j) == r;
        let k = lemma_first_at_from_found(items, pos.step(search_order(facing)[j]), false, 0);
    }
}

/// The gun's hiding spot is only ever used by a player who faces north
/// onto it; with the spot at [`gun_spot_pos`] that means standing on the
/// tile just south of it.
pub proof fn lemma_gun_spot_only_from_the_south(
    input_locked: bool,
    interact_just_pressed: bool,
    pos: GridPos,
    facing: Facing,
    items: Seq<(GridPos, Interactable)>,
)
    requires
        pos.can_step_all(),
        forall|k: int|
            0 <= k < items.len() && #[trigger] items[k].1 is GunHidingSpot ==> items[k].0
                == gun_spot_pos(),
        interaction_for_key(input_locked, interact_just_pressed, Some((pos, facing)), items)
            matches Some(it) && it is GunHidingSpot,
    ensures
        facing.dir == Direction::Up,
        pos == gun_spot_pos().step(Direction::Down),
{
    let r = interaction_for_key(input_locked, interact_just_pressed, Some((pos, facing)), items);
    let dirs = search_order(facing.dir);
    let j = choose|j: int| 0 <= j < 5 && attempt(pos, facing.dir, items, j) == r;
    let faced_north = j == 0 && facing.dir == Direction::Up;
    let k = lemma_first_at_from_found(items, pos.step(dirs[j]), faced_north, 0);
    assert(items[k].1 is GunHidingSpot);
    assert(faced_north);
}

/// A found interactable comes from a usable matching entry.
proof fn lemma_first_at_from_found(
    items: Seq<(GridPos, Interactable)>,
    target: GridPos,
    faced_north: bool,
    i: int,
) -> (k: int)
    requires
        first_at_from(items, target, faced_north, i) is Some,
    ensures
        0 <= k < items.len(),
        items[k].0 == target,
        usable(items[k].1, faced_north),
        Some(items[k].1) == first_at_from(items, target, faced_north, i),
    decreases items.len() - i,
{
    if items[i].0 == target && usable(items[i].1, faced_north) {
        i
    } else {
        lemma_first_at_from_found(items, target, faced_north, i + 1)
    }
}

} // verus!
