use golden_gun::dialogue::{dialogue_advance_system, handle_interaction_for_dialogue, DialogueState};
use golden_gun::grid::{Direction, Facing, GridPos};
use golden_gun::interaction::{interact_key_system, Interactable, InteractionEvent};
use golden_gun::npc::NpcId;
use golden_gun::player::{player_input_system, HeldKeys};
use golden_gun::quest::{advance_quest_on_talk, QuestState, CLUE_ORDER};
use golden_gun::states::InputLock;
use golden_gun::tilemap::{
    ben_door_pos, build_interior_grid, build_outdoor_grid, dad_pos, gun_spot_pos, interior_spawn,
    mom_pos, older_brother_pos, outdoor_return_pos, outdoor_spawn, younger_brother_pos,
    ActiveCollision,
};

fn keys(dir: Direction) -> HeldKeys {
    HeldKeys {
        up: dir == Direction::Up,
        down: dir == Direction::Down,
        left: dir == Direction::Left,
        right: dir == Direction::Right,
    }
}

fn moves(parts: &[(Direction, usize)]) -> Vec<Direction> {
    parts.iter().flat_map(|(d, n)| std::iter::repeat(*d).take(*n)).collect()
}

/// Walks `path` from `start`, asserting that every step is taken.
fn walk(start: GridPos, path: &[Direction], collision: &ActiveCollision, npcs: &[GridPos]) -> (GridPos, Facing) {
    let mut pos = start;
    let mut facing = Facing { dir: Direction::Up };
    for (i, dir) in path.iter().enumerate() {
        let moved = player_input_system(false, keys(*dir), &mut pos, &mut facing, collision, npcs);
        assert!(moved, "step {i} ({dir:?}) from {pos:?} was blocked");
    }
    (pos, facing)
}

fn family() -> Vec<GridPos> {
    vec![mom_pos(), dad_pos(), older_brother_pos(), younger_brother_pos()]
}

#[test]
fn walk_to_bens_door() {
    let c = ActiveCollision::from_grid(&build_outdoor_grid());
    let path = moves(&[(Direction::Right, 12), (Direction::Up, 1)]);
    let (pos, facing) = walk(outdoor_spawn(), &path, &c, &[]);
    assert_eq!(pos, outdoor_return_pos());
    let items = [(ben_door_pos(), Interactable::Door(golden_gun::interaction::DoorTarget::EnterHouse))];
    let e = interact_key_system(false, true, Some((pos, facing)), &items).unwrap();
    assert!(matches!(e.0, Interactable::Door(_)));
    // The door itself cannot be entered on foot.
    let mut p = pos;
    let mut f = facing;
    assert!(!player_input_system(false, keys(Direction::Up), &mut p, &mut f, &c, &[]));
}

#[test]
fn walk_to_every_family_member() {
    let c = ActiveCollision::from_grid(&build_interior_grid());
    let npcs = family();
    let cases = [
        (moves(&[(Direction::Left, 6), (Direction::Up, 3)]), Direction::Right, mom_pos()),
        (moves(&[(Direction::Right, 6), (Direction::Up, 3)]), Direction::Left, dad_pos()),
        (
            moves(&[
                (Direction::Left, 6),
                (Direction::Up, 5),
                (Direction::Right, 1),
                (Direction::Up, 4),
                (Direction::Left, 1),
                (Direction::Up, 1),
            ]),
            Direction::Left,
            older_brother_pos(),
        ),
        (
            moves(&[
                (Direction::Left, 6),
                (Direction::Up, 5),
                (Direction::Right, 1),
                (Direction::Up, 4),
                (Direction::Right, 5),
            ]),
            Direction::Up,
            younger_brother_pos(),
        ),
    ];
    for (path, face, npc) in cases {
        let (pos, _) = walk(interior_spawn(), &path, &c, &npcs);
        assert_eq!(pos.stepped(face), npc);
    }
}

#[test]
fn full_playthrough_unlocks_and_reaches_the_gun() {
    let c = ActiveCollision::from_grid(&build_interior_grid());
    let npcs = family();
    let mut quest = QuestState::default();
    let mut dialogue = DialogueState::default();
    let mut lock = InputLock::default();
    // Talk to everyone in chain order and read every line.
    for npc in CLUE_ORDER {
        handle_interaction_for_dialogue(&[InteractionEvent(Interactable::Npc(npc))], &quest, &mut dialogue, &mut lock);
        assert!(lock.0);
        let mut frames = 0;
        while dialogue.active {
            dialogue_advance_system(true, &mut dialogue, &mut quest, &mut lock);
            frames += 1;
        }
        // One swallowed frame plus one press per line.
        assert_eq!(frames, 3);
        assert!(!lock.0);
    }
    assert!(quest.gun_unlocked);
    let path = moves(&[
        (Direction::Right, 6),
        (Direction::Up, 5),
        (Direction::Left, 1),
        (Direction::Up, 2),
        (Direction::Right, 1),
        (Direction::Up, 2),
        (Direction::Right, 1),
    ]);
    let (pos, _) = walk(interior_spawn(), &path, &c, &npcs);
    assert_eq!(pos, GridPos::new(17, 10));
    let facing = Facing { dir: Direction::Up };
    let items = [(gun_spot_pos(), Interactable::GunHidingSpot)];
    let e = interact_key_system(false, true, Some((pos, facing)), &items).unwrap();
    assert!(matches!(e.0, Interactable::GunHidingSpot));
}

#[test]
fn interleaved_chain_unlocks_the_gun() {
    let mut q = QuestState::default();
    let talks = [
        NpcId::Ben,
        NpcId::Dad,
        NpcId::Mom,
        NpcId::YoungerBrother,
        NpcId::Dad,
        NpcId::Mom,
        NpcId::OlderBrother,
        NpcId::Ben,
        NpcId::YoungerBrother,
    ];
    for npc in talks {
        advance_quest_on_talk(&mut q, npc);
    }
    assert!(q.gun_unlocked);
    assert_eq!(q.current_step, 4);
}

#[test]
fn skipping_a_chain_member_never_unlocks() {
    let mut q = QuestState::default();
    let talks = [
        NpcId::Mom,
        NpcId::OlderBrother,
        NpcId::YoungerBrother,
        NpcId::Ben,
        NpcId::OlderBrother,
        NpcId::YoungerBrother,
    ];
    for npc in talks {
        advance_quest_on_talk(&mut q, npc);
    }
    assert!(!q.gun_unlocked);
    assert_eq!(q.current_step, 1);
}
