use golden_gun::collision::is_move_blocked;
use golden_gun::cutscene::{cutscene_sequencer_system, start_cutscene_system, CutsceneAction, CutsceneState};
use golden_gun::dialogue::{
    dialogue_advance_system, dialogue_render_system, handle_interaction_for_dialogue, DialogueState,
};
use golden_gun::end_screen::restart_system;
use golden_gun::grid::{Direction, Facing, GridPos};
use golden_gun::interaction::{
    interact_key_system, interaction_search_overflows, DoorTarget, Interactable, InteractionEvent,
};
use golden_gun::npc::NpcId;
use golden_gun::player::{direction_from_keys, player_input_system, HeldKeys};
use golden_gun::quest::{
    advance_quest_on_talk, npc_lines, quest_hint_text_system, refresh_gun_spot_system, stage_for,
    QuestState, Stage,
    CLUE_ORDER,
};
use golden_gun::states::{AppState, InputLock};
use golden_gun::tilemap::{
    ben_ambush_entry_pos, build_interior_grid, gun_spot_pos, interior_spawn, mom_pos,
    outdoor_return_pos, outdoor_spawn, ActiveCollision,
};
use golden_gun::transitions::{
    fade_update_system, handle_scene_transition_interactions, FadePhase, FadeState,
};

fn lines(v: &[String]) -> Vec<&str> {
    v.iter().map(|s| s.as_str()).collect()
}

#[test]
fn npc_names() {
    assert_eq!(NpcId::Mom.name(), "Ben's Mom");
    assert_eq!(NpcId::Dad.name(), "Ben's Dad");
    assert_eq!(NpcId::OlderBrother.name(), "Ben's Older Brother");
    assert_eq!(NpcId::YoungerBrother.name(), "Ben's Younger Brother");
    assert_eq!(NpcId::Ben.name(), "Ben");
}

#[test]
fn new_quest_has_mom_due() {
    let q = QuestState::default();
    assert_eq!(q.current_step, 0);
    assert!(!q.gun_unlocked);
    assert!(q.talked_to.is_empty());
    assert_eq!(stage_for(NpcId::Mom, &q), Stage::Due);
    assert_eq!(stage_for(NpcId::Dad, &q), Stage::NotDue);
    assert_eq!(stage_for(NpcId::Ben, &q), Stage::NotDue);
}

#[test]
fn lines_depend_on_the_stage() {
    let mut q = QuestState::default();
    assert_eq!(
        lines(&npc_lines(NpcId::Mom, &q)),
        vec![
            "The \"golden gun\"? Oh, you mean that dollar-store squirt gun Ben's obsessed with.",
            "Ask his dad — he was helping Ben hide it earlier.",
        ]
    );
    assert_eq!(lines(&npc_lines(NpcId::Dad, &q)), vec!["Ask around, I'm sure someone knows where Ben hid it."]);
    assert_eq!(lines(&npc_lines(NpcId::OlderBrother, &q)), vec!["Go away, I'm busy."]);
    assert_eq!(lines(&npc_lines(NpcId::YoungerBrother, &q)), vec!["What do you want?"]);
    assert_eq!(lines(&npc_lines(NpcId::Ben, &q)), vec!["Looking for something?"]);
    advance_quest_on_talk(&mut q, NpcId::Mom);
    assert_eq!(lines(&npc_lines(NpcId::Mom, &q)), vec!["Did you find Ben yet? He's been giggling all day."]);
    assert_eq!(
        lines(&npc_lines(NpcId::Dad, &q)),
        vec![
            "Ha! Yeah, I saw him sneaking around with it.",
            "I think he roped his older brother into \"guarding\" it. Go ask him.",
        ]
    );
    advance_quest_on_talk(&mut q, NpcId::Dad);
    assert_eq!(lines(&npc_lines(NpcId::Dad, &q)), vec!["Careful in there. Ben's fast."]);
    assert_eq!(
        lines(&npc_lines(NpcId::OlderBrother, &q)),
        vec![
            "Ben told me not to say anything...",
            "...but he definitely made our younger brother help him hide it. Good luck getting HIM to talk.",
        ]
    );
    advance_quest_on_talk(&mut q, NpcId::OlderBrother);
    assert_eq!(lines(&npc_lines(NpcId::OlderBrother, &q)), vec!["Don't say I told you anything."]);
    assert_eq!(
        lines(&npc_lines(NpcId::YoungerBrother, &q)),
        vec![
            "Fine, I'll tell you. It's under his bed.",
            "But if I were you, I'd watch my back — Ben always finds a way to grab it first.",
        ]
    );
    advance_quest_on_talk(&mut q, NpcId::YoungerBrother);
    assert_eq!(lines(&npc_lines(NpcId::YoungerBrother, &q)), vec!["Good luck. You'll need it."]);
    assert_eq!(lines(&npc_lines(NpcId::Ben, &q)), vec!["Looking for something?"]);
}

#[test]
fn following_the_chain_unlocks_the_gun() {
    let mut q = QuestState::default();
    for (i, npc) in CLUE_ORDER.iter().enumerate() {
        assert!(!q.gun_unlocked);
        advance_quest_on_talk(&mut q, *npc);
        assert_eq!(q.current_step, i + 1);
        assert!(q.talked_to.contains(npc));
    }
    assert!(q.gun_unlocked);
    // Talking to anyone again changes nothing.
    advance_quest_on_talk(&mut q, NpcId::Mom);
    assert_eq!(q.current_step, 4);
}

#[test]
fn out_of_order_and_ben_are_ignored() {
    let mut q = QuestState::default();
    advance_quest_on_talk(&mut q, NpcId::YoungerBrother);
    advance_quest_on_talk(&mut q, NpcId::Ben);
    advance_quest_on_talk(&mut q, NpcId::Dad);
    assert_eq!(q.current_step, 0);
    assert!(q.talked_to.is_empty());
    advance_quest_on_talk(&mut q, NpcId::Mom);
    advance_quest_on_talk(&mut q, NpcId::Mom);
    assert_eq!(q.current_step, 1);
    assert_eq!(stage_for(NpcId::Mom, &q), Stage::Done);
    assert_eq!(q.talked_to.len(), 1);
}

#[test]
fn hint_text_follows_scene_and_progress() {
    let mut q = QuestState::default();
    assert_eq!(quest_hint_text_system(AppState::Outdoor, &q), "Find Ben's house and go inside.");
    assert_eq!(quest_hint_text_system(AppState::HouseInterior, &q), "Ask Ben's Mom about the golden gun.");
    assert_eq!(quest_hint_text_system(AppState::Cutscene, &q), "");
    assert_eq!(quest_hint_text_system(AppState::EndScreen, &q), "");
    let expected = [
        "Ask Ben's Dad about the golden gun.",
        "Ask Ben's Older Brother about the golden gun.",
        "Ask Ben's Younger Brother about the golden gun.",
        "You know where it is. Check Ben's room!",
    ];
    for (npc, hint) in CLUE_ORDER.iter().zip(expected) {
        advance_quest_on_talk(&mut q, *npc);
        assert_eq!(quest_hint_text_system(AppState::HouseInterior, &q), hint);
    }
}

#[test]
fn talking_to_an_npc_opens_the_dialogue_and_locks_input() {
    let q = QuestState::default();
    let mut d = DialogueState::default();
    let mut lock = InputLock::default();
    assert!(dialogue_render_system(&d).is_none());
    handle_interaction_for_dialogue(&[InteractionEvent(Interactable::Npc(NpcId::Mom))], &q, &mut d, &mut lock);
    assert!(d.active);
    assert!(lock.0);
    assert_eq!(d.speaker, Some(NpcId::Mom));
    assert_eq!(d.line_index, 0);
    assert_eq!(d.lines.len(), 2);
    let (speaker, body) = dialogue_render_system(&d).unwrap();
    assert_eq!(speaker, "Ben's Mom");
    assert_eq!(body, "The \"golden gun\"? Oh, you mean that dollar-store squirt gun Ben's obsessed with.");
}

#[test]
fn signs_open_a_dialogue_without_speaker_and_doors_do_nothing() {
    let q = QuestState::default();
    let mut d = DialogueState::default();
    let mut lock = InputLock(false);
    handle_interaction_for_dialogue(
        &[
            InteractionEvent(Interactable::Door(DoorTarget::EnterHouse)),
            InteractionEvent(Interactable::GunHidingSpot),
        ],
        &q,
        &mut d,
        &mut lock,
    );
    assert!(!d.active);
    assert!(!lock.0);
    handle_interaction_for_dialogue(&[InteractionEvent(Interactable::Sign("Hello"))], &q, &mut d, &mut lock);
    assert!(d.active && lock.0);
    assert_eq!(d.speaker, None);
    assert_eq!(lines(&d.lines), vec!["Hello"]);
    assert_eq!(dialogue_render_system(&d), Some((String::new(), "Hello".to_string())));
}

#[test]
fn the_opening_press_is_swallowed_and_each_press_advances() {
    let mut q = QuestState::default();
    let mut d = DialogueState::default();
    let mut lock = InputLock(false);
    handle_interaction_for_dialogue(&[InteractionEvent(Interactable::Npc(NpcId::Mom))], &q, &mut d, &mut lock);
    assert!(d.just_opened());
    // Same frame as the opening press: nothing but clearing the flag.
    dialogue_advance_system(true, &mut d, &mut q, &mut lock);
    assert!(!d.just_opened());
    assert!(d.active);
    assert_eq!(d.line_index, 0);
    // No press: nothing.
    dialogue_advance_system(false, &mut d, &mut q, &mut lock);
    assert_eq!(d.line_index, 0);
    dialogue_advance_system(true, &mut d, &mut q, &mut lock);
    assert!(d.active);
    assert_eq!(d.line_index, 1);
    assert_eq!(dialogue_render_system(&d).unwrap().1, "Ask his dad — he was helping Ben hide it earlier.");
    assert_eq!(q.current_step, 0);
    dialogue_advance_system(true, &mut d, &mut q, &mut lock);
    assert!(!d.active);
    assert!(!lock.0);
    assert!(d.lines.is_empty());
    assert_eq!(d.speaker, None);
    assert_eq!(d.line_index, 0);
    // Finishing Mom's conversation counted towards the quest.
    assert_eq!(q.current_step, 1);
    // A closed dialogue ignores presses.
    dialogue_advance_system(true, &mut d, &mut q, &mut lock);
    assert_eq!(q.current_step, 1);
}

#[test]
fn closing_a_sign_does_not_touch_the_quest() {
    let mut q = QuestState::default();
    let mut d = DialogueState::default();
    let mut lock = InputLock(false);
    handle_interaction_for_dialogue(&[InteractionEvent(Interactable::Sign("Hi"))], &q, &mut d, &mut lock);
    dialogue_advance_system(true, &mut d, &mut q, &mut lock);
    dialogue_advance_system(true, &mut d, &mut q, &mut lock);
    assert!(!d.active);
    assert!(!lock.0);
    assert_eq!(q.current_step, 0);
}

#[test]
fn interaction_prefers_the_faced_tile() {
    let pos = GridPos::new(5, 5);
    let items = [
        (GridPos::new(5, 6), Interactable::Npc(NpcId::Dad)),
        (GridPos::new(6, 5), Interactable::Npc(NpcId::Mom)),
        (GridPos::new(6, 5), Interactable::GunHidingSpot),
    ];
    let facing_right = Some((pos, Facing { dir: Direction::Right }));
    let r = interact_key_system(false, true, facing_right, &items).unwrap();
    assert!(matches!(r.0, Interactable::Npc(NpcId::Mom)));
    let facing_left = Some((pos, Facing { dir: Direction::Left }));
    let r = interact_key_system(false, true, facing_left, &items).unwrap();
    assert!(matches!(r.0, Interactable::Npc(NpcId::Dad)));
}

#[test]
fn interaction_needs_an_unlocked_press_a_player_and_a_neighbour() {
    let pos = GridPos::new(0, 0);
    let items = [(GridPos::new(0, -1), Interactable::Door(DoorTarget::ExitHouse))];
    let p = Some((pos, Facing { dir: Direction::Up }));
    assert!(interact_key_system(true, true, p, &items).is_none());
    assert!(interact_key_system(false, false, p, &items).is_none());
    assert!(interact_key_system(false, true, None, &items).is_none());
    let r = interact_key_system(false, true, p, &items).unwrap();
    assert!(matches!(r.0, Interactable::Door(DoorTarget::ExitHouse)));
    let far = [(GridPos::new(1, 1), Interactable::GunHidingSpot)];
    assert!(interact_key_system(false, true, p, &far).is_none());
}

#[test]
fn doors_and_the_gun_spot_start_fades() {
    let mut fade = FadeState::default();
    assert_eq!(fade.phase(), FadePhase::Idle);
    handle_scene_transition_interactions(&[InteractionEvent(Interactable::Sign("x"))], &mut fade);
    assert_eq!(fade.phase(), FadePhase::Idle);
    handle_scene_transition_interactions(
        &[
            InteractionEvent(Interactable::Door(DoorTarget::EnterHouse)),
            InteractionEvent(Interactable::GunHidingSpot),
        ],
        &mut fade,
    );
    assert_eq!(fade.phase(), FadePhase::Out);
    let mut lock = InputLock(false);
    let a = fade_update_system(&mut fade, true, AppState::Outdoor, &mut lock);
    // The first request won; the second was ignored while fading.
    assert_eq!(a.next_state, Some(AppState::HouseInterior));
    assert_eq!(a.teleport, Some((interior_spawn(), Direction::Up)));
}

#[test]
fn fade_round_trip() {
    let mut fade = FadeState::default();
    let mut lock = InputLock(false);
    fade.start(AppState::Outdoor, Some((outdoor_return_pos(), Direction::Down)));
    // Starting again while fading is ignored.
    fade.start(AppState::Cutscene, None);
    let a = fade_update_system(&mut fade, false, AppState::HouseInterior, &mut lock);
    assert!(lock.0);
    assert!(a.next_state.is_none() && a.teleport.is_none());
    assert_eq!(fade.phase(), FadePhase::Out);
    let a = fade_update_system(&mut fade, true, AppState::HouseInterior, &mut lock);
    assert_eq!(a.next_state, Some(AppState::Outdoor));
    assert_eq!(a.teleport, Some((GridPos::new(13, 3), Direction::Down)));
    assert_eq!(fade.phase(), FadePhase::In);
    let a = fade_update_system(&mut fade, false, AppState::Outdoor, &mut lock);
    assert!(a.next_state.is_none());
    assert!(lock.0);
    let a = fade_update_system(&mut fade, true, AppState::Outdoor, &mut lock);
    assert!(a.next_state.is_none() && a.teleport.is_none());
    assert_eq!(fade.phase(), FadePhase::Idle);
    assert!(!lock.0);
    // Idle frames do nothing.
    let a = fade_update_system(&mut fade, true, AppState::Outdoor, &mut lock);
    assert!(a.next_state.is_none());
    assert_eq!(fade.phase(), FadePhase::Idle);
}

#[test]
fn fade_into_the_cutscene_keeps_input_locked() {
    let mut fade = FadeState::default();
    let mut lock = InputLock(false);
    fade.start(AppState::Cutscene, None);
    let a = fade_update_system(&mut fade, true, AppState::HouseInterior, &mut lock);
    assert_eq!(a.next_state, Some(AppState::Cutscene));
    assert!(a.teleport.is_none());
    fade_update_system(&mut fade, true, AppState::Cutscene, &mut lock);
    assert_eq!(fade.phase(), FadePhase::Idle);
    assert!(lock.0);
}

#[test]
fn cutscene_plays_its_beats_in_order() {
    let mut c = CutsceneState::default();
    let mut lock = InputLock(false);
    let (who, pos, dir) = start_cutscene_system(&mut c, &mut lock);
    assert!(lock.0);
    assert_eq!((who, pos, dir), (NpcId::Ben, ben_ambush_entry_pos(), Direction::Left));
    assert_eq!(pos, GridPos::new(19, 10));
    assert_eq!(c.timer_millis(), 400);
    assert_eq!(cutscene_sequencer_system(&mut c, false), CutsceneAction::Wait);
    assert_eq!(
        cutscene_sequencer_system(&mut c, true),
        CutsceneAction::BenWalksTo { pos: gun_spot_pos(), facing: Direction::Left }
    );
    assert_eq!(c.timer_millis(), 500);
    assert_eq!(cutscene_sequencer_system(&mut c, false), CutsceneAction::Wait);
    assert_eq!(cutscene_sequencer_system(&mut c, true), CutsceneAction::DespawnGun);
    assert_eq!(c.timer_millis(), 600);
    assert_eq!(cutscene_sequencer_system(&mut c, true), CutsceneAction::SplashPlayer);
    assert_eq!(c.timer_millis(), 800);
    assert_eq!(cutscene_sequencer_system(&mut c, true), CutsceneAction::EnterEndScreen);
    assert_eq!(cutscene_sequencer_system(&mut c, true), CutsceneAction::EnterEndScreen);
}

#[test]
fn restart_resets_everything_and_fades_outdoors() {
    let mut q = QuestState::default();
    for npc in CLUE_ORDER {
        advance_quest_on_talk(&mut q, npc);
    }
    let mut d = DialogueState::default();
    let mut lock = InputLock(false);
    handle_interaction_for_dialogue(&[InteractionEvent(Interactable::Sign("x"))], &q, &mut d, &mut lock);
    let mut c = CutsceneState::default();
    cutscene_sequencer_system(&mut c, true);
    let mut fade = FadeState::default();

    restart_system(false, &mut q, &mut d, &mut c, &mut fade);
    assert!(q.gun_unlocked && d.active);
    assert_eq!(fade.phase(), FadePhase::Idle);

    restart_system(true, &mut q, &mut d, &mut c, &mut fade);
    assert_eq!(q.current_step, 0);
    assert!(!q.gun_unlocked && q.talked_to.is_empty());
    assert!(!d.active && d.lines.is_empty());
    assert_eq!(c.timer_millis(), 400);
    assert_eq!(fade.phase(), FadePhase::Out);
    let a = fade_update_system(&mut fade, true, AppState::EndScreen, &mut lock);
    assert_eq!(a.next_state, Some(AppState::Outdoor));
    assert_eq!(a.teleport, Some((outdoor_spawn(), Direction::Up)));
}

#[test]
fn movement_keys_priority() {
    let all = HeldKeys { up: true, down: true, left: true, right: true };
    assert_eq!(direction_from_keys(all), Some(Direction::Up));
    assert_eq!(direction_from_keys(HeldKeys { up: false, ..all }), Some(Direction::Down));
    assert_eq!(
        direction_from_keys(HeldKeys { up: false, down: false, left: false, right: true }),
        Some(Direction::Right)
    );
    assert_eq!(
        direction_from_keys(HeldKeys { up: false, down: false, left: false, right: false }),
        None
    );
}

#[test]
fn player_walks_onto_free_tiles_only() {
    let c = ActiveCollision::from_grid(&build_interior_grid());
    let npcs = [mom_pos()];
    let up = HeldKeys { up: true, down: false, left: false, right: false };
    let down = HeldKeys { up: false, down: true, left: false, right: false };
    let mut pos = interior_spawn();
    let mut facing = Facing { dir: Direction::Right };
    // Locked: nothing happens.
    assert!(!player_input_system(true, up, &mut pos, &mut facing, &c, &npcs));
    assert_eq!((pos, facing.dir), (interior_spawn(), Direction::Right));
    // Into the exit door: turns but stays.
    assert!(!player_input_system(false, down, &mut pos, &mut facing, &c, &npcs));
    assert_eq!((pos, facing.dir), (interior_spawn(), Direction::Down));
    // Up into the partition wall at (10, 2): turns but stays.
    assert!(!player_input_system(false, up, &mut pos, &mut facing, &c, &npcs));
    assert_eq!((pos, facing.dir), (interior_spawn(), Direction::Up));
    // Next to Mom: her tile is taken.
    let mut pos = GridPos::new(5, 3);
    assert!(is_move_blocked(GridPos::new(5, 4), &c, &npcs));
    assert!(!player_input_system(false, up, &mut pos, &mut facing, &c, &npcs));
    assert_eq!(pos, GridPos::new(5, 3));
    // A free step.
    assert!(player_input_system(false, down, &mut pos, &mut facing, &c, &npcs));
    assert_eq!(pos, GridPos::new(5, 2));
    // No key held: nothing.
    let none = HeldKeys { up: false, down: false, left: false, right: false };
    assert!(!player_input_system(false, none, &mut pos, &mut facing, &c, &npcs));
    assert_eq!((pos, facing.dir), (GridPos::new(5, 2), Direction::Down));
}

#[test]
fn gun_spot_only_from_the_south_facing_north() {
    let gun = gun_spot_pos();
    let items = [(gun, Interactable::GunHidingSpot)];
    let south = GridPos::new(17, 10);
    // Just south, facing north onto it: usable.
    let r = interact_key_system(false, true, Some((south, Facing { dir: Direction::Up })), &items).unwrap();
    assert!(matches!(r.0, Interactable::GunHidingSpot));
    // Just south but facing elsewhere: not usable through the fallback.
    for dir in [Direction::Down, Direction::Left, Direction::Right] {
        assert!(interact_key_system(false, true, Some((south, Facing { dir })), &items).is_none());
    }
    // North of it, facing away or towards it: not usable.
    let north = GridPos::new(17, 12);
    assert!(interact_key_system(false, true, Some((north, Facing { dir: Direction::Up })), &items).is_none());
    assert!(interact_key_system(false, true, Some((north, Facing { dir: Direction::Down })), &items).is_none());
    // From the side, facing it: not usable.
    let west = GridPos::new(16, 11);
    assert!(interact_key_system(false, true, Some((west, Facing { dir: Direction::Right })), &items).is_none());
}

#[test]
fn gun_spot_does_not_hide_other_neighbours() {
    // North of the bed, facing away: the fallback skips the bed and finds
    // the NPC on the left.
    let items = [
        (GridPos::new(17, 11), Interactable::GunHidingSpot),
        (GridPos::new(16, 12), Interactable::Npc(NpcId::Ben)),
    ];
    let r = interact_key_system(false, true, Some((GridPos::new(17, 12), Facing { dir: Direction::Up })), &items)
        .unwrap();
    assert!(matches!(r.0, Interactable::Npc(NpcId::Ben)));
}

#[test]
fn gun_prop_becomes_interactable_once_unlocked() {
    let mut q = QuestState::default();
    assert!(!refresh_gun_spot_system(&q, false));
    for npc in CLUE_ORDER {
        advance_quest_on_talk(&mut q, npc);
    }
    assert!(refresh_gun_spot_system(&q, false));
    assert!(!refresh_gun_spot_system(&q, true));
}

#[test]
fn interaction_search_range_check() {
    let items = [(GridPos::new(i32::MAX, 0), Interactable::Npc(NpcId::Mom))];
    // At the right edge facing right: the first tried tile is out of range.
    let edge = GridPos::new(i32::MAX, 0);
    assert!(interaction_search_overflows(edge, Facing { dir: Direction::Right }, &items));
    // At the right edge facing up with nothing there: the search reaches
    // the right neighbour, which is out of range.
    assert!(interaction_search_overflows(edge, Facing { dir: Direction::Up }, &[]));
    // One tile left of an item at the edge, facing it: found before any
    // out-of-range tile is tried.
    let near = GridPos::new(i32::MAX - 1, 0);
    assert!(!interaction_search_overflows(near, Facing { dir: Direction::Right }, &items));
    // Found on the tile below before the search reaches the left edge.
    let corner = GridPos::new(i32::MIN, 5);
    let below = [(GridPos::new(i32::MIN, 4), Interactable::Sign("s"))];
    assert!(!interaction_search_overflows(corner, Facing { dir: Direction::Down }, &below));
    let r = interact_key_system(false, true, Some((corner, Facing { dir: Direction::Down })), &below).unwrap();
    assert!(matches!(r.0, Interactable::Sign("s")));
    assert!(!interaction_search_overflows(GridPos::new(0, 0), Facing { dir: Direction::Up }, &[]));
}

#[test]
fn dialogue_getters() {
    let q = QuestState::default();
    let mut d = DialogueState::default();
    let mut lock = InputLock(false);
    assert!(!d.active());
    assert_eq!(d.line_count(), 0);
    handle_interaction_for_dialogue(&[InteractionEvent(Interactable::Npc(NpcId::Ben))], &q, &mut d, &mut lock);
    assert!(d.active());
    assert_eq!(d.line_index(), 0);
    assert_eq!(d.line_count(), 1);
}
