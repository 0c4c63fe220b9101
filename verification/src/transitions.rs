use vstd::prelude::*;

use crate::grid::{Direction, GridPos};
use crate::interaction::{DoorTarget, Interactable, InteractionEvent};
use crate::states::{AppState, InputLock};
use crate::tilemap::{
    interior_spawn, outdoor_return_pos, INTERIOR_SPAWN_FACING, OUTDOOR_RETURN_FACING,
};

verus! {

/// Length of each half of a fade, in milliseconds.
pub const FADE_MILLIS: u64 = 250;

/// Where a fade stands.
#[derive(Debug, Clone, Copy, PartialEq, Eq, Structural)]
pub enum FadePhase {
    /// No fade running.
    Idle,
    /// Fading to black; the scene switches when it is fully dark.
    Out,
    /// Fading back in on the new scene.
    In,
}

/// A screen fade that switches scene (and optionally moves the player)
/// while the screen is black. Each phase lasts [`FADE_MILLIS`]; the timer
/// itself is run by the caller, which restarts it whenever the phase
/// changes.
pub struct FadeState {
    phase: FadePhase,
    target_state: Option<AppState>,
    target_player: Option<(GridPos, Direction)>,
}

/// The abstract fade.
pub struct FadeView {
    pub phase: FadePhase,
    pub target_state: Option<AppState>,
    pub target_player: Option<(GridPos, Direction)>,
}

impl View for FadeState {
    type V = FadeView;

    closed spec fn view(&self) -> FadeView {
        FadeView {
            phase: self.phase,
            target_state: self.target_state,
            target_player: self.target_player,
        }
    }
}

/// What the caller has to do after a fade frame.
#[derive(Debug, Clone, Copy)]
pub struct FadeAction {
    /// Switch to this scene.
    pub next_state: Option<AppState>,
    /// Put the player on this tile, facing this way.
    pub teleport: Option<(GridPos, Direction)>,
}

impl FadeView {
    /// No fade running and nothing pending.
    pub open spec fn idle() -> FadeView {
        FadeView { phase: FadePhase::Idle, target_state: None, target_player: None }
    }

    /// Requests a fade to `target_state`; ignored while a fade is running.
    pub open spec fn start(
        self,
        target_state: AppState,
        target_player: Option<(GridPos, Direction)>,
    ) -> FadeView {
        if self.phase != FadePhase::Idle {
            self
        } else {
            FadeView {
                phase: FadePhase::Out,
                target_state: Some(target_state),
                target_player: target_player,
            }
        }
    }

    /// The fade an interaction asks for: doors lead into and out of the
    /// house, the gun spot starts the cutscene; NPCs and signs start none.
    pub open spec fn interact(self, event: Interactable) -> FadeView {
        match event {
            Interactable::Door(DoorTarget::EnterHouse) => self.start(
                AppState::HouseInterior,
                Some((interior_spawn(), INTERIOR_SPAWN_FACING)),
            ),
            Interactable::Door(DoorTarget::ExitHouse) => self.start(
                AppState::Outdoor,
                Some((outdoor_return_pos(), OUTDOOR_RETURN_FACING)),
            ),
            Interactable::GunHidingSpot => self.start(AppState::Cutscene, None),
            _ => self,
        }
    }

    /// [`FadeView::interact`] applied to `events` in order.
    pub open spec fn interact_all(self, events: Seq<InteractionEvent>) -> FadeView
        decreases events.len(),
    {
        if events.len() == 0 {
            self
        } else {
            self.interact_all(events.drop_last()).interact(events.last().0)
        }
    }

    /// The fade after one frame whose phase timer has (not) run out.
    pub open spec fn update(self, timer_finished: bool) -> FadeView {
        match self.phase {
            FadePhase::Out => if timer_finished {
                FadeView { phase: FadePhase::In, target_state: None, target_player: None }
            } else {
                self
            },
            FadePhase::In => if timer_finished {
                FadeView { phase: FadePhase::Idle, ..self }
            } else {
                self
            },
            FadePhase::Idle => self,
        }
    }

    /// The scene switch and teleport that frame asks for.
    pub open spec fn update_action(self, timer_finished: bool) -> (
        Option<AppState>,
        Option<(GridPos, Direction)>,
    ) {
        if self.phase == FadePhase::Out && timer_finished {
            (self.target_state, self.target_player)
        } else {
            (None, None)
        }
    }

    /// The input lock after that frame: held while fading out, released
    /// when a fade-in ends in an explorable scene.
    pub open spec fn update_lock(self, timer_finished: bool, current: AppState, lock: bool) -> bool {
        match self.phase {
            FadePhase::Out => true,
            FadePhase::In => if timer_finished && current.is_explorable() {
                false
            } else {
                lock
            },
            FadePhase::Idle => lock,
        }
    }
}

impl Default for FadeState {
    fn default() -> (r: FadeState)
        ensures
            r@ == FadeView::idle(),
    {
        FadeState { phase: FadePhase::Idle, target_state: None, target_player: None }
    }
}

impl FadeState {
    /// The current phase.
    pub fn phase(&self) -> (r: FadePhase)
        ensures
            r == self@.phase,
    {
        self.phase
    }

    /// Starts a fade to `target_state`, moving the player to
    /// `target_player` once the screen is black. Ignored while another
    /// fade is running.
    pub fn start(&mut self, target_state: AppState, target_player: Option<(GridPos, Direction)>)
        ensures
            final(self)@ == old(self)@.start(target_state, target_player),
    {
        if self.phase != FadePhase::Idle {
            return;
        }
        self.phase = FadePhase::Out;
        self.target_state = Some(target_state);
        self.target_player = target_player;
    }
}

/// Kicks off the scene transition a door or gun-spot interaction asks for.
pub fn handle_scene_transition_interactions(events: &[InteractionEvent], fade: &mut FadeState)
    ensures
        final(fade)@ == old(fade)@.interact_all(events@),
{
    let mut i: usize = 0;
    while i < events.len()
        invariant
            i <= events@.len(),
            fade@ == old(fade)@.interact_all(events@.take(i as int)),
        decreases events@.len() - i,
    {
        proof {
            assert(events@.take(i + 1).drop_last() =~= events@.take(i as int));
        }
        match events[i].0 {
            Interactable::Door(DoorTarget::EnterHouse) => {
                fade.start(AppState::HouseInterior, Some((interior_spawn(), INTERIOR_SPAWN_FACING)));
            },
            Interactable::Door(DoorTarget::ExitHouse) => {
                fade.start(AppState::Outdoor, Some((outdoor_return_pos(), OUTDOOR_RETURN_FACING)));
            },
            Interactable::GunHidingSpot => {
                fade.start(AppState::Cutscene, None);
            },
            Interactable::Npc(_) | Interactable::Sign(_) => {},
        }
        i = i + 1;
    }
    assert(events@.take(events@.len() as int) =~= events@);
}

/// One frame of the fade. While fading out the input stays locked; when
/// the screen is fully dark the pending scene switch and teleport are
/// handed out (once) and the fade turns around; when the fade-in ends the
/// input is released if the new scene is explorable. `current_state` is
/// the scene the game is in this frame.
pub fn fade_update_system(
    fade: &mut FadeState,
    timer_finished: bool,
    current_state: AppState,
    input_lock: &mut InputLock,
) -> (r: FadeAction)
    ensures
        final(fade)@ == old(fade)@.update(timer_finished),
        (r.next_state, r.teleport) == old(fade)@.update_action(timer_finished),
        final(input_lock).0 == old(fade)@.update_lock(timer_finished, current_state, old(input_lock).0),
{
    let mut action = FadeAction { next_state: None, teleport: None };
    match fade.phase {
        FadePhase::Idle => {},
        FadePhase::Out => {
            input_lock.0 = true;
            if timer_finished {
                action.next_state = fade.target_state.take();
                action.teleport = fade.target_player.take();
                fade.phase = FadePhase::In;
            }
        },
        FadePhase::In => {
            if timer_finished {
                fade.phase = FadePhase::Idle;
                if matches!(current_state, AppState::Outdoor | AppState::HouseInterior) {
                    input_lock.0 = false;
                }
            }
        },
    }
    action
}

/// A fade that is already running cannot be restarted or redirected.
pub proof fn lemma_start_ignored_while_fading(
    f: FadeView,
    target_state: AppState,
    target_player: Option<(GridPos, Direction)>,
)
    requires
        f.phase != FadePhase::Idle,
    ensures
        f.start(target_state, target_player) == f,
{
}

/// A full fade from rest: it holds the input lock while going dark, waits
/// for its timer, hands out the requested scene switch and teleport
/// exactly once when the screen is black, then fades back in and comes to
/// rest, releasing the lock if the new scene is explorable.
pub proof fn lemma_fade_round_trip(
    target_state: AppState,
    target_player: Option<(GridPos, Direction)>,
    lock: bool,
)
    ensures
        ({
            let out = FadeView::idle().start(target_state, target_player);
            let back = out.update(true);
            &&& out.phase == FadePhase::Out
            &&& out.update(false) == out
            &&& out.update_action(false) == (None::<AppState>, None::<(GridPos, Direction)>)
            &&& out.update_lock(false, target_state, lock)
            &&& out.update_lock(true, target_state, lock)
            &&& out.update_action(true) == (Some(target_state), target_player)
            &&& back.phase == FadePhase::In
            &&& back.update_action(true) == (None::<AppState>, None::<(GridPos, Direction)>)
            &&& back.update(false) == back
            &&& back.update(true) == FadeView::idle()
            &&& back.update_lock(true, target_state, true) == !target_state.is_explorable()
        }),
{
}

/// A pending scene switch is handed out at most once: after the frame
/// that hands it out nothing is pending any more.
pub proof fn lemma_targets_delivered_once(f: FadeView, timer_finished: bool)
    requires
        f.update_action(timer_finished).0 is Some || f.update_action(timer_finished).1 is Some,
    ensures
        f.update(timer_finished).target_state is None,
        f.update(timer_finished).target_player is None,
        f.update(timer_finished).update_action(true) == (None::<AppState>, None::<(GridPos, Direction)>),
{
}

/// From any fade at rest, the interactions lead where the house's doors
/// and the gun spot go: the front door fades into the house with the
/// player placed on the entrance tile (10, 1) facing north, the exit door
/// fades outdoors with the player in front of Ben's door (13, 3) facing
/// south, and the gun's hiding spot fades into the cutscene without
/// moving the player. Talking and reading signs start no fade. When the
/// screen is black the requested scene switch and teleport are handed
/// out.
pub proof fn lemma_interactions_choose_the_fade(f: FadeView, e: Interactable)
    requires
        f.phase == FadePhase::Idle,
    ensures
        e is GunHidingSpot ==> f.interact(e) == (FadeView {
            phase: FadePhase::Out,
            target_state: Some(AppState::Cutscene),
            target_player: None,
        }),
        e == Interactable::Door(DoorTarget::EnterHouse) ==> f.interact(e) == (FadeView {
            phase: FadePhase::Out,
            target_state: Some(AppState::HouseInterior),
            target_player: Some((GridPos { x: 10, y: 1 }, Direction::Up)),
        }),
        e == Interactable::Door(DoorTarget::ExitHouse) ==> f.interact(e) == (FadeView {
            phase: FadePhase::Out,
            target_state: Some(AppState::Outdoor),
            target_player: Some((GridPos { x: 13, y: 3 }, Direction::Down)),
        }),
        (e is Npc || e is Sign) ==> f.interact(e) == f,
        !(e is Npc || e is Sign) ==> f.interact(e).update_action(true) == (
            f.interact(e).target_state,
            f.interact(e).target_player,
        ) && f.interact(e).target_state is Some,
{
}

/// A single interaction event reaching a fade at rest has exactly the
/// effect of that interaction; in particular using the gun's hiding spot
/// leads, one finished frame later, to the switch into the cutscene.
pub proof fn lemma_gun_spot_event_reaches_the_cutscene(f: FadeView)
    requires
        f.phase == FadePhase::Idle,
    ensures
        ({
            let g = f.interact_all(seq![InteractionEvent(Interactable::GunHidingSpot)]);
            &&& g.phase == FadePhase::Out
            &&& g.update_action(true) == (Some(AppState::Cutscene), None::<(GridPos, Direction)>)
        }),
{
    let evs = seq![InteractionEvent(Interactable::GunHidingSpot)];
    assert(evs.drop_last() =~= Seq::<InteractionEvent>::empty());
    assert(f.interact_all(evs.drop_last()) == f);
}

} // verus!
