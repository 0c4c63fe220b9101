use vstd::prelude::*;

use crate::grid::{Direction, GridPos};
use crate::npc::NpcId;
use crate::states::InputLock;
use crate::tilemap::{ben_ambush_entry_pos, gun_spot_pos};

verus! {

/// The beats of the ambush cutscene, in order.
#[derive(Debug, Clone, Copy, PartialEq, Eq, Structural)]
pub enum CutscenePhase {
    BenEnters,
    BenGrabsGun,
    SquirtHit,
    Done,
}

/// Progress through the cutscene. Each beat waits `timer_millis`
/// milliseconds before it plays; the timer itself is run by the caller,
/// which restarts it whenever a beat plays.
pub struct CutsceneState {
    phase: CutscenePhase,
    timer_millis: u64,
}

/// The abstract cutscene progress.
pub struct CutsceneView {
    pub phase: CutscenePhase,
    pub timer_millis: nat,
}

impl View for CutsceneState {
    type V = CutsceneView;

    closed spec fn view(&self) -> CutsceneView {
        CutsceneView { phase: self.phase, timer_millis: self.timer_millis as nat }
    }
}

/// What the caller has to do for a cutscene frame.
#[derive(Debug, Clone, Copy, PartialEq, Eq, Structural)]
pub enum CutsceneAction {
    /// Nothing yet.
    Wait,
    /// Ben walks to `pos` (animated), facing `facing`.
    BenWalksTo { pos: GridPos, facing: Direction },
    /// The gun prop disappears: Ben grabbed it.
    DespawnGun,
    /// A water splash appears on the player.
    SplashPlayer,
    /// Switch to the end screen.
    EnterEndScreen,
}

impl CutsceneView {
    /// The cutscene before its first beat.
    pub open spec fn start() -> CutsceneView {
        CutsceneView { phase: CutscenePhase::BenEnters, timer_millis: 400 }
    }

    /// The progress and action of one frame whose timer has (not) run out.
    pub open spec fn step(self, timer_finished: bool) -> (CutsceneView, CutsceneAction) {
        if !timer_finished {
            (self, CutsceneAction::Wait)
        } else {
            match self.phase {
                CutscenePhase::BenEnters => (
                    CutsceneView { phase: CutscenePhase::BenGrabsGun, timer_millis: 500 },
                    CutsceneAction::BenWalksTo { pos: gun_spot_pos(), facing: Direction::Left },
                ),
                CutscenePhase::BenGrabsGun => (
                    CutsceneView { phase: CutscenePhase::SquirtHit, timer_millis: 600 },
                    CutsceneAction::DespawnGun,
                ),
                CutscenePhase::SquirtHit => (
                    CutsceneView { phase: CutscenePhase::Done, timer_millis: 800 },
                    CutsceneAction::SplashPlayer,
                ),
                CutscenePhase::Done => (self, CutsceneAction::EnterEndScreen),
            }
        }
    }
}

impl Default for CutsceneState {
    fn default() -> (r: CutsceneState)
        ensures
            r@ == CutsceneView::start(),
    {
        CutsceneState { phase: CutscenePhase::BenEnters, timer_millis: 400 }
    }
}

impl CutsceneState {
    /// How long the current beat waits, in milliseconds.
    pub fn timer_millis(&self) -> (r: u64)
        ensures
            r == self@.timer_millis,
    {
        self.timer_millis
    }
}

/// Entering the cutscene: input is locked, the cutscene starts over, and
/// Ben has to appear at his ambush entry tile facing left (returned as
/// who, where and facing which way).
pub fn start_cutscene_system(cutscene: &mut CutsceneState, input_lock: &mut InputLock) -> (r: (
    NpcId,
    GridPos,
    Direction,
))
    ensures
        final(input_lock).0,
        final(cutscene)@ == CutsceneView::start(),
        r == (NpcId::Ben, ben_ambush_entry_pos(), Direction::Left),
{
    input_lock.0 = true;
    *cutscene = CutsceneState::default();
    (NpcId::Ben, ben_ambush_entry_pos(), Direction::Left)
}

/// One frame of the cutscene: once the current beat's timer has run out,
/// plays the beat and moves on to the next one with its own wait.
pub fn cutscene_sequencer_system(cutscene: &mut CutsceneState, timer_finished: bool) -> (r:
    CutsceneAction)
    ensures
        (final(cutscene)@, r) == old(cutscene)@.step(timer_finished),
{
    if !timer_finished {
        return CutsceneAction::Wait;
    }
    match cutscene.phase {
        CutscenePhase::BenEnters => {
            cutscene.phase = CutscenePhase::BenGrabsGun;
            cutscene.timer_millis = 500;
            CutsceneAction::BenWalksTo { pos: gun_spot_pos(), facing: Direction::Left }
        },
        CutscenePhase::BenGrabsGun => {
            cutscene.phase = CutscenePhase::SquirtHit;
            cutscene.timer_millis = 600;
            CutsceneAction::DespawnGun
        },
        CutscenePhase::SquirtHit => {
            cutscene.phase = CutscenePhase::Done;
            cutscene.timer_millis = 800;
            CutsceneAction::SplashPlayer
        },
        CutscenePhase::Done => CutsceneAction::EnterEndScreen,
    }
}

/// The cutscene plays its beats in order, one per expired timer: Ben
/// walks to the gun spot, grabs the gun, squirts the player, and only then
/// does the game switch to the end screen; frames before a timer runs out
/// change nothing.
pub proof fn lemma_cutscene_plays_in_order(c: CutsceneView)
    ensures
        c.step(false) == (c, CutsceneAction::Wait),
        ({
            let (c1, a1) = CutsceneView::start().step(true);
            let (c2, a2) = c1.step(true);
            let (c3, a3) = c2.step(true);
            let (c4, a4) = c3.step(true);
            &&& a1 == CutsceneAction::BenWalksTo { pos: gun_spot_pos(), facing: Direction::Left }
            &&& c1.timer_millis == 500
            &&& a2 == CutsceneAction::DespawnGun
            &&& c2.timer_millis == 600
            &&& a3 == CutsceneAction::SplashPlayer
            &&& c3.timer_millis == 800
            &&& a4 == CutsceneAction::EnterEndScreen
            &&& c4 == c3
        }),
{
}

/// The end screen is only ever requested once the last beat has played.
pub proof fn lemma_end_screen_only_after_last_beat(c: CutsceneView, timer_finished: bool)
    requires
        c.step(timer_finished).1 == CutsceneAction::EnterEndScreen,
    ensures
        c.phase == CutscenePhase::Done,
        timer_finished,
{
}

} // verus!
