use vstd::prelude::*;

use crate::cutscene::{CutsceneState, CutsceneView};
use crate::dialogue::{DialogueState, DialogueView};
use crate::quest::{QuestState, QuestView};
use crate::states::AppState;
use crate::tilemap::{outdoor_spawn, OUTDOOR_SPAWN_FACING};
use crate::transitions::FadeState;

verus! {

/// On the end screen, the restart key resets the quest, the dialogue box
/// and the cutscene and fades back to the start of the game.
pub fn restart_system(
    restart_just_pressed: bool,
    quest: &mut QuestState,
    dialogue: &mut DialogueState,
    cutscene: &mut CutsceneState,
    fade: &mut FadeState,
)
    ensures
        !restart_just_pressed ==> {
            &&& final(quest)@ == old(quest)@
            &&& final(dialogue)@ == old(dialogue)@
            &&& final(cutscene)@ == old(cutscene)@
            &&& final(fade)@ == old(fade)@
        },
        restart_just_pressed ==> {
            &&& final(quest)@ == QuestView::initial()
            &&& final(dialogue)@ == DialogueView::closed()
            &&& final(cutscene)@ == CutsceneView::start()
            &&& final(fade)@ == old(fade)@.start(
                AppState::Outdoor,
                Some((outdoor_spawn(), OUTDOOR_SPAWN_FACING)),
            )
        },
{
    if !restart_just_pressed {
        return;
    }
    *quest = QuestState::default();
    *dialogue = DialogueState::default();
    *cutscene = CutsceneState::default();
    fade.start(AppState::Outdoor, Some((outdoor_spawn(), OUTDOOR_SPAWN_FACING)));
}

} // verus!
