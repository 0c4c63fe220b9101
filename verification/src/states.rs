use vstd::prelude::*;

verus! {

/// The scene the game is in.
#[derive(Debug, Clone, Copy, PartialEq, Eq, Hash, Structural)]
pub enum AppState {
    Outdoor,
    HouseInterior,
    Cutscene,
    EndScreen,
}

impl Default for AppState {
    /// The scene the game starts in.
    fn default() -> (r: AppState)
        ensures
            r == AppState::Outdoor,
    {
        AppState::Outdoor
    }
}

impl AppState {
    /// Scenes in which the player walks around and can interact.
    pub open spec fn is_explorable(self) -> bool {
        self == AppState::Outdoor || self == AppState::HouseInterior
    }
}

/// Blocks player movement/interaction input, e.g. while a dialogue box or
/// the cutscene is playing.
#[derive(Debug, Clone, Copy, PartialEq, Eq, Structural)]
pub struct InputLock(pub bool);

impl Default for InputLock {
    fn default() -> (r: InputLock)
        ensures
            r.0 == false,
    {
        InputLock(false)
    }
}

} // verus!
