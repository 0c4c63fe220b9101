//! Game logic for a small top-down adventure: a tile grid with collision,
//! a clue-chain quest, a dialogue box, screen fades between scenes and a
//! short scripted cutscene. Every piece of it is a plain state machine;
//! the engine around it (rendering, input, timers) lives outside.

pub mod grid;
pub mod states;
pub mod npc;
pub mod tilemap;
pub mod collision;
pub mod interaction;
pub mod quest;
pub mod dialogue;
pub mod transitions;
pub mod cutscene;
pub mod end_screen;
pub mod player;
