//! Runtime core of a small real-time 2D action game: a normalized input
//! snapshot, the phase state machines that one tick advances, the scene each
//! phase asks to have drawn, and the bookkeeping for named sound playback.

pub mod game_context;
pub mod input;
pub mod motion;
pub mod pacer;
pub mod scene;
pub mod screens;
pub mod sound_manager;
