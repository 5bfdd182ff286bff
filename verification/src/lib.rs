//! Core logic of a small level-based 2D game: the top-level mode state
//! machine, the campaign level tracker, the outcome routers that translate
//! minigame win/loss events into mode transitions, and the timers that drive
//! the level-change and credits sequences.
pub mod buttons;
pub mod events;
pub mod game;
pub mod level;
pub mod mode;
pub mod timer;
