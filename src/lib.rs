//! Game-mode state machine and data-driven reaction engine of a small
//! narrative action game: persistent story flags, level descriptors, the
//! level loader, the dialogue runner, the boss attack scheduler and the
//! reaction dispatcher, each with a machine-checked contract.

pub mod flags;
pub mod schema;
pub mod attack;
pub mod loader;
pub mod events;
pub mod dialogue;
pub mod reaction;
pub mod game;
pub mod layout;
