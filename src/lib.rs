//! A declarative game-mode state machine: a table of legal transitions,
//! built and checked once, and a runtime that owns the current mode and
//! mediates every change to it.

pub mod state;
pub mod table;
pub mod runtime;
pub mod laws;
pub mod game;

pub use game::StatePlugin;
pub use runtime::{IllegalTransition, RuntimeState, TransitionEvent};
pub use state::{GameState, TransitionKind};
pub use table::{ConfigurationError, Declaration, TransitionTable};
