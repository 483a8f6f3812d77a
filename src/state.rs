use vstd::prelude::*;

verus! {

/// The modes the game can be in.
#[derive(Clone, Copy, Debug, PartialEq, Eq, Hash, Structural)]
pub enum GameState {
    LoadingAssets,
    LoadingUI,
    MainMenu,
    PauseMenu,
    OptionsMenu,
    LoadingWorld,
    LoadingTextures,
    InGame,
    LevelChange,
    ExitToMain,
}

impl Default for GameState {
    /// The game starts by loading its assets.
    fn default() -> (r: GameState)
        ensures
            r == GameState::LoadingAssets,
    {
        GameState::LoadingAssets
    }
}

/// How a state is left.
#[derive(Clone, Copy, Debug, PartialEq, Eq, Hash, Structural)]
pub enum TransitionKind {
    /// Exactly one successor, entered on the next tick without any request.
    Linear,
    /// One or more successors, entered only on request.
    Arbitrary,
    /// No successors: once entered, the state is never left.
    Terminal,
}

} // verus!
