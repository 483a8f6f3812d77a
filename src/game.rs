use vstd::prelude::*;
use crate::state::{GameState, TransitionKind};
use crate::table::{
    Declaration,
    TransitionTable,
    declared_kind,
    declared_successors,
    declares,
    lemma_entry,
    linear_walk,
    valid_declarations,
};
use crate::runtime::RuntimeState;

verus! {

/// How each game mode is left.
pub open spec fn game_kind(s: GameState) -> TransitionKind {
    match s {
        GameState::LoadingAssets => TransitionKind::Linear,
        GameState::LoadingUI => TransitionKind::Linear,
        GameState::MainMenu => TransitionKind::Arbitrary,
        GameState::PauseMenu => TransitionKind::Arbitrary,
        GameState::OptionsMenu => TransitionKind::Arbitrary,
        GameState::LoadingWorld => TransitionKind::Linear,
        GameState::LoadingTextures => TransitionKind::Linear,
        GameState::InGame => TransitionKind::Arbitrary,
        GameState::LevelChange => TransitionKind::Linear,
        GameState::ExitToMain => TransitionKind::Terminal,
    }
}

/// Where each game mode may go. Loading screens chain into one another; the
/// menus and the game itself go where the player asks; leaving to the main
/// screen ends the machine. A level change is entered from the game on
/// request, like the pause menu: a linear state has a single successor, so
/// the game itself cannot be one.
pub open spec fn game_successors(s: GameState) -> Seq<GameState> {
    match s {
        GameState::LoadingAssets => seq![GameState::LoadingUI],
        GameState::LoadingUI => seq![GameState::MainMenu],
        GameState::MainMenu => seq![GameState::LoadingWorld, GameState::OptionsMenu],
        GameState::PauseMenu => seq![
            GameState::OptionsMenu,
            GameState::ExitToMain,
            GameState::InGame,
        ],
        GameState::OptionsMenu => seq![GameState::PauseMenu, GameState::MainMenu],
        GameState::LoadingWorld => seq![GameState::LoadingTextures],
        GameState::LoadingTextures => seq![GameState::InGame],
        GameState::InGame => seq![GameState::PauseMenu, GameState::LevelChange],
        GameState::LevelChange => seq![GameState::InGame],
        GameState::ExitToMain => seq![],
    }
}

/// The line on which each mode is declared.
pub open spec fn game_line(s: GameState) -> int {
    match s {
        GameState::LoadingAssets => 0,
        GameState::LoadingUI => 1,
        GameState::MainMenu => 2,
        GameState::PauseMenu => 3,
        GameState::OptionsMenu => 4,
        GameState::LoadingWorld => 5,
        GameState::LoadingTextures => 6,
        GameState::InGame => 7,
        GameState::LevelChange => 8,
        GameState::ExitToMain => 9,
    }
}

fn declare(state: GameState, kind: TransitionKind, successors: Vec<GameState>) -> (r: Declaration)
    ensures
        r.state == state,
        r.kind == kind,
        r.successors@ == successors@,
{
    Declaration { state, kind, successors }
}

/// The declaration of the game's modes, one line per mode.
pub fn game_declarations() -> (r: Vec<Declaration>)
    ensures
        r@.len() == 10,
        forall|i: int| 0 <= i < r@.len() ==> game_line(#[trigger] r@[i].state) == i,
        forall|s: GameState| #[trigger] r@[game_line(s)].state == s,
        forall|i: int|
            0 <= i < r@.len() ==> (#[trigger] r@[i]).kind == game_kind(r@[i].state)
                && r@[i].successors@ == game_successors(r@[i].state),
{
    let r = vec![
        declare(GameState::LoadingAssets, TransitionKind::Linear, vec![GameState::LoadingUI]),
        declare(GameState::LoadingUI, TransitionKind::Linear, vec![GameState::MainMenu]),
        declare(
            GameState::MainMenu,
            TransitionKind::Arbitrary,
            vec![GameState::LoadingWorld, GameState::OptionsMenu],
        ),
        declare(
            GameState::PauseMenu,
            TransitionKind::Arbitrary,
            vec![GameState::OptionsMenu, GameState::ExitToMain, GameState::InGame],
        ),
        declare(
            GameState::OptionsMenu,
            TransitionKind::Arbitrary,
            vec![GameState::PauseMenu, GameState::MainMenu],
        ),
        declare(GameState::LoadingWorld, TransitionKind::Linear, vec![GameState::LoadingTextures]),
        declare(GameState::LoadingTextures, TransitionKind::Linear, vec![GameState::InGame]),
        declare(
            GameState::InGame,
            TransitionKind::Arbitrary,
            vec![GameState::PauseMenu, GameState::LevelChange],
        ),
        declare(GameState::LevelChange, TransitionKind::Linear, vec![GameState::InGame]),
        declare(GameState::ExitToMain, TransitionKind::Terminal, vec![]),
    ];
    assert(r@[0].successors@ =~= game_successors(GameState::LoadingAssets));
    assert(r@[1].successors@ =~= game_successors(GameState::LoadingUI));
    assert(r@[2].successors@ =~= game_successors(GameState::MainMenu));
    assert(r@[3].successors@ =~= game_successors(GameState::PauseMenu));
    assert(r@[4].successors@ =~= game_successors(GameState::OptionsMenu));
    assert(r@[5].successors@ =~= game_successors(GameState::LoadingWorld));
    assert(r@[6].successors@ =~= game_successors(GameState::LoadingTextures));
    assert(r@[7].successors@ =~= game_successors(GameState::InGame));
    assert(r@[8].successors@ =~= game_successors(GameState::LevelChange));
    assert(r@[9].successors@ =~= game_successors(GameState::ExitToMain));
    r
}

/// The game's declaration is a valid one, starting in `LoadingAssets`.
proof fn lemma_game_declarations_valid(d: Seq<Declaration>)
    requires
        d.len() == 10,
        forall|i: int| 0 <= i < d.len() ==> game_line(#[trigger] d[i].state) == i,
        forall|s: GameState| #[trigger] d[game_line(s)].state == s,
        forall|i: int|
            0 <= i < d.len() ==> (#[trigger] d[i]).kind == game_kind(d[i].state)
                && d[i].successors@ == game_successors(d[i].state),
    ensures
        valid_declarations(d, GameState::LoadingAssets),
        forall|s: GameState| #[trigger] declares(d, s),
        forall|s: GameState| #[trigger] declared_successors(d, s) == game_successors(s),
        forall|s: GameState| #[trigger] declared_kind(d, s) == game_kind(s),
{
    assert forall|s: GameState| #[trigger] declares(d, s) by {
        assert(d[game_line(s)].state == s);
    }
    assert forall|i: int, j: int| 0 <= i < j < d.len() implies d[i].state != d[j].state by {
        assert(game_line(d[i].state) == i);
        assert(game_line(d[j].state) == j);
    }
    assert forall|i: int| 0 <= i < d.len() implies crate::table::arity_fits(
        d[i].kind,
        d[i].successors@.len() as int,
    ) by {
        assert(d[i].kind == game_kind(d[i].state));
    }
    assert forall|s: GameState|
        #[trigger] declared_successors(d, s) == game_successors(s) && declared_kind(d, s)
            == game_kind(s) by {
        assert(0 <= game_line(s) < 10);
        lemma_entry(d, game_line(s));
    }
    assert(linear_walk(d, GameState::LoadingAssets, 0) == GameState::LoadingAssets);
    assert(declared_successors(d, GameState::LoadingAssets)[0] == GameState::LoadingUI);
    assert(linear_walk(d, GameState::LoadingAssets, 1) == GameState::LoadingUI);
    assert(declared_successors(d, GameState::LoadingUI)[0] == GameState::MainMenu);
    assert(linear_walk(d, GameState::LoadingAssets, 2) == GameState::MainMenu);
}

/// The game's transition table, starting in `LoadingAssets`.
pub fn game_table() -> (r: TransitionTable)
    ensures
        r.wf(),
        r.initial_spec() == GameState::LoadingAssets,
        forall|s: GameState| #[trigger] r.contains(s),
        forall|s: GameState| #[trigger] r.successors(s) == game_successors(s),
        forall|s: GameState| #[trigger] r.kind(s) == game_kind(s),
{
    let decls = game_declarations();
    proof {
        lemma_game_declarations_valid(decls@);
    }
    match TransitionTable::build(decls, GameState::LoadingAssets) {
        Ok(t) => t,
        Err(_) => vstd::pervasive::unreached(),
    }
}

/// Installs the game's mode machine.
pub struct StatePlugin;

impl StatePlugin {
    /// A runtime over the game's table, in `LoadingAssets` with nothing pending.
    pub fn build(&self) -> (r: RuntimeState)
        ensures
            r.wf(),
            r.current_spec() == GameState::LoadingAssets,
            r.pending_spec() is None,
            forall|s: GameState| #[trigger] r.table_spec().successors(s) == game_successors(s),
            forall|s: GameState| #[trigger] r.table_spec().kind(s) == game_kind(s),
    {
        RuntimeState::new(game_table())
    }
}

} // verus!
