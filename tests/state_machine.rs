use game_state::game::{game_declarations, game_table, StatePlugin};
use game_state::runtime::{IllegalTransition, RuntimeState, TransitionEvent};
use game_state::state::{GameState, TransitionKind};
use game_state::table::{ConfigurationError, Declaration, TransitionTable};

const ALL: [GameState; 10] = [
    GameState::LoadingAssets,
    GameState::LoadingUI,
    GameState::MainMenu,
    GameState::PauseMenu,
    GameState::OptionsMenu,
    GameState::LoadingWorld,
    GameState::LoadingTextures,
    GameState::InGame,
    GameState::LevelChange,
    GameState::ExitToMain,
];

fn decl(state: GameState, kind: TransitionKind, successors: Vec<GameState>) -> Declaration {
    Declaration { state, kind, successors }
}

fn runtime_at(state: GameState) -> RuntimeState {
    let table = TransitionTable::build(game_declarations(), state).unwrap();
    RuntimeState::new(table)
}

#[test]
fn default_state_is_loading_assets() {
    assert_eq!(GameState::default(), GameState::LoadingAssets);
    assert_eq!(game_table().initial(), GameState::LoadingAssets);
}

#[test]
fn nonterminal_states_have_successors() {
    let table = game_table();
    for s in ALL {
        let succ = table.successors_of(s);
        if table.kind_of(s) == TransitionKind::Terminal {
            assert!(succ.is_empty());
        } else {
            assert!(!succ.is_empty());
        }
    }
}

#[test]
fn linear_states_have_one_successor() {
    let table = game_table();
    let mut linear = 0;
    for s in ALL {
        if table.kind_of(s) == TransitionKind::Linear {
            assert_eq!(table.successors_of(s).len(), 1);
            linear += 1;
        }
    }
    assert_eq!(linear, 5);
}

#[test]
fn game_table_successors() {
    let table = game_table();
    assert_eq!(
        table.successors_of(GameState::PauseMenu),
        vec![GameState::OptionsMenu, GameState::ExitToMain, GameState::InGame]
    );
    assert_eq!(
        table.successors_of(GameState::InGame),
        vec![GameState::PauseMenu, GameState::LevelChange]
    );
    assert_eq!(table.kind_of(GameState::InGame), TransitionKind::Arbitrary);
    assert_eq!(table.kind_of(GameState::ExitToMain), TransitionKind::Terminal);
    assert!(table.allows(GameState::OptionsMenu, GameState::MainMenu));
    assert!(!table.allows(GameState::MainMenu, GameState::InGame));
}

#[test]
fn linear_advance_moves_to_sole_successor() {
    let mut rt = runtime_at(GameState::LoadingWorld);
    let ev = rt.advance();
    assert_eq!(
        ev,
        Some(TransitionEvent { from: GameState::LoadingWorld, to: GameState::LoadingTextures })
    );
    assert_eq!(rt.current(), GameState::LoadingTextures);
    assert_eq!(rt.pending(), None);
}

#[test]
fn illegal_request_is_rejected() {
    let mut rt = runtime_at(GameState::MainMenu);
    let r = rt.request_transition(GameState::InGame);
    assert_eq!(r, Err(IllegalTransition { from: GameState::MainMenu, to: GameState::InGame }));
    assert_eq!(rt.current(), GameState::MainMenu);
    assert_eq!(rt.pending(), None);
}

#[test]
fn repeated_illegal_requests_change_nothing() {
    let mut rt = runtime_at(GameState::PauseMenu);
    assert_eq!(rt.request_transition(GameState::OptionsMenu), Ok(()));
    for _ in 0..5 {
        assert!(rt.request_transition(GameState::LoadingAssets).is_err());
        assert!(rt.request_transition(GameState::PauseMenu).is_err());
        assert_eq!(rt.current(), GameState::PauseMenu);
        assert_eq!(rt.pending(), Some(GameState::OptionsMenu));
    }
}

#[test]
fn last_request_wins() {
    let mut rt = runtime_at(GameState::PauseMenu);
    assert_eq!(rt.request_transition(GameState::OptionsMenu), Ok(()));
    assert_eq!(rt.request_transition(GameState::InGame), Ok(()));
    let ev = rt.advance();
    assert_eq!(ev, Some(TransitionEvent { from: GameState::PauseMenu, to: GameState::InGame }));
    assert_eq!(rt.current(), GameState::InGame);
}

#[test]
fn loading_chains_to_main_menu_and_stays() {
    let mut rt = StatePlugin.build();
    assert_eq!(rt.current(), GameState::LoadingAssets);
    rt.advance();
    assert_eq!(rt.current(), GameState::LoadingUI);
    rt.advance();
    assert_eq!(rt.current(), GameState::MainMenu);
    assert_eq!(rt.advance(), None);
    assert_eq!(rt.current(), GameState::MainMenu);
}

#[test]
fn main_menu_to_options() {
    let mut rt = runtime_at(GameState::MainMenu);
    assert_eq!(rt.request_transition(GameState::OptionsMenu), Ok(()));
    let ev = rt.advance();
    assert_eq!(
        ev,
        Some(TransitionEvent { from: GameState::MainMenu, to: GameState::OptionsMenu })
    );
    assert_eq!(rt.current(), GameState::OptionsMenu);
    assert_eq!(rt.advance(), None);
}

#[test]
fn pause_then_exit_to_main() {
    let mut rt = runtime_at(GameState::InGame);
    assert_eq!(rt.request_transition(GameState::PauseMenu), Ok(()));
    assert_eq!(
        rt.advance(),
        Some(TransitionEvent { from: GameState::InGame, to: GameState::PauseMenu })
    );
    assert_eq!(rt.request_transition(GameState::ExitToMain), Ok(()));
    assert_eq!(
        rt.advance(),
        Some(TransitionEvent { from: GameState::PauseMenu, to: GameState::ExitToMain })
    );
    assert_eq!(rt.current(), GameState::ExitToMain);
    assert_eq!(rt.table().kind_of(GameState::ExitToMain), TransitionKind::Terminal);
    assert!(rt.table().successors_of(GameState::ExitToMain).is_empty());
    assert_eq!(rt.advance(), None);
    assert!(rt.request_transition(GameState::MainMenu).is_err());
    assert_eq!(rt.current(), GameState::ExitToMain);
}

#[test]
fn full_path_from_start_into_game() {
    let mut rt = StatePlugin.build();
    rt.advance();
    rt.advance();
    assert_eq!(rt.request_transition(GameState::LoadingWorld), Ok(()));
    rt.advance();
    assert_eq!(rt.current(), GameState::LoadingWorld);
    rt.advance();
    rt.advance();
    assert_eq!(rt.current(), GameState::InGame);
    assert_eq!(rt.advance(), None);
    assert_eq!(rt.request_transition(GameState::LevelChange), Ok(()));
    rt.advance();
    assert_eq!(rt.current(), GameState::LevelChange);
    rt.advance();
    assert_eq!(rt.current(), GameState::InGame);
}

#[test]
fn self_loop_emits_event() {
    let decls = vec![
        decl(GameState::MainMenu, TransitionKind::Arbitrary, vec![GameState::MainMenu]),
    ];
    let mut rt = RuntimeState::new(TransitionTable::build(decls, GameState::MainMenu).unwrap());
    assert_eq!(rt.request_transition(GameState::MainMenu), Ok(()));
    assert_eq!(
        rt.advance(),
        Some(TransitionEvent { from: GameState::MainMenu, to: GameState::MainMenu })
    );
    assert_eq!(rt.current(), GameState::MainMenu);
}

#[test]
fn building_twice_gives_same_table() {
    let a = TransitionTable::build(game_declarations(), GameState::LoadingAssets).unwrap();
    let b = TransitionTable::build(game_declarations(), GameState::LoadingAssets).unwrap();
    for s in ALL {
        assert_eq!(a.successors_of(s), b.successors_of(s));
        assert_eq!(a.kind_of(s), b.kind_of(s));
    }
}

#[test]
fn build_rejects_duplicate_state() {
    let decls = vec![
        decl(GameState::MainMenu, TransitionKind::Arbitrary, vec![GameState::ExitToMain]),
        decl(GameState::ExitToMain, TransitionKind::Terminal, vec![]),
        decl(GameState::MainMenu, TransitionKind::Terminal, vec![]),
    ];
    let r = TransitionTable::build(decls, GameState::MainMenu);
    assert_eq!(r.err(), Some(ConfigurationError::DuplicateState(GameState::MainMenu)));
}

#[test]
fn build_rejects_dangling_successor() {
    let decls = vec![
        decl(GameState::MainMenu, TransitionKind::Arbitrary, vec![GameState::InGame]),
    ];
    let r = TransitionTable::build(decls, GameState::MainMenu);
    assert_eq!(
        r.err(),
        Some(ConfigurationError::DanglingSuccessor {
            from: GameState::MainMenu,
            to: GameState::InGame
        })
    );
}

#[test]
fn build_rejects_linear_with_two_successors() {
    let decls = vec![
        decl(
            GameState::LoadingUI,
            TransitionKind::Linear,
            vec![GameState::MainMenu, GameState::ExitToMain],
        ),
        decl(GameState::MainMenu, TransitionKind::Terminal, vec![]),
        decl(GameState::ExitToMain, TransitionKind::Terminal, vec![]),
    ];
    let r = TransitionTable::build(decls, GameState::LoadingUI);
    assert_eq!(r.err(), Some(ConfigurationError::InvalidArity(GameState::LoadingUI)));
}

#[test]
fn build_rejects_linear_without_successor() {
    let decls = vec![decl(GameState::LoadingUI, TransitionKind::Linear, vec![])];
    let r = TransitionTable::build(decls, GameState::LoadingUI);
    assert_eq!(r.err(), Some(ConfigurationError::InvalidArity(GameState::LoadingUI)));
}

#[test]
fn build_rejects_terminal_with_successor() {
    let decls = vec![
        decl(GameState::ExitToMain, TransitionKind::Terminal, vec![GameState::ExitToMain]),
    ];
    let r = TransitionTable::build(decls, GameState::ExitToMain);
    assert_eq!(r.err(), Some(ConfigurationError::InvalidArity(GameState::ExitToMain)));
}

#[test]
fn build_rejects_missing_default() {
    let r = TransitionTable::build(vec![], GameState::LoadingAssets);
    assert_eq!(r.err(), Some(ConfigurationError::MissingDefault(GameState::LoadingAssets)));
    let decls = vec![decl(GameState::ExitToMain, TransitionKind::Terminal, vec![])];
    let r = TransitionTable::build(decls, GameState::MainMenu);
    assert_eq!(r.err(), Some(ConfigurationError::MissingDefault(GameState::MainMenu)));
}

#[test]
fn undeclared_state_looks_terminal() {
    let decls = vec![decl(GameState::ExitToMain, TransitionKind::Terminal, vec![])];
    let table = TransitionTable::build(decls, GameState::ExitToMain).unwrap();
    assert_eq!(table.kind_of(GameState::InGame), TransitionKind::Terminal);
    assert!(table.successors_of(GameState::InGame).is_empty());
}

#[test]
fn build_rejects_linear_cycle_from_start() {
    let decls = vec![
        decl(GameState::LoadingAssets, TransitionKind::Linear, vec![GameState::LoadingUI]),
        decl(GameState::LoadingUI, TransitionKind::Linear, vec![GameState::LoadingAssets]),
        decl(GameState::ExitToMain, TransitionKind::Terminal, vec![]),
    ];
    let r = TransitionTable::build(decls, GameState::LoadingAssets);
    assert_eq!(r.err(), Some(ConfigurationError::NoSteadyState(GameState::LoadingAssets)));
}

#[test]
fn build_accepts_linear_chain_into_terminal() {
    let decls = vec![
        decl(GameState::LoadingAssets, TransitionKind::Linear, vec![GameState::LoadingUI]),
        decl(GameState::LoadingUI, TransitionKind::Linear, vec![GameState::ExitToMain]),
        decl(GameState::ExitToMain, TransitionKind::Terminal, vec![]),
    ];
    let table = TransitionTable::build(decls, GameState::LoadingAssets).unwrap();
    let mut rt = RuntimeState::new(table);
    rt.advance();
    rt.advance();
    assert_eq!(rt.current(), GameState::ExitToMain);
    assert_eq!(rt.advance(), None);
}
