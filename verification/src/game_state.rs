//! The game's top-level state flow.
//!
//! Initializing, asset loading, menu, construction, play, death, quit: each
//! state knows which state follows it, and `Quit` follows nothing.

use vstd::prelude::*;

verus! {

#[derive(Clone, Copy, PartialEq, Eq, Structural, Hash, Debug)]
pub enum AssetLoadState {
    Load,
    LoadFailure,
}

#[derive(Clone, Copy, PartialEq, Eq, Structural, Hash, Debug)]
pub enum ConstructState {
    Construct,
    Setup,
}

#[derive(Clone, Copy, PartialEq, Eq, Structural, Hash, Debug)]
pub enum UiState {
    MainMenu,
}

#[derive(Clone, Copy, PartialEq, Eq, Structural, Hash, Debug)]
pub enum GameState {
    Initializing,
    AssetLoad(AssetLoadState),
    Ui(UiState),
    Construct(ConstructState),
    InGame,
    Dead,
    Quit,
}

/// The state that follows each state: initialization flows through asset
/// loading, the main menu and construction into play; death returns to the
/// menu; a load failure quits; quitting ends the flow.
pub open spec fn spec_next_state(s: GameState) -> Option<GameState> {
    match s {
        GameState::Initializing => Some(GameState::AssetLoad(AssetLoadState::Load)),
        GameState::InGame => Some(GameState::Ui(UiState::MainMenu)),
        GameState::Quit => None,
        GameState::AssetLoad(asset_state) => match asset_state {
            AssetLoadState::Load => Some(GameState::Ui(UiState::MainMenu)),
            AssetLoadState::LoadFailure => Some(GameState::Quit),
        },
        GameState::Ui(ui_state) => match ui_state {
            UiState::MainMenu => Some(GameState::Construct(ConstructState::Construct)),
        },
        GameState::Construct(construct_state) => match construct_state {
            ConstructState::Construct => Some(GameState::Construct(ConstructState::Setup)),
            ConstructState::Setup => Some(GameState::InGame),
        },
        GameState::Dead => Some(GameState::Ui(UiState::MainMenu)),
    }
}

impl GameState {
    pub fn next(&self) -> (r: Option<GameState>)
        ensures
            r == spec_next_state(*self),
    {
        match self {
            GameState::Initializing => Some(GameState::AssetLoad(AssetLoadState::Load)),
            GameState::InGame => Some(GameState::Ui(UiState::MainMenu)),
            GameState::Quit => None,
            GameState::AssetLoad(asset_state) => match asset_state {
                AssetLoadState::Load => Some(GameState::Ui(UiState::MainMenu)),
                AssetLoadState::LoadFailure => Some(GameState::Quit),
            },
            GameState::Ui(ui_state) => match ui_state {
                UiState::MainMenu => Some(GameState::Construct(ConstructState::Construct)),
            },
            GameState::Construct(construct_state) => match construct_state {
                ConstructState::Construct => Some(GameState::Construct(ConstructState::Setup)),
                ConstructState::Setup => Some(GameState::InGame),
            },
            GameState::Dead => Some(GameState::Ui(UiState::MainMenu)),
        }
    }
}

} // verus!
