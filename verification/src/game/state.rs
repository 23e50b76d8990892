//! The two state machines: which screen the application shows, and whether
//! the simulation inside the game screen runs.

use vstd::prelude::*;

verus! {

/// The screen the application is on.
#[derive(Debug, Clone, Copy, PartialEq, Eq, Structural, Hash)]
pub enum AppState {
    MainMenu,
    Game,
    GameOver,
}

impl Default for AppState {
    fn default() -> (state: Self)
        ensures
            state == AppState::MainMenu,
    {
        AppState::MainMenu
    }
}

/// Whether the simulation advances. Only meaningful on the game screen.
#[derive(Debug, Clone, Copy, PartialEq, Eq, Structural, Hash)]
pub enum SimulationState {
    Paused,
    Running,
}

impl Default for SimulationState {
    fn default() -> (state: Self)
        ensures
            state == SimulationState::Paused,
    {
        SimulationState::Paused
    }
}

/// The one-shot requests that can move the application between screens.
#[derive(Debug, Clone, Copy, PartialEq, Eq, Structural)]
pub struct Requests {
    /// Leave the main menu and start a game.
    pub start: bool,
    /// Leave the game-over screen.
    pub restart: bool,
    /// The player was destroyed since the last transition.
    pub game_over: bool,
}

impl AppState {
    /// The screen after one step. Each screen listens to exactly one request:
    /// the menu to `start`, the game to `game_over`, the game-over screen to
    /// `restart`, which leads back to the menu.
    pub open spec fn next_spec(self, requests: Requests) -> AppState {
        match self {
            AppState::MainMenu => if requests.start {
                AppState::Game
            } else {
                AppState::MainMenu
            },
            AppState::Game => if requests.game_over {
                AppState::GameOver
            } else {
                AppState::Game
            },
            AppState::GameOver => if requests.restart {
                AppState::MainMenu
            } else {
                AppState::GameOver
            },
        }
    }

    /// Applies at most one transition.
    pub fn next(self, requests: Requests) -> (state: AppState)
        ensures
            state == self.next_spec(requests),
    {
        match self {
            AppState::MainMenu => if requests.start {
                AppState::Game
            } else {
                AppState::MainMenu
            },
            AppState::Game => if requests.game_over {
                AppState::GameOver
            } else {
                AppState::Game
            },
            AppState::GameOver => if requests.restart {
                AppState::MainMenu
            } else {
                AppState::GameOver
            },
        }
    }
}

impl SimulationState {
    /// The other state.
    pub open spec fn flipped(self) -> SimulationState {
        match self {
            SimulationState::Paused => SimulationState::Running,
            SimulationState::Running => SimulationState::Paused,
        }
    }
}

/// The simulation state after a frame in which the toggle key was or was not
/// pressed: flipped when it was pressed on the game screen, unchanged otherwise.
pub open spec fn toggle_simulation_spec(
    app: AppState,
    toggle: bool,
    simulation: SimulationState,
) -> SimulationState {
    if toggle && app == AppState::Game {
        simulation.flipped()
    } else {
        simulation
    }
}

/// Pauses a running simulation or resumes a paused one when `toggle` is set
/// and the application is on the game screen.
pub fn toggle_simulation(app: AppState, toggle: bool, simulation: SimulationState) -> (next:
    SimulationState)
    ensures
        next == toggle_simulation_spec(app, toggle, simulation),
{
    if toggle && app == AppState::Game {
        match simulation {
            SimulationState::Paused => SimulationState::Running,
            SimulationState::Running => SimulationState::Paused,
        }
    } else {
        simulation
    }
}

/// Toggling twice on the game screen restores the simulation state.
pub proof fn lemma_toggle_twice_restores(simulation: SimulationState)
    ensures
        toggle_simulation_spec(
            AppState::Game,
            true,
            toggle_simulation_spec(AppState::Game, true, simulation),
        ) == simulation,
{
}

/// Off the game screen the toggle does nothing.
pub proof fn lemma_toggle_outside_game_is_noop(
    app: AppState,
    toggle: bool,
    simulation: SimulationState,
)
    requires
        app != AppState::Game,
    ensures
        toggle_simulation_spec(app, toggle, simulation) == simulation,
{
}

} // verus!
