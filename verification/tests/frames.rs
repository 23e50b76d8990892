use ball_game::game::direction::{Direction, ONE};
use ball_game::game::entity::{Enemy, Player, Position, Star, Viewport};
use ball_game::game::movement::MoveKeys;
use ball_game::game::score::{Event, GameOver};
use ball_game::game::sim::{FrameDraws, FrameInput, FrameOutcome, Simulation};
use ball_game::game::spawn::{EnemyDraw, StarDraw};
use ball_game::game::state::{toggle_simulation, AppState, Requests, SimulationState};

const SECOND: u64 = 1_000_000_000;
const HALF: u32 = 1 << 31;

fn idle(delta_ns: u64) -> FrameInput {
    FrameInput {
        viewport: Viewport { width: 800_000, height: 600_000 },
        keys: MoveKeys { left: false, right: false, up: false, down: false },
        toggle: false,
        start: false,
        restart: false,
        exit: false,
        delta_ns,
    }
}

fn start() -> FrameInput {
    FrameInput { start: true, ..idle(0) }
}

fn toggle() -> FrameInput {
    FrameInput { toggle: true, ..idle(0) }
}

fn no_draws() -> FrameDraws {
    FrameDraws {
        star: StarDraw { x: 0, y: 0 },
        enemy: EnemyDraw { x: 0, y: 0, dx: HALF, dy: 0 },
        startup_stars: Vec::new(),
        startup_enemies: Vec::new(),
    }
}

/// A game with the player in the middle, one star at (100, 100) px and one
/// enemy at (600, 450) px heading right, already running.
fn running_game() -> Simulation {
    let mut sim = Simulation::new();
    let draws = FrameDraws {
        startup_stars: vec![StarDraw { x: 1 << 29, y: 0x2AAA_AAAB }],
        startup_enemies: vec![EnemyDraw { x: 3 << 30, y: 3 << 30, dx: HALF, dy: 0 }],
        ..no_draws()
    };
    assert_eq!(sim.frame_with(&start(), &draws), FrameOutcome::Continue);
    assert_eq!(sim.frame_with(&toggle(), &no_draws()), FrameOutcome::Continue);
    sim
}

#[test]
fn a_new_simulation_waits_on_the_menu() {
    let sim = Simulation::new();
    assert_eq!(sim.app_state(), AppState::MainMenu);
    assert_eq!(sim.simulation_state(), SimulationState::Paused);
    assert_eq!(sim.score(), 0);
    assert_eq!(sim.player(), None);
    assert!(sim.enemies().is_empty());
    assert!(sim.stars().is_empty());
    assert!(sim.events().is_empty());
    assert_eq!(AppState::default(), AppState::MainMenu);
    assert_eq!(SimulationState::default(), SimulationState::Paused);
}

#[test]
fn starting_sets_the_game_up_paused() {
    let mut sim = Simulation::new();
    let draws = FrameDraws {
        startup_stars: vec![StarDraw { x: HALF, y: HALF }, StarDraw { x: 0, y: u32::MAX }],
        startup_enemies: vec![EnemyDraw { x: 0, y: HALF, dx: 6, dy: 8 }],
        ..no_draws()
    };
    sim.frame_with(&start(), &draws);
    assert_eq!(sim.app_state(), AppState::Game);
    assert_eq!(sim.simulation_state(), SimulationState::Paused);
    assert_eq!(sim.score(), 0);
    assert_eq!(
        sim.player(),
        Some(Player { position: Position { x: 400_000, y: 300_000 } })
    );
    assert_eq!(
        sim.stars(),
        &vec![
            Some(Star { position: Position { x: 400_000, y: 300_000 } }),
            Some(Star { position: Position { x: 0, y: 599_999 } }),
        ]
    );
    assert_eq!(
        sim.enemies(),
        &vec![Enemy {
            position: Position { x: 128_000, y: 300_000 },
            direction: Direction::new(600_000, 800_000).unwrap(),
        }]
    );
    // Paused: another frame changes nothing, whatever time passes.
    sim.frame_with(&idle(5 * SECOND), &no_draws());
    assert_eq!(sim.stars().len(), 2);
    assert_eq!(sim.enemies()[0].position, Position { x: 128_000, y: 300_000 });
    assert_eq!(sim.score(), 0);
}

#[test]
fn random_start_places_ten_stars_and_three_enemies() {
    let mut sim = Simulation::new();
    assert_eq!(sim.frame(&start()), FrameOutcome::Continue);
    assert_eq!(sim.app_state(), AppState::Game);
    assert_eq!(sim.stars().len(), 10);
    assert_eq!(sim.enemies().len(), 3);
    for star in sim.stars() {
        let p = star.unwrap().position;
        assert!(0 <= p.x && p.x < 800_000 && 0 <= p.y && p.y < 600_000);
    }
    for e in sim.enemies() {
        assert!(128_000 <= e.position.x && e.position.x <= 672_000);
        assert!(128_000 <= e.position.y && e.position.y <= 472_000);
    }
    sim.frame(&toggle());
    let mut stars = 10;
    for _ in 0..40 {
        sim.frame(&idle(SECOND / 4));
        if sim.player().is_none() {
            break;
        }
        let p = sim.player().unwrap().position;
        assert!(32_000 <= p.x && p.x <= 768_000 && 32_000 <= p.y && p.y <= 568_000);
        assert!(sim.stars().len() >= stars);
        stars = sim.stars().len();
        for e in sim.enemies() {
            assert!(Direction::new(e.direction.x(), e.direction.y()).is_some());
        }
    }
}

#[test]
fn toggling_twice_returns_to_the_same_state() {
    let mut sim = Simulation::new();
    sim.frame_with(&start(), &no_draws());
    assert_eq!(sim.simulation_state(), SimulationState::Paused);
    sim.frame_with(&toggle(), &no_draws());
    assert_eq!(sim.simulation_state(), SimulationState::Running);
    sim.frame_with(&toggle(), &no_draws());
    assert_eq!(sim.simulation_state(), SimulationState::Paused);
    for state in [SimulationState::Paused, SimulationState::Running] {
        let once = toggle_simulation(AppState::Game, true, state);
        assert_ne!(once, state);
        assert_eq!(toggle_simulation(AppState::Game, true, once), state);
        assert_eq!(toggle_simulation(AppState::Game, false, state), state);
    }
}

#[test]
fn toggling_off_the_game_screen_does_nothing() {
    for state in [SimulationState::Paused, SimulationState::Running] {
        assert_eq!(toggle_simulation(AppState::MainMenu, true, state), state);
        assert_eq!(toggle_simulation(AppState::GameOver, true, state), state);
    }
    let mut sim = Simulation::new();
    sim.frame_with(&toggle(), &no_draws());
    assert_eq!(sim.app_state(), AppState::MainMenu);
    assert_eq!(sim.simulation_state(), SimulationState::Paused);
}

#[test]
fn each_screen_listens_to_its_own_request() {
    let none = Requests { start: false, restart: false, game_over: false };
    let start = Requests { start: true, ..none };
    let restart = Requests { restart: true, ..none };
    let over = Requests { game_over: true, ..none };
    let all = Requests { start: true, restart: true, game_over: true };
    assert_eq!(AppState::MainMenu.next(none), AppState::MainMenu);
    assert_eq!(AppState::MainMenu.next(start), AppState::Game);
    assert_eq!(AppState::MainMenu.next(restart), AppState::MainMenu);
    assert_eq!(AppState::MainMenu.next(over), AppState::MainMenu);
    assert_eq!(AppState::MainMenu.next(all), AppState::Game);
    assert_eq!(AppState::Game.next(none), AppState::Game);
    assert_eq!(AppState::Game.next(start), AppState::Game);
    assert_eq!(AppState::Game.next(restart), AppState::Game);
    assert_eq!(AppState::Game.next(over), AppState::GameOver);
    assert_eq!(AppState::Game.next(all), AppState::GameOver);
    assert_eq!(AppState::GameOver.next(none), AppState::GameOver);
    assert_eq!(AppState::GameOver.next(start), AppState::GameOver);
    assert_eq!(AppState::GameOver.next(over), AppState::GameOver);
    assert_eq!(AppState::GameOver.next(restart), AppState::MainMenu);
    assert_eq!(AppState::GameOver.next(all), AppState::MainMenu);
}

#[test]
fn exit_stops_the_loop_and_changes_nothing() {
    let mut sim = running_game();
    let before = (sim.player(), sim.enemies().clone(), sim.stars().clone(), sim.score());
    let input = FrameInput {
        exit: true,
        toggle: true,
        keys: MoveKeys { left: true, right: false, up: false, down: false },
        ..idle(SECOND)
    };
    assert_eq!(sim.frame_with(&input, &no_draws()), FrameOutcome::Exit);
    assert_eq!(sim.frame(&input), FrameOutcome::Exit);
    assert_eq!(sim.simulation_state(), SimulationState::Running);
    assert_eq!(
        (sim.player(), sim.enemies().clone(), sim.stars().clone(), sim.score()),
        before
    );
}

#[test]
fn a_running_frame_moves_confines_and_bounces() {
    let mut sim = running_game();
    assert_eq!(sim.enemies()[0].position, Position { x: 600_000, y: 450_000 });
    assert_eq!(sim.stars()[0], Some(Star { position: Position { x: 100_000, y: 100_000 } }));
    // Half a second to the left: 250 px for the player, 100 px to the right for the enemy.
    let input = FrameInput {
        keys: MoveKeys { left: true, right: false, up: false, down: false },
        ..idle(SECOND / 2)
    };
    sim.frame_with(&input, &no_draws());
    assert_eq!(sim.player(), Some(Player { position: Position { x: 150_000, y: 300_000 } }));
    assert_eq!(sim.enemies()[0].position, Position { x: 700_000, y: 450_000 });
    assert!(sim.events().is_empty());
    // A whole second more: the player stops at the left edge, the enemy
    // bounces off the right one, and the star timer has completed once.
    let input = FrameInput { delta_ns: SECOND, ..input };
    let draws = FrameDraws { star: StarDraw { x: HALF, y: HALF }, ..no_draws() };
    sim.frame_with(&input, &draws);
    assert_eq!(sim.player(), Some(Player { position: Position { x: 32_000, y: 300_000 } }));
    assert_eq!(
        sim.enemies()[0],
        Enemy {
            position: Position { x: 768_000, y: 450_000 },
            direction: Direction::new(-ONE, 0).unwrap(),
        }
    );
    assert_eq!(sim.events(), &vec![Event::Bounce { enemy: 0 }]);
    assert_eq!(sim.stars().len(), 2);
    assert_eq!(sim.stars()[1], Some(Star { position: Position { x: 400_000, y: 300_000 } }));
    // The reports belong to their frame.
    sim.frame_with(&idle(0), &no_draws());
    assert!(sim.events().is_empty());
}

#[test]
fn events_can_be_drained_once() {
    let mut sim = running_game();
    sim.frame_with(&idle(2 * SECOND), &no_draws());
    assert_eq!(sim.drain_events(), vec![Event::Bounce { enemy: 0 }]);
    assert!(sim.drain_events().is_empty());
    assert_eq!(sim.enemies().len(), 1);
    assert_eq!(sim.app_state(), AppState::Game);
}

#[test]
fn the_tenth_second_brings_an_enemy() {
    let mut sim = running_game();
    let draws = FrameDraws {
        star: StarDraw { x: u32::MAX, y: u32::MAX },
        enemy: EnemyDraw { x: HALF, y: 0, dx: 0, dy: HALF },
        ..no_draws()
    };
    for second in 1..=10u64 {
        sim.frame_with(&idle(SECOND), &draws);
        assert_eq!(sim.stars().len() as u64, 1 + second);
        assert_eq!(sim.enemies().len(), if second < 10 { 1 } else { 2 });
    }
    assert_eq!(
        sim.enemies()[1],
        Enemy {
            position: Position { x: 400_000, y: 128_000 },
            direction: Direction::new(0, ONE).unwrap(),
        }
    );
}

#[test]
fn collecting_stars_raises_the_score() {
    let mut sim = running_game();
    // Two stars on top of the player, one far away.
    let on_player = FrameDraws { star: StarDraw { x: HALF, y: HALF }, ..no_draws() };
    let far = FrameDraws { star: StarDraw { x: 0, y: 0 }, ..no_draws() };
    sim.frame_with(&idle(SECOND), &on_player);
    assert_eq!(sim.score(), 1);
    assert_eq!(sim.stars()[1], None);
    // The enemy reached the right edge in the same frame; its bounce comes first.
    assert_eq!(
        sim.events(),
        &vec![Event::Bounce { enemy: 0 }, Event::Collected { star: 1 }]
    );
    sim.frame_with(&idle(SECOND), &far);
    assert_eq!(sim.score(), 1);
    assert_eq!(sim.stars()[2], Some(Star { position: Position { x: 0, y: 0 } }));
    assert!(sim.stars()[0].is_some());
    sim.frame_with(&idle(SECOND), &on_player);
    assert_eq!(sim.score(), 2);
    assert_eq!(sim.events(), &vec![Event::Collected { star: 3 }]);
    assert_eq!(sim.stars().len(), 4);
}

#[test]
fn losing_leads_to_game_over_and_back_to_the_menu() {
    let mut sim = Simulation::new();
    // Three enemies next to the player: the nearest spawn point to the
    // middle is the middle itself.
    let on_player = EnemyDraw { x: HALF, y: HALF, dx: HALF, dy: 0 };
    let draws = FrameDraws {
        startup_stars: vec![StarDraw { x: HALF, y: HALF }],
        startup_enemies: vec![on_player, on_player, on_player],
        ..no_draws()
    };
    sim.frame_with(&start(), &draws);
    sim.frame_with(&toggle(), &no_draws());
    // The run ends in the first running frame, once, before the star counts.
    assert_eq!(sim.player(), None);
    assert_eq!(sim.events(), &vec![Event::GameOver(GameOver { final_score: 0 })]);
    assert_eq!(sim.score(), 0);
    assert_eq!(sim.stars().len(), 1);
    assert!(sim.stars()[0].is_some());
    assert_eq!(sim.app_state(), AppState::Game);
    // The screen follows in the next frame; nothing is reported twice.
    sim.frame_with(&idle(SECOND), &no_draws());
    assert_eq!(sim.app_state(), AppState::GameOver);
    assert!(sim.events().is_empty());
    assert_eq!(sim.enemies().len(), 3);
    // Starting is not possible from here, restarting is.
    sim.frame_with(&start(), &no_draws());
    assert_eq!(sim.app_state(), AppState::GameOver);
    sim.frame_with(&FrameInput { restart: true, ..idle(0) }, &no_draws());
    assert_eq!(sim.app_state(), AppState::MainMenu);
    // A new game starts afresh.
    sim.frame_with(&start(), &no_draws());
    assert_eq!(sim.app_state(), AppState::Game);
    assert_eq!(sim.simulation_state(), SimulationState::Paused);
    assert_eq!(sim.player(), Some(Player { position: Position { x: 400_000, y: 300_000 } }));
    assert!(sim.enemies().is_empty());
    assert!(sim.stars().is_empty());
    assert_eq!(sim.score(), 0);
}

#[test]
fn a_new_game_forgets_the_old_score() {
    let mut sim = running_game();
    let on_player = FrameDraws { star: StarDraw { x: HALF, y: HALF }, ..no_draws() };
    sim.frame_with(&idle(SECOND), &on_player);
    assert_eq!(sim.score(), 1);
    // An enemy appears on the player in the tenth second.
    let deadly = FrameDraws {
        star: StarDraw { x: 0, y: 0 },
        enemy: EnemyDraw { x: HALF, y: HALF, dx: HALF, dy: 0 },
        ..no_draws()
    };
    sim.frame_with(&idle(9 * SECOND), &deadly);
    assert_eq!(sim.player(), None);
    assert_eq!(sim.events().last(), Some(&Event::GameOver(GameOver { final_score: 1 })));
    sim.frame_with(&idle(0), &no_draws());
    assert_eq!(sim.app_state(), AppState::GameOver);
    assert_eq!(sim.score(), 1);
    sim.frame_with(&FrameInput { restart: true, ..idle(0) }, &no_draws());
    sim.frame_with(&start(), &no_draws());
    assert_eq!(sim.score(), 0);
    assert_eq!(sim.app_state(), AppState::Game);
}
