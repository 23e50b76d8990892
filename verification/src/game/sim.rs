//! The frame driver: one context that owns the whole game and advances it
//! frame by frame, in a fixed order.
//!
//! Each frame first applies the screen and pause transitions, and then, only
//! on a running game screen, moves everything, applies the edges, lets the
//! spawn timers add a star or an enemy, and resolves contacts.

use vstd::prelude::*;

use crate::game::boundary::{
    bounce_events,
    bounced,
    confine_player_movement,
    confined,
    half_extent,
    lemma_bounce_keeps_unit_length,
    lemma_confined_stays_inside,
    update_enemy_direction,
};
use crate::game::collision::{
    after_collection,
    any_enemy_hits,
    collected_count,
    collected_events,
    empty_slots,
    enemy_hit_player,
    lemma_collection_empties_slots,
    lemma_new_star_keeps_empty_slots,
    player_hit_star,
};
use crate::game::entity::{
    Enemy,
    EntityStore,
    Player,
    Star,
    Viewport,
    ENEMY_NUMBERS,
    PLAYER_SPRITE_SIZE,
    STAR_NUMBERS,
};
use crate::game::movement::{drifted, enemy_movement, player_movement, steered, MoveKeys};
use crate::game::score::{Event, GameOver, Score};
use crate::game::spawn::{
    draw_enemies,
    draw_enemy,
    draw_star,
    draw_stars,
    enemies_from,
    lemma_spawned_enemy_is_wf,
    spawn_enemies_at,
    spawn_enemy_at,
    spawn_player,
    spawn_star_at,
    spawn_stars_at,
    spawned_enemy,
    star_position,
    stars_from,
    viewport_center,
    EnemyDraw,
    StarDraw,
};
use crate::game::state::{
    toggle_simulation,
    toggle_simulation_spec,
    AppState,
    Requests,
    SimulationState,
};
use crate::game::timer::{
    tick_enemy_spawn_timer,
    tick_star_spawn_timer,
    EnemySpawnTimer,
    StarSpawnTimer,
    TimerView,
    ENEMY_SPAWN_TIME,
    STAR_SPAWN_TIME,
};

verus! {

/// What the outside world tells the game at the top of a frame.
#[derive(Debug, Clone, Copy, PartialEq, Eq, Structural)]
pub struct FrameInput {
    /// The size of the window right now.
    pub viewport: Viewport,
    /// The movement keys that are held.
    pub keys: MoveKeys,
    /// The pause key was pressed this frame.
    pub toggle: bool,
    /// A new game was asked for this frame.
    pub start: bool,
    /// Leaving the game-over screen was asked for this frame.
    pub restart: bool,
    /// Quitting was asked for this frame.
    pub exit: bool,
    /// The time since the previous frame, in nanoseconds.
    pub delta_ns: u64,
}

/// The random numbers a frame may use.
#[derive(Debug)]
pub struct FrameDraws {
    /// Places the star of this frame, if the star timer completes.
    pub star: StarDraw,
    /// Places the enemy of this frame, if the enemy timer completes.
    pub enemy: EnemyDraw,
    /// Place the stars of a new game, if one starts this frame.
    pub startup_stars: Vec<StarDraw>,
    /// Place the enemies of a new game, if one starts this frame.
    pub startup_enemies: Vec<EnemyDraw>,
}

/// The random numbers of a frame, as values.
pub struct Draws {
    pub star: StarDraw,
    pub enemy: EnemyDraw,
    pub startup_stars: Seq<StarDraw>,
    pub startup_enemies: Seq<EnemyDraw>,
}

impl View for FrameDraws {
    type V = Draws;

    open spec fn view(&self) -> Draws {
        Draws {
            star: self.star,
            enemy: self.enemy,
            startup_stars: self.startup_stars@,
            startup_enemies: self.startup_enemies@,
        }
    }
}

/// Whether the loop should go on after a frame.
#[derive(Debug, Clone, Copy, PartialEq, Eq, Structural)]
pub enum FrameOutcome {
    Continue,
    Exit,
}

/// The whole game at one instant, as values.
pub struct World {
    pub app_state: AppState,
    pub simulation_state: SimulationState,
    pub player: Option<Player>,
    pub enemies: Seq<Enemy>,
    pub stars: Seq<Option<Star>>,
    pub score: nat,
    pub star_timer: TimerView,
    pub enemy_timer: TimerView,
    /// The facts reported in the current frame, oldest first.
    pub events: Seq<Event>,
    /// The player was destroyed and the screen has not changed yet.
    pub game_over_pending: bool,
}

impl World {
    /// The world before the first frame: on the menu, with an empty field.
    pub open spec fn initial() -> World {
        World {
            app_state: AppState::MainMenu,
            simulation_state: SimulationState::Paused,
            player: None,
            enemies: Seq::empty(),
            stars: Seq::empty(),
            score: 0,
            star_timer: TimerView::fresh(STAR_SPAWN_TIME as nat, true),
            enemy_timer: TimerView::fresh(ENEMY_SPAWN_TIME as nat, true),
            events: Seq::empty(),
            game_over_pending: false,
        }
    }

    /// Every enemy travels in a unit direction, and no more stars are
    /// counted in the score than have left their slot.
    pub open spec fn wf(self) -> bool {
        &&& forall|i: int|
            0 <= i < self.enemies.len() ==> (#[trigger] self.enemies[i]).direction.wf()
        &&& self.score <= empty_slots(self.stars, self.stars.len() as int)
    }

    /// Whether the simulation advances in this state.
    pub open spec fn runs(self) -> bool {
        self.app_state == AppState::Game && self.simulation_state == SimulationState::Running
    }

    /// The requests the screen state machine sees this frame.
    pub open spec fn requests(self, input: FrameInput) -> Requests {
        Requests { start: input.start, restart: input.restart, game_over: self.game_over_pending }
    }

    /// Whether a new game starts this frame.
    pub open spec fn enters_game(self, input: FrameInput) -> bool {
        self.app_state == AppState::MainMenu && input.start
    }

    /// The start of a game: paused, no score, the player in the middle, the
    /// first stars and enemies placed by `draws`, both spawn timers fresh.
    pub open spec fn started(self, viewport: Viewport, draws: Draws) -> World {
        World {
            app_state: AppState::Game,
            simulation_state: SimulationState::Paused,
            player: Some(Player { position: viewport_center(viewport) }),
            enemies: enemies_from(viewport, draws.startup_enemies),
            stars: stars_from(viewport, draws.startup_stars),
            score: 0,
            star_timer: TimerView::fresh(STAR_SPAWN_TIME as nat, true),
            enemy_timer: TimerView::fresh(ENEMY_SPAWN_TIME as nat, true),
            events: self.events,
            game_over_pending: false,
        }
    }

    /// The state machines take their step: the screen follows its request,
    /// the pause toggle applies on the game screen, and a pending game-over
    /// is used up. Entering the game screen sets the game up afresh.
    pub open spec fn transitioned(self, input: FrameInput, draws: Draws) -> World {
        if self.enters_game(input) {
            self.started(input.viewport, draws)
        } else {
            World {
                app_state: self.app_state.next_spec(self.requests(input)),
                simulation_state: toggle_simulation_spec(
                    self.app_state,
                    input.toggle,
                    self.simulation_state,
                ),
                game_over_pending: false,
                ..self
            }
        }
    }

    /// Movement: the player follows the keys, the enemies their directions.
    pub open spec fn moved(self, input: FrameInput) -> World {
        World {
            player: match self.player {
                Some(player) => Some(
                    Player { position: steered(player.position, input.keys, input.delta_ns) },
                ),
                None => None,
            },
            enemies: Seq::new(
                self.enemies.len(),
                |i: int| drifted(self.enemies[i], input.delta_ns),
            ),
            ..self
        }
    }

    /// Boundaries: the player is held on the field, enemies bounce off its
    /// edges and each bounce is reported.
    pub open spec fn bounded(self, viewport: Viewport) -> World {
        World {
            player: match self.player {
                Some(player) => Some(
                    Player { position: confined(player.position, viewport, PLAYER_SPRITE_SIZE) },
                ),
                None => None,
            },
            enemies: Seq::new(self.enemies.len(), |i: int| bounced(self.enemies[i], viewport)),
            events: self.events + bounce_events(self.enemies, viewport, self.enemies.len() as int),
            ..self
        }
    }

    /// Spawning: both timers tick, and each one that completes a period adds
    /// one entity placed by this frame's draws.
    pub open spec fn scheduled(self, input: FrameInput, draws: Draws) -> World {
        let star_timer = self.star_timer.ticked(input.delta_ns as nat);
        let enemy_timer = self.enemy_timer.ticked(input.delta_ns as nat);
        World {
            star_timer,
            enemy_timer,
            stars: if star_timer.just_finished {
                self.stars.push(Some(Star { position: star_position(input.viewport, draws.star) }))
            } else {
                self.stars
            },
            enemies: if enemy_timer.just_finished {
                self.enemies.push(spawned_enemy(input.viewport, draws.enemy))
            } else {
                self.enemies
            },
            ..self
        }
    }

    /// Whether an enemy touches the player.
    pub open spec fn player_is_hit(self) -> bool {
        match self.player {
            Some(player) => any_enemy_hits(
                self.enemies,
                player.position,
                self.enemies.len() as int,
            ),
            None => false,
        }
    }

    /// Contact with enemies: a player that is touched is destroyed and the
    /// end of the run is reported once, with the score as it stands.
    pub open spec fn struck(self) -> World {
        if self.player_is_hit() {
            World {
                player: None,
                events: self.events.push(
                    Event::GameOver(GameOver { final_score: self.score as u64 }),
                ),
                game_over_pending: true,
                ..self
            }
        } else {
            self
        }
    }

    /// Contact with stars: a surviving player collects every star it touches,
    /// one point and one report each.
    pub open spec fn gathered(self) -> World {
        match self.player {
            Some(player) => World {
                stars: after_collection(self.stars, player.position),
                score: self.score + collected_count(
                    self.stars,
                    player.position,
                    self.stars.len() as int,
                ),
                events: self.events + collected_events(
                    self.stars,
                    player.position,
                    self.stars.len() as int,
                ),
                ..self
            },
            None => self,
        }
    }

    /// One frame of a running game, system after system.
    pub open spec fn simulated(self, input: FrameInput, draws: Draws) -> World {
        self.moved(input).bounded(input.viewport).scheduled(input, draws).struck().gathered()
    }

    /// One frame. A request to exit leaves everything as it is. Otherwise
    /// the reports of the previous frame are dropped, the state machines take
    /// their step, and a running game advances.
    pub open spec fn frame(self, input: FrameInput, draws: Draws) -> World {
        if input.exit {
            self
        } else {
            let next = World { events: Seq::empty(), ..self }.transitioned(input, draws);
            if next.runs() {
                next.simulated(input, draws)
            } else {
                next
            }
        }
    }
}

/// A frame keeps the world well formed, whatever the input and the draws:
/// after it every enemy still travels in a unit direction, and the score
/// still counts no star that has not left its slot.
pub proof fn lemma_frame_keeps_wf(w: World, input: FrameInput, draws: Draws)
    requires
        w.wf(),
    ensures
        w.frame(input, draws).wf(),
{
    if !input.exit {
        let cleared = World { events: Seq::empty(), ..w };
        let next = cleared.transitioned(input, draws);
        if cleared.enters_game(input) {
            assert forall|i: int| 0 <= i < next.enemies.len() implies (#[trigger] next.enemies[i])
                .direction.wf() by {
                lemma_spawned_enemy_is_wf(input.viewport, draws.startup_enemies[i]);
            }
        }
        assert(next.wf());
        if next.runs() {
            lemma_simulated_keeps_wf(next, input, draws);
        }
    }
}

/// A frame of a running game keeps the world well formed.
pub proof fn lemma_simulated_keeps_wf(w: World, input: FrameInput, draws: Draws)
    requires
        w.wf(),
    ensures
        w.simulated(input, draws).wf(),
{
    let w1 = w.moved(input);
    assert(w1.wf());
    let w2 = w1.bounded(input.viewport);
    assert forall|i: int| 0 <= i < w2.enemies.len() implies (#[trigger] w2.enemies[i])
        .direction.wf() by {
        lemma_bounce_keeps_unit_length(w1.enemies[i], input.viewport);
    }
    assert(w2.wf());
    let w3 = w2.scheduled(input, draws);
    lemma_spawned_enemy_is_wf(input.viewport, draws.enemy);
    lemma_new_star_keeps_empty_slots(
        w2.stars,
        Star { position: star_position(input.viewport, draws.star) },
    );
    assert(w3.wf());
    let w4 = w3.struck();
    assert(w4.wf());
    if let Some(player) = w4.player {
        lemma_collection_empties_slots(w4.stars, player.position, w4.stars.len() as int);
    }
}

/// In a frame of a running game exactly one star slot is added if the star
/// timer completes a period in it and none otherwise, and likewise one enemy
/// with the enemy timer; nothing else changes their number.
pub proof fn lemma_one_arrival_per_completion(w: World, input: FrameInput, draws: Draws)
    ensures
        w.simulated(input, draws).stars.len() == w.stars.len() + if w.star_timer.ticked(
            input.delta_ns as nat,
        ).just_finished {
            1nat
        } else {
            0nat
        },
        w.simulated(input, draws).enemies.len() == w.enemies.len() + if w.enemy_timer.ticked(
            input.delta_ns as nat,
        ).just_finished {
            1nat
        } else {
            0nat
        },
{
}

/// A frame on which the game does not run leaves the field, the score and
/// the timers as the transitions left them: nothing moves, spawns or
/// collides off the game screen or while paused.
pub proof fn lemma_only_a_running_game_advances(w: World, input: FrameInput, draws: Draws)
    requires
        !input.exit,
        !(World { events: Seq::empty(), ..w }).transitioned(input, draws).runs(),
    ensures
        w.frame(input, draws) == (World { events: Seq::empty(), ..w }).transitioned(input, draws),
        !w.enters_game(input) ==> {
            &&& w.frame(input, draws).player == w.player
            &&& w.frame(input, draws).enemies == w.enemies
            &&& w.frame(input, draws).stars == w.stars
            &&& w.frame(input, draws).score == w.score
            &&& w.frame(input, draws).star_timer == w.star_timer
            &&& w.frame(input, draws).enemy_timer == w.enemy_timer
            &&& w.frame(input, draws).events == Seq::<Event>::empty()
        },
{
}

/// After a frame of a running game on a viewport that has room for the
/// player, a player that is still there is wholly inside the viewport.
pub proof fn lemma_running_frame_confines_player(w: World, input: FrameInput, draws: Draws)
    requires
        2 * half_extent(PLAYER_SPRITE_SIZE) <= input.viewport.width,
        2 * half_extent(PLAYER_SPRITE_SIZE) <= input.viewport.height,
    ensures
        w.simulated(input, draws).player matches Some(player) ==> {
            &&& half_extent(PLAYER_SPRITE_SIZE) <= player.position.x <= input.viewport.width
                - half_extent(PLAYER_SPRITE_SIZE)
            &&& half_extent(PLAYER_SPRITE_SIZE) <= player.position.y <= input.viewport.height
                - half_extent(PLAYER_SPRITE_SIZE)
        },
{
    let moved = w.moved(input);
    if let Some(player) = moved.player {
        lemma_confined_stays_inside(player.position, input.viewport, PLAYER_SPRITE_SIZE);
    }
}

/// However many enemies touch the player at once, the end of the run is
/// reported exactly once, with the score of that moment, and the player is gone.
pub proof fn lemma_one_game_over_per_death(w: World)
    requires
        w.player_is_hit(),
    ensures
        w.struck().player is None,
        w.struck().events == w.events.push(
            Event::GameOver(GameOver { final_score: w.score as u64 }),
        ),
        w.struck().struck() == w.struck(),
{
}

/// The game: both state machines, the field, the score, the spawn timers
/// and the reports of the current frame.
#[derive(Debug)]
pub struct Simulation {
    app_state: AppState,
    simulation_state: SimulationState,
    store: EntityStore,
    score: Score,
    star_spawn_timer: StarSpawnTimer,
    enemy_spawn_timer: EnemySpawnTimer,
    events: Vec<Event>,
    game_over_pending: bool,
}

impl View for Simulation {
    type V = World;

    closed spec fn view(&self) -> World {
        World {
            app_state: self.app_state,
            simulation_state: self.simulation_state,
            player: self.store.player,
            enemies: self.store.enemies@,
            stars: self.store.stars@,
            score: self.score.value as nat,
            star_timer: self.star_spawn_timer.timer@,
            enemy_timer: self.enemy_spawn_timer.timer@,
            events: self.events@,
            game_over_pending: self.game_over_pending,
        }
    }
}

impl Simulation {
    /// Whether the game is in a state that frames can advance.
    pub open spec fn wf(&self) -> bool {
        self@.wf()
    }

    /// A game on the menu, with an empty field.
    pub fn new() -> (sim: Simulation)
        ensures
            sim@ == World::initial(),
            sim.wf(),
    {
        let sim = Simulation {
            app_state: AppState::MainMenu,
            simulation_state: SimulationState::Paused,
            store: EntityStore::new(),
            score: Score { value: 0 },
            star_spawn_timer: StarSpawnTimer::default(),
            enemy_spawn_timer: EnemySpawnTimer::default(),
            events: Vec::new(),
            game_over_pending: false,
        };
        proof {
            assert(sim@.enemies =~= Seq::empty());
            assert(sim@.stars =~= Seq::empty());
            assert(sim@.events =~= Seq::empty());
        }
        sim
    }

    pub fn app_state(&self) -> (state: AppState)
        ensures
            state == self@.app_state,
    {
        self.app_state
    }

    pub fn simulation_state(&self) -> (state: SimulationState)
        ensures
            state == self@.simulation_state,
    {
        self.simulation_state
    }

    pub fn score(&self) -> (score: u64)
        ensures
            score == self@.score,
    {
        self.score.value
    }

    /// The player, unless it was destroyed or no game has started.
    pub fn player(&self) -> (player: Option<Player>)
        ensures
            player == self@.player,
    {
        self.store.player
    }

    /// The enemies; an enemy's index is its identity.
    pub fn enemies(&self) -> (enemies: &Vec<Enemy>)
        ensures
            enemies@ == self@.enemies,
    {
        &self.store.enemies
    }

    /// The star slots; a star's index is its identity, and the slot of a
    /// collected star is empty.
    pub fn stars(&self) -> (stars: &Vec<Option<Star>>)
        ensures
            stars@ == self@.stars,
    {
        &self.store.stars
    }

    /// The reports of the current frame, oldest first.
    pub fn events(&self) -> (events: &Vec<Event>)
        ensures
            events@ == self@.events,
    {
        &self.events
    }

    /// Hands over the reports of the current frame and forgets them.
    pub fn drain_events(&mut self) -> (events: Vec<Event>)
        ensures
            events@ == old(self)@.events,
            final(self)@ == (World { events: Seq::empty(), ..old(self)@ }),
            old(self).wf() ==> final(self).wf(),
    {
        let mut events: Vec<Event> = Vec::new();
        std::mem::swap(&mut events, &mut self.events);
        events
    }

    /// Sets up a new game.
    fn start_game(&mut self, viewport: Viewport, draws: &FrameDraws)
        ensures
            final(self)@ == old(self)@.started(viewport, draws@),
            final(self).wf(),
    {
        let mut store = EntityStore::new();
        spawn_player(&mut store, viewport);
        spawn_stars_at(&mut store, viewport, &draws.startup_stars);
        spawn_enemies_at(&mut store, viewport, &draws.startup_enemies);
        self.store = store;
        self.app_state = AppState::Game;
        self.simulation_state = SimulationState::Paused;
        self.score.reset();
        self.star_spawn_timer = StarSpawnTimer::default();
        self.enemy_spawn_timer = EnemySpawnTimer::default();
        self.game_over_pending = false;
        proof {
            assert(self.store.stars@ =~= stars_from(viewport, draws@.startup_stars));
            assert(self.store.enemies@ =~= enemies_from(viewport, draws@.startup_enemies));
        }
    }

    /// Lets both state machines take their step.
    fn apply_transitions(&mut self, input: &FrameInput, draws: &FrameDraws)
        requires
            old(self).wf(),
        ensures
            final(self)@ == old(self)@.transitioned(*input, draws@),
            final(self).wf(),
    {
        if self.app_state == AppState::MainMenu && input.start {
            self.start_game(input.viewport, draws);
        } else {
            let requests = Requests {
                start: input.start,
                restart: input.restart,
                game_over: self.game_over_pending,
            };
            let simulation_state = toggle_simulation(
                self.app_state,
                input.toggle,
                self.simulation_state,
            );
            self.app_state = self.app_state.next(requests);
            self.simulation_state = simulation_state;
            self.game_over_pending = false;
        }
    }

    /// Advances a running game by one frame.
    fn simulate(&mut self, input: &FrameInput, draws: &FrameDraws)
        requires
            old(self).wf(),
        ensures
            final(self)@ == old(self)@.simulated(*input, draws@),
            final(self).wf(),
    {
        proof {
            lemma_simulated_keeps_wf(self@, *input, draws@);
        }
        let ghost w0 = self@;
        player_movement(&mut self.store, input.keys, input.delta_ns);
        enemy_movement(&mut self.store, input.delta_ns);
        let ghost w1 = self@;
        assert(w1.enemies =~= w0.moved(*input).enemies);

        confine_player_movement(&mut self.store, input.viewport);
        update_enemy_direction(&mut self.store, input.viewport, &mut self.events);
        let ghost w2 = self@;
        assert(w2.enemies =~= w1.bounded(input.viewport).enemies);

        tick_star_spawn_timer(&mut self.star_spawn_timer, input.delta_ns);
        tick_enemy_spawn_timer(&mut self.enemy_spawn_timer, input.delta_ns);
        if self.star_spawn_timer.timer.just_finished() {
            spawn_star_at(&mut self.store, input.viewport, draws.star);
        }
        if self.enemy_spawn_timer.timer.just_finished() {
            spawn_enemy_at(&mut self.store, input.viewport, draws.enemy);
        }
        let ghost w3 = self@;
        assert(w3 == w2.scheduled(*input, draws@));

        let had_player = self.store.player.is_some();
        enemy_hit_player(&mut self.store, &self.score, &mut self.events);
        if had_player && self.store.player.is_none() {
            self.game_over_pending = true;
        }
        let ghost w4 = self@;
        assert(w4 == w3.struck());

        proof {
            lemma_new_star_keeps_empty_slots(
                w2.stars,
                Star { position: star_position(input.viewport, draws.star) },
            );
            assert(w4.stars.len() == self.store.stars.len());
            if let Some(player) = w4.player {
                lemma_collection_empties_slots(w4.stars, player.position, w4.stars.len() as int);
            }
        }
        player_hit_star(&mut self.store, &mut self.score, &mut self.events);
    }

    /// Advances the game by one frame, placing whatever appears by `draws`.
    pub fn frame_with(&mut self, input: &FrameInput, draws: &FrameDraws) -> (outcome: FrameOutcome)
        requires
            old(self).wf(),
        ensures
            final(self)@ == old(self)@.frame(*input, draws@),
            final(self).wf(),
            outcome == if input.exit {
                FrameOutcome::Exit
            } else {
                FrameOutcome::Continue
            },
    {
        if input.exit {
            return FrameOutcome::Exit;
        }
        self.events.clear();
        self.apply_transitions(input, draws);
        if self.app_state == AppState::Game && self.simulation_state == SimulationState::Running {
            self.simulate(input, draws);
        }
        FrameOutcome::Continue
    }

    /// Advances the game by one frame, placing whatever appears at random.
    /// A game that starts this frame gets `STAR_NUMBERS` stars and
    /// `ENEMY_NUMBERS` enemies.
    pub fn frame(&mut self, input: &FrameInput) -> (outcome: FrameOutcome)
        requires
            old(self).wf(),
        ensures
            exists|draws: Draws|
                {
                    &&& final(self)@ == old(self)@.frame(*input, draws)
                    &&& old(self)@.enters_game(*input) ==> draws.startup_stars.len() == STAR_NUMBERS
                        && draws.startup_enemies.len() == ENEMY_NUMBERS
                },
            final(self).wf(),
            outcome == if input.exit {
                FrameOutcome::Exit
            } else {
                FrameOutcome::Continue
            },
    {
        let entering = self.app_state == AppState::MainMenu && input.start;
        let draws = FrameDraws {
            star: draw_star(),
            enemy: draw_enemy(),
            startup_stars: if entering {
                draw_stars(STAR_NUMBERS)
            } else {
                Vec::new()
            },
            startup_enemies: if entering {
                draw_enemies(ENEMY_NUMBERS)
            } else {
                Vec::new()
            },
        };
        let outcome = self.frame_with(input, &draws);
        assert(self@ == old(self)@.frame(*input, draws@));
        outcome
    }
}

} // verus!
