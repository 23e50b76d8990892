use ball_game::game::boundary::{
    bounce, clamp_axis, confine, confine_player_movement, update_enemy_direction,
};
use ball_game::game::collision::{
    enemy_hit_player, overlaps, player_hit_star, ENEMY_REACH, STAR_REACH,
};
use ball_game::game::direction::{isqrt, Axis, Direction, ONE};
use ball_game::game::entity::{
    Enemy, EntityStore, Player, Position, Star, Viewport, ENEMY_NUMBERS, ENEMY_SPEED,
    ENEMY_SPRITE_SIZE, PLAYER_SPEED, PLAYER_SPRITE_SIZE, STAR_NUMBERS, STAR_SPRITE_SIZE,
    UNITS_PER_PIXEL,
};
use ball_game::game::movement::{
    advance, enemy_movement, intent, player_movement, step, MoveKeys,
};
use ball_game::game::score::{handle_game_over, update_score, Event, GameOver, Score};
use ball_game::game::spawn::{
    center, enemy_spawn_over_time, get_savety_spawn_coordinates,
    scale_to_extent, spawn_direction, spawn_enemies, spawn_enemies_at, spawn_enemy_at,
    spawn_player, spawn_star, spawn_star_at, spawn_stars, spawn_stars_at, EnemyDraw, StarDraw,
};
use ball_game::game::timer::{
    tick_enemy_spawn_timer, tick_star_spawn_timer, EnemySpawnTimer, StarSpawnTimer, Timer,
    ENEMY_SPAWN_TIME, NANOS_PER_SECOND, STAR_SPAWN_TIME,
};

const SECOND: u64 = 1_000_000_000;

fn viewport() -> Viewport {
    Viewport {
        width: 800_000,
        height: 600_000,
    }
}

fn at(x: i64, y: i64) -> Position {
    Position { x, y }
}

fn dir(x: i32, y: i32) -> Direction {
    Direction::new(x, y).unwrap()
}

fn keys(left: bool, right: bool, up: bool, down: bool) -> MoveKeys {
    MoveKeys {
        left,
        right,
        up,
        down,
    }
}

fn store_with_player(x: i64, y: i64) -> EntityStore {
    let mut store = EntityStore::new();
    store.player = Some(Player { position: at(x, y) });
    store
}

#[test]
fn constants_describe_the_game_in_units() {
    assert_eq!(UNITS_PER_PIXEL, 1000);
    assert_eq!(PLAYER_SPEED, 500 * UNITS_PER_PIXEL);
    assert_eq!(PLAYER_SPRITE_SIZE, 64 * UNITS_PER_PIXEL);
    assert_eq!(STAR_SPRITE_SIZE, 30 * UNITS_PER_PIXEL);
    assert_eq!(ENEMY_SPEED, 200 * UNITS_PER_PIXEL);
    assert_eq!(ENEMY_SPRITE_SIZE, 64 * UNITS_PER_PIXEL);
    assert_eq!(STAR_NUMBERS, 10);
    assert_eq!(ENEMY_NUMBERS, 3);
    assert_eq!(ENEMY_REACH, 64_000);
    assert_eq!(STAR_REACH, 47_000);
    assert_eq!(STAR_SPAWN_TIME, NANOS_PER_SECOND);
    assert_eq!(ENEMY_SPAWN_TIME, 10 * NANOS_PER_SECOND);
}

#[test]
fn isqrt_rounds_down() {
    assert_eq!(isqrt(0), 0);
    assert_eq!(isqrt(1), 1);
    assert_eq!(isqrt(3), 1);
    assert_eq!(isqrt(4), 2);
    assert_eq!(isqrt(24), 4);
    assert_eq!(isqrt(25), 5);
    assert_eq!(isqrt(1_000_000_000_000), 1_000_000);
    assert_eq!(isqrt(999_999_999_999), 999_999);
    assert_eq!(isqrt(u128::MAX), u64::MAX);
    assert_eq!(isqrt((u64::MAX as u128) * (u64::MAX as u128)), u64::MAX);
    assert_eq!(isqrt((u64::MAX as u128) * (u64::MAX as u128) - 1), u64::MAX - 1);
}

#[test]
fn directions_along_the_axes_are_exact() {
    let east = Direction::from_vector(1, 0).unwrap();
    assert_eq!((east.x(), east.y()), (ONE, 0));
    let south = Direction::from_vector(0, -1).unwrap();
    assert_eq!((south.x(), south.y()), (0, -ONE));
    let far = Direction::from_vector(i32::MAX, 0).unwrap();
    assert_eq!((far.x(), far.y()), (ONE, 0));
    assert_eq!(Direction::unit_x(), east);
}

#[test]
fn directions_are_normalised_towards_zero() {
    let d = Direction::from_vector(1, 1).unwrap();
    assert_eq!((d.x(), d.y()), (707_106, 707_106));
    let d = Direction::from_vector(-1, 1).unwrap();
    assert_eq!((d.x(), d.y()), (-707_106, 707_106));
    let d = Direction::from_vector(3, 4).unwrap();
    assert_eq!((d.x(), d.y()), (600_000, 800_000));
    let d = Direction::from_vector(-3, -4).unwrap();
    assert_eq!((d.x(), d.y()), (-600_000, -800_000));
    let d = Direction::from_vector(1, 2).unwrap();
    assert_eq!((d.x(), d.y()), (447_213, 894_427));
    let d = Direction::from_vector(5, 12).unwrap();
    assert_eq!((d.x(), d.y()), (384_615, 923_076));
    let d = Direction::from_vector(i32::MIN, i32::MIN).unwrap();
    assert_eq!((d.x(), d.y()), (-707_106, -707_106));
    let d = Direction::from_vector(1_000_000, 1).unwrap();
    assert_eq!((d.x(), d.y()), (999_999, 0));
}

#[test]
fn the_zero_vector_has_no_direction() {
    assert_eq!(Direction::from_vector(0, 0), None);
}

#[test]
fn every_normalised_vector_has_unit_length() {
    let samples: [i32; 9] = [i32::MIN, -1_000_003, -7, -1, 0, 1, 12, 999_983, i32::MAX];
    for a in samples {
        for b in samples {
            if a == 0 && b == 0 {
                continue;
            }
            let d = Direction::from_vector(a, b).unwrap();
            let squared = (d.x() as i128) * (d.x() as i128) + (d.y() as i128) * (d.y() as i128);
            let unit = (ONE as i128) * (ONE as i128);
            assert!((squared - unit).abs() <= 4_000_001, "{a} {b}");
            assert_eq!(Direction::new(d.x(), d.y()), Some(d));
        }
    }
}

#[test]
fn only_unit_vectors_are_accepted_as_directions() {
    assert!(Direction::new(ONE, 0).is_some());
    assert!(Direction::new(600_000, -800_000).is_some());
    assert!(Direction::new(707_106, 707_106).is_some());
    assert!(Direction::new(1_000_001, 0).is_some());
    assert!(Direction::new(1_000_002, 0).is_none());
    assert!(Direction::new(0, -999_998).is_some());
    assert!(Direction::new(0, -999_997).is_none());
    assert!(Direction::new(0, 0).is_none());
    assert!(Direction::new(ONE, ONE).is_none());
    assert!(Direction::new(i32::MIN, i32::MIN).is_none());
    assert!(Direction::new(i32::MAX, i32::MAX).is_none());
}

#[test]
fn reflection_flips_one_component() {
    let d = dir(600_000, -800_000);
    let rx = d.reflect(Axis::X);
    assert_eq!((rx.x(), rx.y()), (-600_000, -800_000));
    let ry = d.reflect(Axis::Y);
    assert_eq!((ry.x(), ry.y()), (600_000, 800_000));
    assert_eq!(d.reflect(Axis::X).reflect(Axis::X), d);
}

#[test]
fn keys_give_the_intent() {
    assert_eq!(intent(keys(false, false, false, false)), (0, 0));
    assert_eq!(intent(keys(true, false, false, false)), (-1, 0));
    assert_eq!(intent(keys(false, true, false, false)), (1, 0));
    assert_eq!(intent(keys(false, false, true, false)), (0, 1));
    assert_eq!(intent(keys(false, false, false, true)), (0, -1));
    assert_eq!(intent(keys(true, true, false, false)), (0, 0));
    assert_eq!(intent(keys(true, false, true, true)), (-1, 0));
    assert_eq!(intent(keys(false, true, false, true)), (1, -1));
}

#[test]
fn advance_follows_the_formula() {
    assert_eq!(advance(0, ONE, 200_000, 16_666_667), 3_333);
    assert_eq!(advance(0, -707_106, 500_000, 16_666_667), -5_892);
    assert_eq!(advance(10, 707_106, 500_000, SECOND), 353_563);
    assert_eq!(advance(0, 600_000, 200_000, SECOND), 120_000);
    assert_eq!(advance(0, -800_000, 200_000, SECOND), -160_000);
    assert_eq!(advance(5, ONE, 200_000, 0), 5);
    assert_eq!(advance(5, 0, 200_000, SECOND), 5);
    assert_eq!(advance(5, ONE, 0, SECOND), 5);
}

#[test]
fn advance_stops_at_the_ends_of_the_range() {
    assert_eq!(advance(i64::MAX - 1, ONE, 200_000, SECOND), i64::MAX);
    assert_eq!(advance(i64::MIN + 1, -ONE, 200_000, SECOND), i64::MIN);
    assert_eq!(advance(0, i32::MAX, u32::MAX, u64::MAX), i64::MAX);
    assert_eq!(advance(0, i32::MIN, u32::MAX, u64::MAX), i64::MIN);
}

#[test]
fn step_moves_both_coordinates() {
    let p = step(at(100, 200), dir(600_000, -800_000), ENEMY_SPEED, SECOND);
    assert_eq!(p, at(120_100, -159_800));
}

#[test]
fn player_moves_left_and_is_clamped() {
    let mut store = store_with_player(400_000, 300_000);
    player_movement(&mut store, keys(true, false, false, false), SECOND);
    assert_eq!(store.player, Some(Player { position: at(-100_000, 300_000) }));
    confine_player_movement(&mut store, viewport());
    assert_eq!(store.player, Some(Player { position: at(32_000, 300_000) }));
}

#[test]
fn player_moves_diagonally_at_unit_speed() {
    let mut store = store_with_player(400_000, 300_000);
    player_movement(&mut store, keys(false, true, true, false), SECOND / 10);
    assert_eq!(store.player, Some(Player { position: at(435_355, 335_355) }));
}

#[test]
fn player_without_intent_stays() {
    let mut store = store_with_player(400_000, 300_000);
    player_movement(&mut store, keys(false, false, false, false), SECOND);
    assert_eq!(store.player, Some(Player { position: at(400_000, 300_000) }));
    player_movement(&mut store, keys(true, true, true, true), SECOND);
    assert_eq!(store.player, Some(Player { position: at(400_000, 300_000) }));
}

#[test]
fn systems_do_nothing_without_a_player() {
    let mut store = EntityStore::new();
    let mut score = Score { value: 3 };
    let mut events = Vec::new();
    store.stars.push(Some(Star { position: at(0, 0) }));
    store.enemies.push(Enemy { position: at(0, 0), direction: dir(ONE, 0) });
    player_movement(&mut store, keys(true, false, false, false), SECOND);
    confine_player_movement(&mut store, viewport());
    enemy_hit_player(&mut store, &score, &mut events);
    player_hit_star(&mut store, &mut score, &mut events);
    assert_eq!(store.player, None);
    assert_eq!(store.stars, vec![Some(Star { position: at(0, 0) })]);
    assert_eq!(score.value, 3);
    assert!(events.is_empty());
}

#[test]
fn clamp_is_one_dimensional() {
    assert_eq!(clamp_axis(5, 10, 20), 10);
    assert_eq!(clamp_axis(25, 10, 20), 20);
    assert_eq!(clamp_axis(15, 10, 20), 15);
    assert_eq!(clamp_axis(10, 10, 20), 10);
    assert_eq!(clamp_axis(20, 10, 20), 20);
    assert_eq!(clamp_axis(15, 20, 10), 20);
    assert_eq!(clamp_axis(25, 20, 10), 10);
}

#[test]
fn confinement_keeps_half_a_sprite_from_every_edge() {
    let v = viewport();
    for x in [i64::MIN, -1, 0, 31_999, 32_000, 400_000, 768_000, 768_001, i64::MAX] {
        for y in [i64::MIN, -1, 0, 31_999, 32_000, 300_000, 568_000, 568_001, i64::MAX] {
            let p = confine(at(x, y), v, PLAYER_SPRITE_SIZE);
            assert!(32_000 <= p.x && p.x <= 768_000);
            assert!(32_000 <= p.y && p.y <= 568_000);
            if (32_000..=768_000).contains(&x) {
                assert_eq!(p.x, x);
            }
            if (32_000..=568_000).contains(&y) {
                assert_eq!(p.y, y);
            }
        }
    }
    assert_eq!(confine(at(-5, 900_000), v, PLAYER_SPRITE_SIZE), at(32_000, 568_000));
}

#[test]
fn enemy_crossing_the_left_edge_bounces_back() {
    let mut store = EntityStore::new();
    store.enemies.push(Enemy { position: at(10_000, 300_000), direction: dir(-ONE, 0) });
    let mut events = Vec::new();
    enemy_movement(&mut store, 1);
    update_enemy_direction(&mut store, viewport(), &mut events);
    assert_eq!(
        store.enemies,
        vec![Enemy { position: at(32_000, 300_000), direction: dir(ONE, 0) }]
    );
    assert_eq!(events, vec![Event::Bounce { enemy: 0 }]);
}

#[test]
fn bounce_mirrors_each_axis_that_was_crossed() {
    let v = viewport();
    let d = dir(-600_000, 800_000);
    let inside = Enemy { position: at(400_000, 300_000), direction: d };
    assert_eq!(bounce(inside, v), (inside, false));
    let on_edge = Enemy { position: at(32_000, 568_000), direction: d };
    assert_eq!(bounce(on_edge, v), (on_edge, false));
    let left = Enemy { position: at(31_999, 300_000), direction: d };
    assert_eq!(
        bounce(left, v),
        (Enemy { position: at(32_000, 300_000), direction: dir(600_000, 800_000) }, true)
    );
    let right = Enemy { position: at(768_001, 300_000), direction: dir(600_000, 800_000) };
    assert_eq!(
        bounce(right, v),
        (Enemy { position: at(768_000, 300_000), direction: dir(-600_000, 800_000) }, true)
    );
    let top = Enemy { position: at(400_000, 600_000), direction: d };
    assert_eq!(
        bounce(top, v),
        (Enemy { position: at(400_000, 568_000), direction: dir(-600_000, -800_000) }, true)
    );
    let bottom = Enemy { position: at(400_000, 0), direction: dir(-600_000, -800_000) };
    assert_eq!(
        bounce(bottom, v),
        (Enemy { position: at(400_000, 32_000), direction: dir(-600_000, 800_000) }, true)
    );
    let corner = Enemy { position: at(-1, 700_000), direction: d };
    assert_eq!(
        bounce(corner, v),
        (Enemy { position: at(32_000, 568_000), direction: dir(600_000, -800_000) }, true)
    );
}

#[test]
fn bounces_are_reported_in_index_order() {
    let v = viewport();
    let mut store = EntityStore::new();
    store.enemies.push(Enemy { position: at(0, 300_000), direction: dir(-ONE, 0) });
    store.enemies.push(Enemy { position: at(400_000, 300_000), direction: dir(0, ONE) });
    store.enemies.push(Enemy { position: at(400_000, 900_000), direction: dir(0, ONE) });
    let mut events = vec![Event::Collected { star: 9 }];
    update_enemy_direction(&mut store, v, &mut events);
    assert_eq!(
        events,
        vec![
            Event::Collected { star: 9 },
            Event::Bounce { enemy: 0 },
            Event::Bounce { enemy: 2 }
        ]
    );
    assert_eq!(store.enemies[1], Enemy { position: at(400_000, 300_000), direction: dir(0, ONE) });
    assert_eq!(store.enemies[2], Enemy { position: at(400_000, 568_000), direction: dir(0, -ONE) });
    for e in &store.enemies {
        assert!(Direction::new(e.direction.x(), e.direction.y()).is_some());
    }
}

#[test]
fn enemies_drift_along_their_direction() {
    let mut store = store_with_player(1, 2);
    store.enemies.push(Enemy { position: at(100_000, 100_000), direction: dir(600_000, -800_000) });
    store.enemies.push(Enemy { position: at(0, 0), direction: dir(0, ONE) });
    store.stars.push(None);
    enemy_movement(&mut store, SECOND / 2);
    assert_eq!(
        store.enemies,
        vec![
            Enemy { position: at(160_000, 20_000), direction: dir(600_000, -800_000) },
            Enemy { position: at(0, 100_000), direction: dir(0, ONE) },
        ]
    );
    assert_eq!(store.player, Some(Player { position: at(1, 2) }));
    assert_eq!(store.stars, vec![None]);
}

#[test]
fn contact_needs_less_than_the_sum_of_the_radii() {
    assert!(!overlaps(at(0, 0), at(64_000, 0), ENEMY_REACH));
    assert!(overlaps(at(0, 0), at(63_999, 0), ENEMY_REACH));
    assert!(!overlaps(at(0, 0), at(0, -64_000), ENEMY_REACH));
    assert!(overlaps(at(0, 0), at(0, -63_999), ENEMY_REACH));
    // 38400^2 + 51200^2 == 64000^2
    assert!(!overlaps(at(100, 100), at(38_500, 51_300), ENEMY_REACH));
    assert!(overlaps(at(100, 100), at(38_499, 51_300), ENEMY_REACH));
    assert!(overlaps(at(5, 5), at(5, 5), 1));
    assert!(!overlaps(at(5, 5), at(5, 5), 0));
    assert!(!overlaps(at(i64::MIN, i64::MIN), at(i64::MAX, i64::MAX), u32::MAX));
    assert!(overlaps(at(i64::MAX, 0), at(i64::MAX - 1, 0), 2));
}

#[test]
fn three_enemies_on_the_player_end_the_run_once() {
    let mut store = store_with_player(400_000, 300_000);
    for dx in [0, 10_000, -20_000] {
        store.enemies.push(Enemy { position: at(400_000 + dx, 300_000), direction: dir(ONE, 0) });
    }
    let score = Score { value: 7 };
    let mut events = Vec::new();
    enemy_hit_player(&mut store, &score, &mut events);
    assert_eq!(store.player, None);
    assert_eq!(events, vec![Event::GameOver(GameOver { final_score: 7 })]);
    assert_eq!(store.enemies.len(), 3);
    enemy_hit_player(&mut store, &score, &mut events);
    assert_eq!(events.len(), 1);
}

#[test]
fn an_enemy_out_of_reach_leaves_the_player_alone() {
    let mut store = store_with_player(400_000, 300_000);
    store.enemies.push(Enemy { position: at(464_000, 300_000), direction: dir(ONE, 0) });
    let mut events = Vec::new();
    enemy_hit_player(&mut store, &Score { value: 0 }, &mut events);
    assert_eq!(store.player, Some(Player { position: at(400_000, 300_000) }));
    assert!(events.is_empty());
}

#[test]
fn the_last_enemy_can_be_the_one_that_hits() {
    let mut store = store_with_player(400_000, 300_000);
    store.enemies.push(Enemy { position: at(0, 0), direction: dir(ONE, 0) });
    store.enemies.push(Enemy { position: at(463_999, 300_000), direction: dir(ONE, 0) });
    let mut events = Vec::new();
    enemy_hit_player(&mut store, &Score { value: 2 }, &mut events);
    assert_eq!(store.player, None);
    assert_eq!(events, vec![Event::GameOver(GameOver { final_score: 2 })]);
}

#[test]
fn collecting_a_star_scores_one_and_removes_that_star() {
    let mut store = store_with_player(400_000, 300_000);
    store.stars.push(Some(Star { position: at(100_000, 100_000) }));
    store.stars.push(Some(Star { position: at(446_999, 300_000) }));
    store.stars.push(Some(Star { position: at(447_000, 300_000) }));
    let mut score = Score { value: 4 };
    let mut events = Vec::new();
    player_hit_star(&mut store, &mut score, &mut events);
    assert_eq!(score.value, 5);
    assert_eq!(
        store.stars,
        vec![
            Some(Star { position: at(100_000, 100_000) }),
            None,
            Some(Star { position: at(447_000, 300_000) }),
        ]
    );
    assert_eq!(events, vec![Event::Collected { star: 1 }]);
}

#[test]
fn touching_no_star_leaves_the_score() {
    let mut store = store_with_player(400_000, 300_000);
    store.stars.push(Some(Star { position: at(100_000, 100_000) }));
    store.stars.push(None);
    let mut score = Score { value: 4 };
    let mut events = Vec::new();
    player_hit_star(&mut store, &mut score, &mut events);
    assert_eq!(score.value, 4);
    assert_eq!(store.stars, vec![Some(Star { position: at(100_000, 100_000) }), None]);
    assert!(events.is_empty());
}

#[test]
fn several_stars_can_be_collected_in_one_frame() {
    let mut store = store_with_player(400_000, 300_000);
    store.stars.push(Some(Star { position: at(400_000, 300_000) }));
    store.stars.push(Some(Star { position: at(900_000, 300_000) }));
    store.stars.push(Some(Star { position: at(410_000, 310_000) }));
    store.stars.push(Some(Star { position: at(400_000, 253_001) }));
    let mut score = Score::default();
    let mut events = Vec::new();
    player_hit_star(&mut store, &mut score, &mut events);
    assert_eq!(score.value, 3);
    assert_eq!(
        events,
        vec![
            Event::Collected { star: 0 },
            Event::Collected { star: 2 },
            Event::Collected { star: 3 }
        ]
    );
    assert_eq!(
        store.stars,
        vec![None, Some(Star { position: at(900_000, 300_000) }), None, None]
    );
}

#[test]
fn score_counts_and_resets() {
    let mut score = Score::default();
    assert_eq!(score.value, 0);
    score.increment();
    score.increment();
    assert_eq!(score.value, 2);
    score.reset();
    assert_eq!(score.value, 0);
}

#[test]
fn repeating_timer_fires_once_per_period() {
    let mut timer = Timer::new(SECOND, true);
    assert!(!timer.just_finished());
    let mut fired = 0;
    let mut fired_after_one_period = 0;
    for frame in 0..8 {
        timer.tick(SECOND / 4);
        if timer.just_finished() {
            fired += 1;
        }
        if frame == 3 {
            fired_after_one_period = fired;
            assert_eq!(timer.elapsed_ns(), 0);
        }
    }
    assert_eq!(fired_after_one_period, 1);
    assert_eq!(fired, 2);
    assert_eq!(timer.elapsed_ns(), 0);
}

#[test]
fn repeating_timer_carries_the_excess() {
    let mut timer = Timer::new(1000, true);
    timer.tick(700);
    assert!(!timer.just_finished());
    assert!(!timer.finished());
    assert_eq!(timer.elapsed_ns(), 700);
    timer.tick(700);
    assert!(timer.just_finished());
    assert!(timer.finished());
    assert_eq!(timer.elapsed_ns(), 400);
    timer.tick(100);
    assert!(!timer.just_finished());
    assert_eq!(timer.elapsed_ns(), 500);
    timer.tick(2_600);
    assert!(timer.just_finished());
    assert_eq!(timer.elapsed_ns(), 100);
    timer.tick(u64::MAX);
    assert!(timer.just_finished());
    assert_eq!(timer.elapsed_ns(), ((100u128 + u64::MAX as u128) % 1000) as u64);
    assert_eq!(timer.duration_ns(), 1000);
    assert!(timer.is_repeating());
}

#[test]
fn one_shot_timer_completes_once() {
    let mut timer = Timer::new(1000, false);
    timer.tick(999);
    assert!(!timer.finished());
    assert_eq!(timer.elapsed_ns(), 999);
    timer.tick(5);
    assert!(timer.finished());
    assert!(timer.just_finished());
    assert_eq!(timer.elapsed_ns(), 1000);
    timer.tick(5);
    assert!(timer.finished());
    assert!(!timer.just_finished());
    assert_eq!(timer.elapsed_ns(), 1000);
    timer.reset();
    assert!(!timer.finished());
    assert!(!timer.just_finished());
    assert_eq!(timer.elapsed_ns(), 0);
    assert!(!timer.is_repeating());
}

#[test]
fn a_timer_without_period_completes_on_every_tick() {
    let mut timer = Timer::new(0, true);
    timer.tick(0);
    assert!(timer.just_finished());
    assert_eq!(timer.elapsed_ns(), 0);
    timer.tick(17);
    assert!(timer.just_finished());
    assert_eq!(timer.elapsed_ns(), 0);
    let mut once = Timer::new(0, false);
    once.tick(0);
    assert!(once.just_finished());
    once.tick(0);
    assert!(!once.just_finished());
}

#[test]
fn spawn_timers_have_their_periods() {
    let mut stars = StarSpawnTimer::default();
    let mut enemies = EnemySpawnTimer::default();
    assert_eq!(stars.timer.duration_ns(), SECOND);
    assert_eq!(enemies.timer.duration_ns(), 10 * SECOND);
    assert!(stars.timer.is_repeating() && enemies.timer.is_repeating());
    tick_star_spawn_timer(&mut stars, SECOND);
    tick_enemy_spawn_timer(&mut enemies, SECOND);
    assert!(stars.timer.just_finished());
    assert!(!enemies.timer.just_finished());
    assert_eq!(enemies.timer.elapsed_ns(), SECOND);
    tick_enemy_spawn_timer(&mut enemies, 9 * SECOND);
    assert!(enemies.timer.just_finished());
    assert_eq!(enemies.timer.elapsed_ns(), 0);
}

#[test]
fn drawn_fractions_scale_to_the_extent() {
    assert_eq!(scale_to_extent(0, 800_000), 0);
    assert_eq!(scale_to_extent(1 << 31, 800_000), 400_000);
    assert_eq!(scale_to_extent(u32::MAX, 800_000), 799_999);
    assert_eq!(scale_to_extent(1 << 30, 600_000), 150_000);
    assert_eq!(scale_to_extent(3 << 30, 600_000), 450_000);
    assert_eq!(scale_to_extent(u32::MAX, 0), 0);
    assert_eq!(scale_to_extent(u32::MAX, u32::MAX), u32::MAX as i64 - 1);
}

#[test]
fn new_enemies_keep_clear_of_the_edges() {
    let v = viewport();
    assert_eq!(
        get_savety_spawn_coordinates(v, ENEMY_SPRITE_SIZE, 0, 0),
        at(128_000, 128_000)
    );
    assert_eq!(
        get_savety_spawn_coordinates(v, ENEMY_SPRITE_SIZE, u32::MAX, u32::MAX),
        at(672_000, 472_000)
    );
    assert_eq!(
        get_savety_spawn_coordinates(v, ENEMY_SPRITE_SIZE, 1 << 31, 1 << 30),
        at(400_000, 150_000)
    );
    assert_eq!(
        get_savety_spawn_coordinates(v, 10_000, 1 << 25, 3 << 30),
        at(20_000, 450_000)
    );
}

#[test]
fn new_enemies_set_off_in_the_drawn_direction() {
    let d = spawn_direction(1 << 31, 0);
    assert_eq!((d.x(), d.y()), (ONE, 0));
    let d = spawn_direction(u32::MAX, u32::MAX);
    assert_eq!((d.x(), d.y()), (707_106, 707_106));
    let d = spawn_direction(1 << 31, 3 << 30);
    assert_eq!((d.x(), d.y()), (554_700, 832_050));
    let d = spawn_direction(0, 0);
    assert_eq!((d.x(), d.y()), (ONE, 0));
    let d = spawn_direction(1, 1);
    assert_eq!((d.x(), d.y()), (ONE, 0));
    let d = spawn_direction(0, 2);
    assert_eq!((d.x(), d.y()), (0, ONE));
}

#[test]
fn the_player_appears_in_the_middle() {
    let mut store = EntityStore::new();
    spawn_player(&mut store, viewport());
    assert_eq!(store.player, Some(Player { position: at(400_000, 300_000) }));
    spawn_player(&mut store, Viewport { width: 7, height: 0 });
    assert_eq!(store.player, Some(Player { position: at(3, 0) }));
}

#[test]
fn stars_and_enemies_appear_where_they_were_drawn() {
    let v = viewport();
    let mut store = EntityStore::new();
    store.stars.push(None);
    spawn_star_at(&mut store, v, StarDraw { x: 1 << 31, y: 1 << 30 });
    spawn_stars_at(
        &mut store,
        v,
        &vec![StarDraw { x: 0, y: u32::MAX }, StarDraw { x: 3 << 30, y: 0 }],
    );
    assert_eq!(
        store.stars,
        vec![
            None,
            Some(Star { position: at(400_000, 150_000) }),
            Some(Star { position: at(0, 599_999) }),
            Some(Star { position: at(600_000, 0) }),
        ]
    );
    spawn_enemy_at(&mut store, v, EnemyDraw { x: 0, y: 1 << 31, dx: 0, dy: 5 });
    spawn_enemies_at(
        &mut store,
        v,
        &vec![EnemyDraw { x: 1 << 31, y: u32::MAX, dx: 6, dy: 8 }],
    );
    assert_eq!(
        store.enemies,
        vec![
            Enemy { position: at(128_000, 300_000), direction: dir(0, ONE) },
            Enemy { position: at(400_000, 472_000), direction: dir(600_000, 800_000) },
        ]
    );
    assert_eq!(store.player, None);
}

#[test]
fn a_game_starts_with_ten_stars_and_three_enemies() {
    let v = viewport();
    let mut store = EntityStore::new();
    spawn_stars(&mut store, v);
    spawn_enemies(&mut store, v);
    assert_eq!(store.stars.len(), 10);
    assert_eq!(store.enemies.len(), 3);
    for star in &store.stars {
        let p = star.unwrap().position;
        assert!(0 <= p.x && p.x < 800_000 && 0 <= p.y && p.y < 600_000);
    }
    for e in &store.enemies {
        assert!(128_000 <= e.position.x && e.position.x <= 672_000);
        assert!(128_000 <= e.position.y && e.position.y <= 472_000);
        assert!(e.direction.x() >= 0 && e.direction.y() >= 0);
        assert!(Direction::new(e.direction.x(), e.direction.y()).is_some());
    }
}

#[test]
fn random_stars_are_not_all_in_one_place() {
    let mut store = EntityStore::new();
    for _ in 0..8 {
        spawn_stars(&mut store, viewport());
    }
    assert_eq!(store.stars.len(), 80);
    assert!(store.stars.iter().any(|s| *s != store.stars[0]));
}

#[test]
fn the_center_halves_the_viewport() {
    assert_eq!(center(viewport()), at(400_000, 300_000));
    assert_eq!(center(Viewport { width: 0, height: 1 }), at(0, 0));
    assert_eq!(
        center(Viewport { width: u32::MAX, height: 3 }),
        at(2_147_483_647, 1)
    );
}

#[test]
fn lines_name_the_score() {
    assert_eq!(update_score(&Score { value: 0 }), "Score: 0");
    assert_eq!(update_score(&Score { value: 42 }), "Score: 42");
    assert_eq!(
        update_score(&Score { value: u64::MAX }),
        "Score: 18446744073709551615"
    );
    assert_eq!(
        handle_game_over(&GameOver { final_score: 7 }),
        "Game Over. Final score is 7"
    );
    assert_eq!(
        handle_game_over(&GameOver { final_score: 1000 }),
        "Game Over. Final score is 1000"
    );
}

#[test]
fn spawners_wait_for_their_timers() {
    let v = viewport();
    let mut store = EntityStore::new();
    let mut stars = StarSpawnTimer::default();
    let mut enemies = EnemySpawnTimer::default();
    spawn_star(&mut store, v, &stars);
    enemy_spawn_over_time(&mut store, v, &enemies);
    assert!(store.stars.is_empty() && store.enemies.is_empty());
    let mut spawned_stars = 0;
    for _ in 0..20 {
        tick_star_spawn_timer(&mut stars, SECOND / 2);
        tick_enemy_spawn_timer(&mut enemies, SECOND / 2);
        spawn_star(&mut store, v, &stars);
        enemy_spawn_over_time(&mut store, v, &enemies);
        if stars.timer.just_finished() {
            spawned_stars += 1;
        }
        assert_eq!(store.stars.len(), spawned_stars);
    }
    assert_eq!(store.stars.len(), 10);
    assert_eq!(store.enemies.len(), 1);
    let p = store.enemies[0].position;
    assert!(128_000 <= p.x && p.x <= 672_000 && 128_000 <= p.y && p.y <= 472_000);
}
