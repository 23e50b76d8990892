//! Arrivals: the player at the centre, stars anywhere on the field, enemies
//! at a safe distance from the edges, each placed by numbers drawn at random.

use vstd::prelude::*;

use crate::game::boundary::{clamp_axis, clamp_axis_spec};
use crate::game::direction::{lemma_normalize_is_unit, normalize_spec, Direction, ONE};
use crate::game::entity::{
    Enemy,
    EntityStore,
    Player,
    Position,
    Star,
    Viewport,
    ENEMY_NUMBERS,
    ENEMY_SPRITE_SIZE,
    STAR_NUMBERS,
};
use crate::game::timer::{EnemySpawnTimer, StarSpawnTimer};

verus! {

/// The numbers that place one star: a fraction of the width and one of the
/// height, each as a numerator over 2^32.
#[derive(Debug, Clone, Copy, PartialEq, Eq, Structural)]
pub struct StarDraw {
    pub x: u32,
    pub y: u32,
}

/// The numbers that place one enemy and set it going: fractions of the width
/// and height, and the two components of a vector that points its way.
#[derive(Debug, Clone, Copy, PartialEq, Eq, Structural)]
pub struct EnemyDraw {
    pub x: u32,
    pub y: u32,
    pub dx: u32,
    pub dy: u32,
}

/// Calls `rand::random::<u32>()`, which draws from the thread-local
/// generator. Any value may come back, so nothing is claimed of it. The call
/// panics only if the operating system cannot seed the generator.
#[verifier::external_body]
fn random_u32() -> (r: u32) {
    rand::random::<u32>()
}

/// The fraction `r / 2^32` of `extent`, rounded down.
pub open spec fn scale_to_extent_spec(r: u32, extent: u32) -> int {
    (r as int * extent as int) / 0x1_0000_0000
}

/// The middle of the viewport.
pub open spec fn viewport_center(viewport: Viewport) -> Position {
    Position { x: (viewport.width / 2) as i64, y: (viewport.height / 2) as i64 }
}

/// Where a star drawn as `draw` appears: anywhere on the field.
pub open spec fn star_position(viewport: Viewport, draw: StarDraw) -> Position {
    Position {
        x: scale_to_extent_spec(draw.x, viewport.width) as i64,
        y: scale_to_extent_spec(draw.y, viewport.height) as i64,
    }
}

/// The star slots filled by `draws`, in order.
pub open spec fn stars_from(viewport: Viewport, draws: Seq<StarDraw>) -> Seq<Option<Star>> {
    Seq::new(draws.len(), |i: int| Some(Star { position: star_position(viewport, draws[i]) }))
}

/// A point drawn anywhere on the field and then pulled in until it keeps
/// two diameters of a sprite of that `size` away from every edge.
pub open spec fn safe_position(viewport: Viewport, size: u32, rx: u32, ry: u32) -> Position {
    let double_size = 2 * size;
    Position {
        x: clamp_axis_spec(
            scale_to_extent_spec(rx, viewport.width),
            double_size,
            viewport.width - double_size,
        ) as i64,
        y: clamp_axis_spec(
            scale_to_extent_spec(ry, viewport.height),
            double_size,
            viewport.height - double_size,
        ) as i64,
    }
}

/// The components of the direction a new enemy sets off in: the drawn vector
/// `(dx / 2, dy / 2)` at unit length, or straight along the horizontal axis
/// in the one case where that vector is zero.
pub open spec fn spawn_direction_spec(dx: u32, dy: u32) -> (int, int) {
    if dx / 2 == 0 && dy / 2 == 0 {
        (ONE as int, 0int)
    } else {
        normalize_spec((dx / 2) as int, (dy / 2) as int)
    }
}

/// The enemy that `draw` produces.
pub open spec fn spawned_enemy(viewport: Viewport, draw: EnemyDraw) -> Enemy {
    Enemy {
        position: safe_position(viewport, ENEMY_SPRITE_SIZE, draw.x, draw.y),
        direction: Direction::from_components(
            spawn_direction_spec(draw.dx, draw.dy).0,
            spawn_direction_spec(draw.dx, draw.dy).1,
        ),
    }
}

/// The enemies produced by `draws`, in order.
pub open spec fn enemies_from(viewport: Viewport, draws: Seq<EnemyDraw>) -> Seq<Enemy> {
    Seq::new(draws.len(), |i: int| spawned_enemy(viewport, draws[i]))
}

/// A new enemy sets off in a unit direction, whatever was drawn.
pub proof fn lemma_spawned_enemy_is_wf(viewport: Viewport, draw: EnemyDraw)
    ensures
        spawned_enemy(viewport, draw).direction.wf(),
{
    let a = (draw.dx / 2) as int;
    let b = (draw.dy / 2) as int;
    if a == 0 && b == 0 {
        Direction::lemma_components_kept(ONE as int, 0);
    } else {
        lemma_normalize_is_unit(a, b);
        Direction::lemma_components_kept(normalize_spec(a, b).0, normalize_spec(a, b).1);
    }
}

/// The fraction `r / 2^32` of `extent`, rounded down: a point from 0 up to,
/// but not including, `extent`.
pub fn scale_to_extent(r: u32, extent: u32) -> (v: i64)
    ensures
        v == scale_to_extent_spec(r, extent),
        0 <= v,
        extent > 0 ==> v < extent,
        extent == 0 ==> v == 0,
{
    assert(0 <= r * extent <= 0xffff_ffff * extent) by (nonlinear_arith)
        requires
            0 <= r <= 0xffff_ffff,
            0 <= extent,
    ;
    assert(r * extent <= 0xffff_ffff * 0xffff_ffff) by (nonlinear_arith)
        requires
            0 <= r <= 0xffff_ffff,
            0 <= extent <= 0xffff_ffff,
    ;
    let product: u64 = (r as u64) * (extent as u64);
    (product / 0x1_0000_0000) as i64
}

/// A star lands on the field: from the origin up to, but not on, the far edges.
pub proof fn lemma_star_lands_on_field(viewport: Viewport, draw: StarDraw)
    requires
        viewport.width > 0,
        viewport.height > 0,
    ensures
        0 <= star_position(viewport, draw).x < viewport.width,
        0 <= star_position(viewport, draw).y < viewport.height,
{
    assert(0 <= draw.x * viewport.width <= 0xffff_ffff * viewport.width) by (nonlinear_arith)
        requires
            0 <= draw.x <= 0xffff_ffff,
            0 <= viewport.width,
    ;
    assert(0 <= draw.y * viewport.height <= 0xffff_ffff * viewport.height) by (nonlinear_arith)
        requires
            0 <= draw.y <= 0xffff_ffff,
            0 <= viewport.height,
    ;
}

/// On a field at least four diameters wide and high, a new sprite keeps two
/// diameters away from every edge.
pub proof fn lemma_safe_position_keeps_clear(viewport: Viewport, size: u32, rx: u32, ry: u32)
    requires
        4 * size <= viewport.width,
        4 * size <= viewport.height,
    ensures
        2 * size <= safe_position(viewport, size, rx, ry).x <= viewport.width - 2 * size,
        2 * size <= safe_position(viewport, size, rx, ry).y <= viewport.height - 2 * size,
{
}

/// Picks the place for a new sprite of diameter `size` from two drawn numbers.
pub fn get_savety_spawn_coordinates(viewport: Viewport, size: u32, rx: u32, ry: u32) -> (p:
    Position)
    ensures
        p == safe_position(viewport, size, rx, ry),
{
    let double_size: i64 = 2 * (size as i64);
    let x_min = double_size;
    let x_max = viewport.width as i64 - double_size;
    let y_min = double_size;
    let y_max = viewport.height as i64 - double_size;
    let rand_x = scale_to_extent(rx, viewport.width);
    let rand_y = scale_to_extent(ry, viewport.height);
    Position { x: clamp_axis(rand_x, x_min, x_max), y: clamp_axis(rand_y, y_min, y_max) }
}

/// Picks the direction for a new enemy from two drawn numbers.
pub fn spawn_direction(dx: u32, dy: u32) -> (d: Direction)
    ensures
        (d.dx(), d.dy()) == spawn_direction_spec(dx, dy),
        d == Direction::from_components(
            spawn_direction_spec(dx, dy).0,
            spawn_direction_spec(dx, dy).1,
        ),
        d.wf(),
{
    match Direction::from_vector((dx / 2) as i32, (dy / 2) as i32) {
        Some(d) => d,
        None => Direction::unit_x(),
    }
}

/// The middle of the viewport, where the player starts and the camera looks.
pub fn center(viewport: Viewport) -> (p: Position)
    ensures
        p == viewport_center(viewport),
{
    Position { x: (viewport.width / 2) as i64, y: (viewport.height / 2) as i64 }
}

/// Puts the player in the middle of the viewport, replacing any player there is.
pub fn spawn_player(store: &mut EntityStore, viewport: Viewport)
    ensures
        final(store).player == Some(Player { position: viewport_center(viewport) }),
        final(store).enemies@ == old(store).enemies@,
        final(store).stars@ == old(store).stars@,
{
    store.player = Some(Player { position: center(viewport) });
}

/// Adds the star that `draw` places.
pub fn spawn_star_at(store: &mut EntityStore, viewport: Viewport, draw: StarDraw)
    ensures
        final(store).player == old(store).player,
        final(store).enemies@ == old(store).enemies@,
        final(store).stars@ == old(store).stars@.push(
            Some(Star { position: star_position(viewport, draw) }),
        ),
{
    let position = Position {
        x: scale_to_extent(draw.x, viewport.width),
        y: scale_to_extent(draw.y, viewport.height),
    };
    store.stars.push(Some(Star { position }));
}

/// Adds one star for each of `draws`, in order.
pub fn spawn_stars_at(store: &mut EntityStore, viewport: Viewport, draws: &Vec<StarDraw>)
    ensures
        final(store).player == old(store).player,
        final(store).enemies@ == old(store).enemies@,
        final(store).stars@ == old(store).stars@ + stars_from(viewport, draws@),
{
    let n = draws.len();
    let mut i: usize = 0;
    while i < n
        invariant
            i <= n,
            n == draws@.len(),
            store.player == old(store).player,
            store.enemies@ == old(store).enemies@,
            store.stars@ == old(store).stars@ + stars_from(viewport, draws@.subrange(0, i as int)),
        decreases n - i,
    {
        spawn_star_at(store, viewport, draws[i]);
        assert(store.stars@ =~= old(store).stars@ + stars_from(
            viewport,
            draws@.subrange(0, i as int + 1),
        ));
        i = i + 1;
    }
    assert(draws@.subrange(0, n as int) =~= draws@);
}

/// Adds the enemy that `draw` places and sets going.
pub fn spawn_enemy_at(store: &mut EntityStore, viewport: Viewport, draw: EnemyDraw)
    ensures
        final(store).player == old(store).player,
        final(store).stars@ == old(store).stars@,
        final(store).enemies@ == old(store).enemies@.push(spawned_enemy(viewport, draw)),
        old(store).wf() ==> final(store).wf(),
{
    let position = get_savety_spawn_coordinates(viewport, ENEMY_SPRITE_SIZE, draw.x, draw.y);
    let direction = spawn_direction(draw.dx, draw.dy);
    store.enemies.push(Enemy { position, direction });
}

/// Adds one enemy for each of `draws`, in order.
pub fn spawn_enemies_at(store: &mut EntityStore, viewport: Viewport, draws: &Vec<EnemyDraw>)
    ensures
        final(store).player == old(store).player,
        final(store).stars@ == old(store).stars@,
        final(store).enemies@ == old(store).enemies@ + enemies_from(viewport, draws@),
        old(store).wf() ==> final(store).wf(),
{
    let n = draws.len();
    let mut i: usize = 0;
    while i < n
        invariant
            i <= n,
            n == draws@.len(),
            store.player == old(store).player,
            store.stars@ == old(store).stars@,
            store.enemies@ == old(store).enemies@ + enemies_from(
                viewport,
                draws@.subrange(0, i as int),
            ),
            old(store).wf() ==> store.wf(),
        decreases n - i,
    {
        spawn_enemy_at(store, viewport, draws[i]);
        assert(store.enemies@ =~= old(store).enemies@ + enemies_from(
            viewport,
            draws@.subrange(0, i as int + 1),
        ));
        i = i + 1;
    }
    assert(draws@.subrange(0, n as int) =~= draws@);
}

/// Draws the numbers for one star.
pub(crate) fn draw_star() -> StarDraw {
    let x = random_u32();
    let y = random_u32();
    StarDraw { x, y }
}

/// Draws the numbers for one enemy.
pub(crate) fn draw_enemy() -> EnemyDraw {
    let x = random_u32();
    let y = random_u32();
    let dx = random_u32();
    let dy = random_u32();
    EnemyDraw { x, y, dx, dy }
}

/// Draws the numbers for `n` stars.
pub(crate) fn draw_stars(n: usize) -> (draws: Vec<StarDraw>)
    ensures
        draws@.len() == n,
{
    let mut draws: Vec<StarDraw> = Vec::new();
    let mut i: usize = 0;
    while i < n
        invariant
            i <= n,
            draws@.len() == i,
        decreases n - i,
    {
        draws.push(draw_star());
        i = i + 1;
    }
    draws
}

/// Draws the numbers for `n` enemies.
pub(crate) fn draw_enemies(n: usize) -> (draws: Vec<EnemyDraw>)
    ensures
        draws@.len() == n,
{
    let mut draws: Vec<EnemyDraw> = Vec::new();
    let mut i: usize = 0;
    while i < n
        invariant
            i <= n,
            draws@.len() == i,
        decreases n - i,
    {
        draws.push(draw_enemy());
        i = i + 1;
    }
    draws
}

/// Scatters the `STAR_NUMBERS` stars a game starts with over the field.
pub fn spawn_stars(store: &mut EntityStore, viewport: Viewport)
    ensures
        final(store).player == old(store).player,
        final(store).enemies@ == old(store).enemies@,
        exists|draws: Seq<StarDraw>|
            draws.len() == STAR_NUMBERS && final(store).stars@ == old(store).stars@ + stars_from(
                viewport,
                draws,
            ),
{
    let draws = draw_stars(STAR_NUMBERS);
    spawn_stars_at(store, viewport, &draws);
}

/// Places the `ENEMY_NUMBERS` enemies a game starts with, each clear of the
/// edges and heading its own way.
pub fn spawn_enemies(store: &mut EntityStore, viewport: Viewport)
    ensures
        final(store).player == old(store).player,
        final(store).stars@ == old(store).stars@,
        exists|draws: Seq<EnemyDraw>|
            draws.len() == ENEMY_NUMBERS && final(store).enemies@ == old(store).enemies@
                + enemies_from(viewport, draws),
        old(store).wf() ==> final(store).wf(),
{
    let draws = draw_enemies(ENEMY_NUMBERS);
    spawn_enemies_at(store, viewport, &draws);
}

/// Adds one star somewhere on the field if the star timer completed a period
/// on its last tick; otherwise leaves the field alone.
pub fn spawn_star(store: &mut EntityStore, viewport: Viewport, star_spawn_timer: &StarSpawnTimer)
    ensures
        final(store).player == old(store).player,
        final(store).enemies@ == old(store).enemies@,
        if star_spawn_timer.timer@.just_finished {
            exists|draw: StarDraw|
                final(store).stars@ == old(store).stars@.push(
                    Some(Star { position: star_position(viewport, draw) }),
                )
        } else {
            final(store).stars@ == old(store).stars@
        },
{
    if star_spawn_timer.timer.just_finished() {
        let draw = draw_star();
        spawn_star_at(store, viewport, draw);
    }
}

/// Adds one enemy, clear of the edges, if the enemy timer completed a period
/// on its last tick; otherwise leaves the field alone.
pub fn enemy_spawn_over_time(
    store: &mut EntityStore,
    viewport: Viewport,
    enemy_spawn_timer: &EnemySpawnTimer,
)
    ensures
        final(store).player == old(store).player,
        final(store).stars@ == old(store).stars@,
        old(store).wf() ==> final(store).wf(),
        if enemy_spawn_timer.timer@.just_finished {
            exists|draw: EnemyDraw|
                final(store).enemies@ == old(store).enemies@.push(spawned_enemy(viewport, draw))
        } else {
            final(store).enemies@ == old(store).enemies@
        },
{
    if enemy_spawn_timer.timer.just_finished() {
        let draw = draw_enemy();
        spawn_enemy_at(store, viewport, draw);
    }
}

} // verus!
