//! The edges of the field: the player is held inside them, enemies bounce off them.

use vstd::prelude::*;

use crate::game::direction::{lemma_reflection_keeps_unit_length, Axis, Direction};
use crate::game::entity::{
    Enemy,
    EntityStore,
    Player,
    Position,
    Viewport,
    ENEMY_SPRITE_SIZE,
    PLAYER_SPRITE_SIZE,
};
use crate::game::score::Event;

verus! {

/// One coordinate held between `lo` and `hi`: anything below `lo` becomes
/// `lo`, anything else above `hi` becomes `hi`.
pub open spec fn clamp_axis_spec(v: int, lo: int, hi: int) -> int {
    if v < lo {
        lo
    } else if v > hi {
        hi
    } else {
        v
    }
}

/// Whether a coordinate lies outside the range from `lo` to `hi`.
pub open spec fn leaves_axis(v: int, lo: int, hi: int) -> bool {
    v < lo || v > hi
}

/// Half of a sprite's diameter: how close its centre may come to an edge.
pub open spec fn half_extent(size: u32) -> int {
    size as int / 2
}

/// The position of a sprite of diameter `size` held inside the viewport,
/// each coordinate on its own.
pub open spec fn confined(p: Position, viewport: Viewport, size: u32) -> Position {
    let h = half_extent(size);
    Position {
        x: clamp_axis_spec(p.x as int, h, viewport.width - h) as i64,
        y: clamp_axis_spec(p.y as int, h, viewport.height - h) as i64,
    }
}

/// Whether a sprite of diameter `size` at `p` reaches past a left or right edge.
pub open spec fn crosses_x(p: Position, viewport: Viewport, size: u32) -> bool {
    leaves_axis(p.x as int, half_extent(size), viewport.width - half_extent(size))
}

/// Whether a sprite of diameter `size` at `p` reaches past a top or bottom edge.
pub open spec fn crosses_y(p: Position, viewport: Viewport, size: u32) -> bool {
    leaves_axis(p.y as int, half_extent(size), viewport.height - half_extent(size))
}

/// Whether the enemy bounces this frame.
pub open spec fn bounces(e: Enemy, viewport: Viewport) -> bool {
    crosses_x(e.position, viewport, ENEMY_SPRITE_SIZE) || crosses_y(
        e.position,
        viewport,
        ENEMY_SPRITE_SIZE,
    )
}

/// The direction of an enemy after the edges had their say: mirrored across
/// each axis on which the enemy crossed an edge.
pub open spec fn bounced_direction(e: Enemy, viewport: Viewport) -> Direction {
    let after_x = if crosses_x(e.position, viewport, ENEMY_SPRITE_SIZE) {
        e.direction.reflect_spec(Axis::X)
    } else {
        e.direction
    };
    if crosses_y(e.position, viewport, ENEMY_SPRITE_SIZE) {
        after_x.reflect_spec(Axis::Y)
    } else {
        after_x
    }
}

/// The enemy after the edges had their say: put back on the field, heading inwards.
pub open spec fn bounced(e: Enemy, viewport: Viewport) -> Enemy {
    Enemy {
        position: confined(e.position, viewport, ENEMY_SPRITE_SIZE),
        direction: bounced_direction(e, viewport),
    }
}

/// The bounce facts for the first `n` enemies, in index order.
pub open spec fn bounce_events(enemies: Seq<Enemy>, viewport: Viewport, n: int) -> Seq<Event>
    decreases n,
{
    if n <= 0 {
        Seq::empty()
    } else if bounces(enemies[n - 1], viewport) {
        bounce_events(enemies, viewport, n - 1).push(Event::Bounce { enemy: (n - 1) as usize })
    } else {
        bounce_events(enemies, viewport, n - 1)
    }
}

/// Holds one coordinate between `lo` and `hi`.
pub fn clamp_axis(v: i64, lo: i64, hi: i64) -> (r: i64)
    ensures
        r == clamp_axis_spec(v as int, lo as int, hi as int),
        lo <= hi ==> lo <= r <= hi,
{
    if v < lo {
        lo
    } else if v > hi {
        hi
    } else {
        v
    }
}

/// Holds a sprite of diameter `size` inside the viewport.
pub fn confine(p: Position, viewport: Viewport, size: u32) -> (r: Position)
    ensures
        r == confined(p, viewport, size),
{
    let h: i64 = (size / 2) as i64;
    Position {
        x: clamp_axis(p.x, h, viewport.width as i64 - h),
        y: clamp_axis(p.y, h, viewport.height as i64 - h),
    }
}

/// A sprite that fits the viewport is wholly inside it once confined:
/// its centre keeps half its diameter away from every edge.
pub proof fn lemma_confined_stays_inside(p: Position, viewport: Viewport, size: u32)
    requires
        2 * half_extent(size) <= viewport.width,
        2 * half_extent(size) <= viewport.height,
    ensures
        half_extent(size) <= confined(p, viewport, size).x <= viewport.width - half_extent(size),
        half_extent(size) <= confined(p, viewport, size).y <= viewport.height - half_extent(size),
{
}

/// Keeps the player on the field. Without a player nothing happens.
pub fn confine_player_movement(store: &mut EntityStore, viewport: Viewport)
    ensures
        final(store).enemies@ == old(store).enemies@,
        final(store).stars@ == old(store).stars@,
        match old(store).player {
            Some(player) => final(store).player == Some(
                Player { position: confined(player.position, viewport, PLAYER_SPRITE_SIZE) },
            ),
            None => final(store).player is None,
        },
{
    match store.player {
        Some(player) => {
            store.player = Some(
                Player { position: confine(player.position, viewport, PLAYER_SPRITE_SIZE) },
            );
        },
        None => {},
    }
}

/// Bounces one enemy off the edges and says whether it bounced.
pub fn bounce(e: Enemy, viewport: Viewport) -> (r: (Enemy, bool))
    ensures
        r.0 == bounced(e, viewport),
        r.1 == bounces(e, viewport),
        r.0.direction.wf(),
{
    let h: i64 = (ENEMY_SPRITE_SIZE / 2) as i64;
    let x_min = h;
    let x_max = viewport.width as i64 - h;
    let y_min = h;
    let y_max = viewport.height as i64 - h;
    let mut direction = e.direction;
    let mut is_direction_changed = false;
    proof {
        use_type_invariant(&direction);
    }
    if e.position.x < x_min || e.position.x > x_max {
        direction = direction.reflect(Axis::X);
        is_direction_changed = true;
    }
    if e.position.y < y_min || e.position.y > y_max {
        direction = direction.reflect(Axis::Y);
        is_direction_changed = true;
    }
    (
        Enemy { position: confine(e.position, viewport, ENEMY_SPRITE_SIZE), direction },
        is_direction_changed,
    )
}

/// Bounces every enemy that crossed an edge: it is put back on the field,
/// its direction is mirrored across each axis it crossed, and a bounce fact
/// with its index is appended to `events`. Mirroring keeps the length of the
/// direction exactly, so every direction is still a unit vector afterwards.
pub fn update_enemy_direction(store: &mut EntityStore, viewport: Viewport, events: &mut Vec<Event>)
    ensures
        final(store).wf(),
        final(store).player == old(store).player,
        final(store).stars@ == old(store).stars@,
        final(store).enemies@.len() == old(store).enemies@.len(),
        forall|i: int|
            0 <= i < old(store).enemies@.len() ==> #[trigger] final(store).enemies@[i] == bounced(
                old(store).enemies@[i],
                viewport,
            ),
        final(events)@ == old(events)@ + bounce_events(
            old(store).enemies@,
            viewport,
            old(store).enemies@.len() as int,
        ),
{
    let n = store.enemies.len();
    let mut i: usize = 0;
    while i < n
        invariant
            i <= n,
            n == store.enemies@.len(),
            n == old(store).enemies@.len(),
            store.player == old(store).player,
            store.stars@ == old(store).stars@,
            forall|j: int|
                0 <= j < i ==> #[trigger] store.enemies@[j] == bounced(
                    old(store).enemies@[j],
                    viewport,
                ),
            forall|j: int| 0 <= j < i ==> (#[trigger] store.enemies@[j]).direction.wf(),
            forall|j: int| i <= j < n ==> #[trigger] store.enemies@[j] == old(store).enemies@[j],
            events@ == old(events)@ + bounce_events(old(store).enemies@, viewport, i as int),
        decreases n - i,
    {
        let e = store.enemies[i];
        assert(e == old(store).enemies@[i as int]);
        let (after, is_direction_changed) = bounce(e, viewport);
        store.enemies.set(i, after);
        if is_direction_changed {
            events.push(Event::Bounce { enemy: i });
        }
        assert(events@ =~= old(events)@ + bounce_events(
            old(store).enemies@,
            viewport,
            i as int + 1,
        ));
        i = i + 1;
    }
}

/// An enemy that crossed only a left or right edge leaves with its horizontal
/// component negated and its vertical component untouched.
pub proof fn lemma_side_bounce_flips_x_only(e: Enemy, viewport: Viewport)
    requires
        e.direction.wf(),
        crosses_x(e.position, viewport, ENEMY_SPRITE_SIZE),
        !crosses_y(e.position, viewport, ENEMY_SPRITE_SIZE),
    ensures
        bounced(e, viewport).direction.dx() == -e.direction.dx(),
        bounced(e, viewport).direction.dy() == e.direction.dy(),
{
    lemma_reflection_keeps_unit_length(e.direction, Axis::X);
}

/// Whatever edges an enemy crossed, it leaves in a unit direction.
pub proof fn lemma_bounce_keeps_unit_length(e: Enemy, viewport: Viewport)
    requires
        e.direction.wf(),
    ensures
        bounced(e, viewport).direction.wf(),
{
    lemma_reflection_keeps_unit_length(e.direction, Axis::X);
    if crosses_x(e.position, viewport, ENEMY_SPRITE_SIZE) {
        lemma_reflection_keeps_unit_length(e.direction.reflect_spec(Axis::X), Axis::Y);
    } else {
        lemma_reflection_keeps_unit_length(e.direction, Axis::Y);
    }
}

} // verus!
