//! Contact: an enemy that touches the player ends the run, a star that the
//! player touches is collected.

use vstd::prelude::*;

use crate::game::entity::{
    Enemy,
    EntityStore,
    Position,
    Star,
    ENEMY_SPRITE_SIZE,
    PLAYER_SPRITE_SIZE,
    STAR_SPRITE_SIZE,
};
use crate::game::score::{Event, GameOver, Score};

verus! {

/// How close the centres of the player and an enemy must come to touch:
/// the sum of their radii.
pub const ENEMY_REACH: u32 = PLAYER_SPRITE_SIZE / 2 + ENEMY_SPRITE_SIZE / 2;

/// How close the centres of the player and a star must come to touch:
/// the sum of their radii.
pub const STAR_REACH: u32 = PLAYER_SPRITE_SIZE / 2 + STAR_SPRITE_SIZE / 2;

/// The square of the distance between two points.
pub open spec fn distance_squared(a: Position, b: Position) -> int {
    (a.x - b.x) * (a.x - b.x) + (a.y - b.y) * (a.y - b.y)
}

/// Two circles touch when their centres are closer than `reach`, the sum of
/// their radii. At exactly that distance they do not.
pub open spec fn overlaps_spec(a: Position, b: Position, reach: int) -> bool {
    distance_squared(a, b) < reach * reach
}

/// Whether any of the first `n` enemies touches a player at `p`.
pub open spec fn any_enemy_hits(enemies: Seq<Enemy>, p: Position, n: int) -> bool {
    exists|i: int|
        0 <= i < n && overlaps_spec(p, (#[trigger] enemies[i]).position, ENEMY_REACH as int)
}

/// Whether the star slot holds a star that a player at `p` touches.
pub open spec fn collects(slot: Option<Star>, p: Position) -> bool {
    match slot {
        Some(star) => overlaps_spec(p, star.position, STAR_REACH as int),
        None => false,
    }
}

/// How many of the first `n` star slots a player at `p` collects.
pub open spec fn collected_count(stars: Seq<Option<Star>>, p: Position, n: int) -> nat
    decreases n,
{
    if n <= 0 {
        0
    } else if collects(stars[n - 1], p) {
        collected_count(stars, p, n - 1) + 1
    } else {
        collected_count(stars, p, n - 1)
    }
}

/// The collection facts for the first `n` star slots, in index order.
pub open spec fn collected_events(stars: Seq<Option<Star>>, p: Position, n: int) -> Seq<Event>
    decreases n,
{
    if n <= 0 {
        Seq::empty()
    } else if collects(stars[n - 1], p) {
        collected_events(stars, p, n - 1).push(Event::Collected { star: (n - 1) as usize })
    } else {
        collected_events(stars, p, n - 1)
    }
}

/// The star slots after a player at `p` collected what it touches:
/// touched stars are gone, every other slot is as it was.
pub open spec fn after_collection(stars: Seq<Option<Star>>, p: Position) -> Seq<Option<Star>> {
    Seq::new(
        stars.len(),
        |i: int|
            if collects(stars[i], p) {
                None
            } else {
                stars[i]
            },
    )
}

/// How many of the first `n` star slots are empty.
pub open spec fn empty_slots(stars: Seq<Option<Star>>, n: int) -> nat
    decreases n,
{
    if n <= 0 {
        0
    } else if stars[n - 1] is None {
        empty_slots(stars, n - 1) + 1
    } else {
        empty_slots(stars, n - 1)
    }
}

/// The size of the difference of two coordinates.
fn gap(a: i64, b: i64) -> (d: u128)
    ensures
        d == if a >= b {
            a - b
        } else {
            b - a
        },
{
    if a >= b {
        (a as i128 - b as i128) as u128
    } else {
        (b as i128 - a as i128) as u128
    }
}

/// Whether two circles whose radii sum to `reach` touch.
pub fn overlaps(a: Position, b: Position, reach: u32) -> (hit: bool)
    ensures
        hit == overlaps_spec(a, b, reach as int),
{
    let dx = gap(a.x, b.x);
    let dy = gap(a.y, b.y);
    let r = reach as u128;
    proof {
        let sx = (a.x - b.x) * (a.x - b.x);
        let sy = (a.y - b.y) * (a.y - b.y);
        assert(sx == dx * dx && sy == dy * dy) by (nonlinear_arith)
            requires
                sx == (a.x - b.x) * (a.x - b.x),
                sy == (a.y - b.y) * (a.y - b.y),
                dx == a.x - b.x || dx == b.x - a.x,
                dy == a.y - b.y || dy == b.y - a.y,
        ;
        assert(dx * dx >= 0 && dy * dy >= 0) by (nonlinear_arith);
        if dx >= r {
            assert(dx * dx >= r * r) by (nonlinear_arith)
                requires
                    dx >= r,
                    r >= 0,
            ;
        }
        if dy >= r {
            assert(dy * dy >= r * r) by (nonlinear_arith)
                requires
                    dy >= r,
                    r >= 0,
            ;
        }
    }
    if dx >= r || dy >= r {
        false
    } else {
        assert(dx * dx <= 0xffff_ffff * 0xffff_ffff && dy * dy <= 0xffff_ffff * 0xffff_ffff && r
            * r <= 0xffff_ffff * 0xffff_ffff) by (nonlinear_arith)
            requires
                0 <= dx < r,
                0 <= dy < r,
                r <= 0xffff_ffff,
        ;
        dx * dx + dy * dy < r * r
    }
}

/// Centres exactly `reach` apart do not touch.
pub proof fn lemma_no_overlap_at_reach(a: Position, b: Position, reach: int)
    requires
        distance_squared(a, b) == reach * reach,
    ensures
        !overlaps_spec(a, b, reach),
{
}

/// Centres any closer than `reach` do touch: along an axis, a gap of
/// `reach - e` with `0 < e <= reach` is a contact.
pub proof fn lemma_overlap_inside_reach(a: Position, b: Position, reach: int, e: int)
    requires
        0 < e <= reach,
        a.y == b.y,
        a.x - b.x == reach - e,
    ensures
        overlaps_spec(a, b, reach),
{
    assert((reach - e) * (reach - e) < reach * reach) by (nonlinear_arith)
        requires
            0 < e <= reach,
    ;
}

/// Destroys the player if any enemy touches it, and reports the end of the
/// run once, with the score as it stands, however many enemies touch.
/// Without a player nothing happens.
pub fn enemy_hit_player(store: &mut EntityStore, score: &Score, events: &mut Vec<Event>)
    ensures
        final(store).enemies@ == old(store).enemies@,
        final(store).stars@ == old(store).stars@,
        match old(store).player {
            Some(player) => if any_enemy_hits(
                old(store).enemies@,
                player.position,
                old(store).enemies@.len() as int,
            ) {
                &&& final(store).player is None
                &&& final(events)@ == old(events)@.push(
                    Event::GameOver(GameOver { final_score: score.value }),
                )
            } else {
                &&& final(store).player == old(store).player
                &&& final(events)@ == old(events)@
            },
            None => final(store).player is None && final(events)@ == old(events)@,
        },
{
    match store.player {
        Some(player) => {
            let n = store.enemies.len();
            let mut i: usize = 0;
            let mut hit = false;
            while i < n && !hit
                invariant
                    i <= n,
                    n == store.enemies@.len(),
                    hit == any_enemy_hits(store.enemies@, player.position, i as int),
                decreases n - i,
            {
                if overlaps(player.position, store.enemies[i].position, ENEMY_REACH) {
                    hit = true;
                }
                i = i + 1;
            }
            if hit {
                store.player = None;
                events.push(Event::GameOver(GameOver { final_score: score.value }));
            }
        },
        None => {},
    }
}

/// Collects every star the player touches: its slot is emptied, the score
/// goes up by one and a collection fact with its index is appended to
/// `events`. Stars out of reach stay where they are. Without a player
/// nothing happens.
pub fn player_hit_star(store: &mut EntityStore, score: &mut Score, events: &mut Vec<Event>)
    requires
        old(store).player matches Some(player) ==> old(score).value + collected_count(
            old(store).stars@,
            player.position,
            old(store).stars@.len() as int,
        ) <= u64::MAX,
    ensures
        final(store).player == old(store).player,
        final(store).enemies@ == old(store).enemies@,
        match old(store).player {
            Some(player) => {
                &&& final(store).stars@ == after_collection(old(store).stars@, player.position)
                &&& final(score).value == old(score).value + collected_count(
                    old(store).stars@,
                    player.position,
                    old(store).stars@.len() as int,
                )
                &&& final(events)@ == old(events)@ + collected_events(
                    old(store).stars@,
                    player.position,
                    old(store).stars@.len() as int,
                )
            },
            None => {
                &&& final(store).stars@ == old(store).stars@
                &&& final(score).value == old(score).value
                &&& final(events)@ == old(events)@
            },
        },
{
    match store.player {
        Some(player) => {
            let p = player.position;
            let n = store.stars.len();
            let mut i: usize = 0;
            while i < n
                invariant
                    i <= n,
                    n == store.stars@.len(),
                    n == old(store).stars@.len(),
                    store.player == old(store).player,
                    store.enemies@ == old(store).enemies@,
                    old(score).value + collected_count(old(store).stars@, p, n as int) <= u64::MAX,
                    forall|j: int|
                        0 <= j < i ==> #[trigger] store.stars@[j] == after_collection(
                            old(store).stars@,
                            p,
                        )[j],
                    forall|j: int|
                        i <= j < n ==> #[trigger] store.stars@[j] == old(store).stars@[j],
                    score.value == old(score).value + collected_count(
                        old(store).stars@,
                        p,
                        i as int,
                    ),
                    events@ == old(events)@ + collected_events(old(store).stars@, p, i as int),
                decreases n - i,
            {
                proof {
                    lemma_collected_count_grows(old(store).stars@, p, i as int + 1, n as int);
                }
                let touched = match store.stars[i] {
                    Some(star) => overlaps(p, star.position, STAR_REACH),
                    None => false,
                };
                if touched {
                    store.stars.set(i, None);
                    score.increment();
                    events.push(Event::Collected { star: i });
                }
                assert(events@ =~= old(events)@ + collected_events(
                    old(store).stars@,
                    p,
                    i as int + 1,
                ));
                i = i + 1;
            }
            assert(store.stars@ =~= after_collection(old(store).stars@, p));
        },
        None => {},
    }
}

/// Counting further slots never lowers the count.
pub proof fn lemma_collected_count_grows(stars: Seq<Option<Star>>, p: Position, m: int, n: int)
    requires
        m <= n,
    ensures
        collected_count(stars, p, m) <= collected_count(stars, p, n),
    decreases n - m,
{
    if m < n {
        lemma_collected_count_grows(stars, p, m, n - 1);
    }
}

/// A player that touches no star collects nothing: the count is zero, no
/// fact is reported and every slot stays as it was.
pub proof fn lemma_no_contact_collects_nothing(stars: Seq<Option<Star>>, p: Position, n: int)
    requires
        n <= stars.len(),
        forall|i: int| 0 <= i < n ==> !collects(#[trigger] stars[i], p),
    ensures
        collected_count(stars, p, n) == 0,
        collected_events(stars, p, n) == Seq::<Event>::empty(),
        n == stars.len() ==> after_collection(stars, p) == stars,
    decreases n,
{
    if n > 0 {
        lemma_no_contact_collects_nothing(stars, p, n - 1);
    }
    if n == stars.len() {
        assert(after_collection(stars, p) =~= stars);
    }
}

/// A player that touches exactly the star in slot `k` collects exactly that
/// one: the count is one, the one fact names `k`, and only slot `k` is emptied.
pub proof fn lemma_one_contact_collects_one(stars: Seq<Option<Star>>, p: Position, k: int, n: int)
    requires
        0 <= k < stars.len(),
        n <= stars.len(),
        forall|i: int| 0 <= i < stars.len() ==> (collects(#[trigger] stars[i], p) <==> i == k),
    ensures
        collected_count(stars, p, n) == if k < n {
            1nat
        } else {
            0nat
        },
        collected_events(stars, p, n) == if k < n {
            seq![Event::Collected { star: k as usize }]
        } else {
            Seq::<Event>::empty()
        },
        after_collection(stars, p) == stars.update(k, None),
    decreases n,
{
    if n > 0 {
        lemma_one_contact_collects_one(stars, p, k, n - 1);
        if k == n - 1 {
            assert(collected_events(stars, p, n) =~= seq![Event::Collected { star: k as usize }]);
        }
    }
    assert(after_collection(stars, p) =~= stars.update(k, None));
}

/// Slot sequences that agree on their first `n` slots have as many empty ones there.
pub proof fn lemma_empty_slots_of_prefix(a: Seq<Option<Star>>, b: Seq<Option<Star>>, n: int)
    requires
        n <= a.len(),
        n <= b.len(),
        forall|i: int| 0 <= i < n ==> a[i] == b[i],
    ensures
        empty_slots(a, n) == empty_slots(b, n),
    decreases n,
{
    if n > 0 {
        lemma_empty_slots_of_prefix(a, b, n - 1);
    }
}

/// A star that arrives fills a new slot and leaves the empty ones as they were.
pub proof fn lemma_new_star_keeps_empty_slots(stars: Seq<Option<Star>>, star: Star)
    ensures
        empty_slots(stars.push(Some(star)), stars.len() as int + 1) == empty_slots(
            stars,
            stars.len() as int,
        ),
{
    lemma_empty_slots_of_prefix(stars, stars.push(Some(star)), stars.len() as int);
}

/// Every star collected leaves one more empty slot: the empty slots after a
/// collection are those from before plus the stars collected.
pub proof fn lemma_collection_empties_slots(stars: Seq<Option<Star>>, p: Position, n: int)
    requires
        n <= stars.len(),
    ensures
        empty_slots(after_collection(stars, p), n) == empty_slots(stars, n) + collected_count(
            stars,
            p,
            n,
        ),
        empty_slots(stars, n) + collected_count(stars, p, n) <= n || n < 0,
    decreases n,
{
    if n > 0 {
        lemma_collection_empties_slots(stars, p, n - 1);
    }
}

} // verus!
