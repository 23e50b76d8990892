//! Motion: the player follows the held keys, every enemy follows its direction.

use vstd::prelude::*;

use crate::game::direction::{normalize_spec, Direction};
use crate::game::entity::{Enemy, EntityStore, Player, Position, ENEMY_SPEED, PLAYER_SPEED};

verus! {

/// A direction component of `ONE` at one unit per second covers one unit in
/// this many nanoseconds times `ONE`.
pub const TRAVEL_DIVISOR: u128 = 1_000_000_000_000_000;

/// The movement keys that are held down.
#[derive(Debug, Clone, Copy, PartialEq, Eq, Structural)]
pub struct MoveKeys {
    pub left: bool,
    pub right: bool,
    pub up: bool,
    pub down: bool,
}

/// The vector the held keys ask for: one step per axis at most, opposite keys cancel.
pub open spec fn intent_spec(keys: MoveKeys) -> (int, int) {
    (
        (if keys.right {
            1int
        } else {
            0int
        }) - (if keys.left {
            1int
        } else {
            0int
        }),
        (if keys.up {
            1int
        } else {
            0int
        }) - (if keys.down {
            1int
        } else {
            0int
        }),
    )
}

/// The distance covered along one axis in `delta_ns` nanoseconds at `speed`
/// units per second with direction component `c`, rounded towards zero.
pub open spec fn travel(c: int, speed: int, delta_ns: int) -> int {
    if c < 0 {
        -((-c * speed * delta_ns) / (TRAVEL_DIVISOR as int))
    } else {
        (c * speed * delta_ns) / (TRAVEL_DIVISOR as int)
    }
}

/// `v` brought into the range of a coordinate.
pub open spec fn saturate(v: int) -> i64 {
    if v < i64::MIN {
        i64::MIN
    } else if v > i64::MAX {
        i64::MAX
    } else {
        v as i64
    }
}

/// One coordinate after moving: the old one plus the distance travelled,
/// stopping at the ends of the coordinate range.
pub open spec fn advance_spec(p: i64, c: int, speed: int, delta_ns: int) -> i64 {
    saturate(p + travel(c, speed, delta_ns))
}

/// A position after moving along `(dx, dy)` for `delta_ns` nanoseconds.
pub open spec fn moved(p: Position, dx: int, dy: int, speed: u32, delta_ns: u64) -> Position {
    Position {
        x: advance_spec(p.x, dx, speed as int, delta_ns as int),
        y: advance_spec(p.y, dy, speed as int, delta_ns as int),
    }
}

/// Where the held keys take a player in `delta_ns` nanoseconds: nowhere
/// if they ask for no direction, else along that direction at unit length.
pub open spec fn steered(p: Position, keys: MoveKeys, delta_ns: u64) -> Position {
    let (a, b) = intent_spec(keys);
    if a == 0 && b == 0 {
        p
    } else {
        moved(p, normalize_spec(a, b).0, normalize_spec(a, b).1, PLAYER_SPEED, delta_ns)
    }
}

/// An enemy after drifting along its direction for `delta_ns` nanoseconds.
pub open spec fn drifted(e: Enemy, delta_ns: u64) -> Enemy {
    Enemy {
        position: moved(e.position, e.direction.dx(), e.direction.dy(), ENEMY_SPEED, delta_ns),
        direction: e.direction,
    }
}

/// The vector the held keys ask for.
pub fn intent(keys: MoveKeys) -> (v: (i32, i32))
    ensures
        (v.0 as int, v.1 as int) == intent_spec(keys),
{
    let mut x: i32 = 0;
    let mut y: i32 = 0;
    if keys.left {
        x = x - 1;
    }
    if keys.right {
        x = x + 1;
    }
    if keys.up {
        y = y + 1;
    }
    if keys.down {
        y = y - 1;
    }
    (x, y)
}

/// Moves one coordinate.
pub fn advance(p: i64, c: i32, speed: u32, delta_ns: u64) -> (r: i64)
    ensures
        r == advance_spec(p, c as int, speed as int, delta_ns as int),
{
    let c_abs: u128 = if c < 0 {
        (-(c as i64)) as u128
    } else {
        c as u128
    };
    assert(c_abs * speed <= 0x8000_0000 * 0xffff_ffff) by (nonlinear_arith)
        requires
            0 <= c_abs <= 0x8000_0000,
            0 <= speed <= 0xffff_ffff,
    ;
    let cs: u128 = c_abs * (speed as u128);
    assert(cs * delta_ns <= 0x8000_0000 * 0xffff_ffff * 0xffff_ffff_ffff_ffff) by (nonlinear_arith)
        requires
            0 <= cs <= 0x8000_0000 * 0xffff_ffff,
            0 <= delta_ns <= 0xffff_ffff_ffff_ffff,
    ;
    let product: u128 = cs * (delta_ns as u128);
    let distance: u128 = product / TRAVEL_DIVISOR;
    let signed: i128 = if c < 0 {
        -(distance as i128)
    } else {
        distance as i128
    };
    let target: i128 = p as i128 + signed;
    if target < i64::MIN as i128 {
        i64::MIN
    } else if target > i64::MAX as i128 {
        i64::MAX
    } else {
        target as i64
    }
}

/// Moves a position along `direction`.
pub fn step(p: Position, direction: Direction, speed: u32, delta_ns: u64) -> (r: Position)
    ensures
        r == moved(p, direction.dx(), direction.dy(), speed, delta_ns),
{
    Position {
        x: advance(p.x, direction.x(), speed, delta_ns),
        y: advance(p.y, direction.y(), speed, delta_ns),
    }
}

/// Moves the player the way the held keys ask, at `PLAYER_SPEED`.
/// Without a player, or without a direction, nothing moves.
pub fn player_movement(store: &mut EntityStore, keys: MoveKeys, delta_ns: u64)
    ensures
        final(store).enemies@ == old(store).enemies@,
        final(store).stars@ == old(store).stars@,
        match old(store).player {
            Some(player) => final(store).player == Some(
                Player { position: steered(player.position, keys, delta_ns) },
            ),
            None => final(store).player is None,
        },
{
    match store.player {
        Some(player) => {
            let (a, b) = intent(keys);
            match Direction::from_vector(a, b) {
                Some(direction) => {
                    let position = step(player.position, direction, PLAYER_SPEED, delta_ns);
                    store.player = Some(Player { position });
                },
                None => {},
            }
        },
        None => {},
    }
}

/// Moves every enemy along its direction at `ENEMY_SPEED`.
pub fn enemy_movement(store: &mut EntityStore, delta_ns: u64)
    ensures
        final(store).player == old(store).player,
        final(store).stars@ == old(store).stars@,
        final(store).enemies@.len() == old(store).enemies@.len(),
        forall|i: int|
            0 <= i < old(store).enemies@.len() ==> #[trigger] final(store).enemies@[i] == drifted(
                old(store).enemies@[i],
                delta_ns,
            ),
        final(store).wf(),
{
    let n = store.enemies.len();
    let mut i: usize = 0;
    while i < n
        invariant
            i <= n,
            n == store.enemies@.len(),
            n == old(store).enemies@.len(),
            store.player == old(store).player,
            store.stars@ == old(store).stars@,
            forall|j: int|
                0 <= j < i ==> #[trigger] store.enemies@[j] == drifted(
                    old(store).enemies@[j],
                    delta_ns,
                ),
            forall|j: int| 0 <= j < i ==> (#[trigger] store.enemies@[j]).direction.wf(),
            forall|j: int| i <= j < n ==> #[trigger] store.enemies@[j] == old(store).enemies@[j],
        decreases n - i,
    {
        let e = store.enemies[i];
        proof {
            use_type_invariant(&e.direction);
        }
        let after = Enemy {
            position: step(e.position, e.direction, ENEMY_SPEED, delta_ns),
            direction: e.direction,
        };
        store.enemies.set(i, after);
        i = i + 1;
    }
}

} // verus!
