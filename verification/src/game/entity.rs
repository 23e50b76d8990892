//! What is on the field: the player, the enemies, the stars, and the store
//! that owns them.

use vstd::prelude::*;

use crate::game::direction::Direction;

verus! {

/// Sub-pixel units in one pixel.
pub const UNITS_PER_PIXEL: u32 = 1000;

/// How fast the player moves, in units per second.
pub const PLAYER_SPEED: u32 = 500_000;

/// The diameter of the player.
pub const PLAYER_SPRITE_SIZE: u32 = 64_000;

/// How many stars a game starts with.
pub const STAR_NUMBERS: usize = 10;

/// The diameter of a star.
pub const STAR_SPRITE_SIZE: u32 = 30_000;

/// How many enemies a game starts with.
pub const ENEMY_NUMBERS: usize = 3;

/// How fast an enemy moves, in units per second.
pub const ENEMY_SPEED: u32 = 200_000;

/// The diameter of an enemy.
pub const ENEMY_SPRITE_SIZE: u32 = 64_000;

/// A point of the plane, in units.
#[derive(Debug, Clone, Copy, PartialEq, Eq, Structural)]
pub struct Position {
    pub x: i64,
    pub y: i64,
}

/// The visible field: from the origin to `(width, height)`, in units.
#[derive(Debug, Clone, Copy, PartialEq, Eq, Structural)]
pub struct Viewport {
    pub width: u32,
    pub height: u32,
}

/// The ball the user steers.
#[derive(Debug, Clone, Copy, PartialEq, Eq, Structural)]
pub struct Player {
    pub position: Position,
}

/// A ball that wanders and ends the run on contact.
#[derive(Debug, Clone, Copy, PartialEq, Eq, Structural)]
pub struct Enemy {
    pub position: Position,
    pub direction: Direction,
}

/// A collectible.
#[derive(Debug, Clone, Copy, PartialEq, Eq, Structural)]
pub struct Star {
    pub position: Position,
}

/// The arena of entities. An enemy is known by its index in `enemies`, a star
/// by its index in `stars`; a collected star leaves its slot empty, so the
/// indices of the others never change.
#[derive(Debug)]
pub struct EntityStore {
    pub player: Option<Player>,
    pub enemies: Vec<Enemy>,
    pub stars: Vec<Option<Star>>,
}

impl EntityStore {
    /// A store is well formed when every enemy travels in a unit direction.
    pub open spec fn wf(&self) -> bool {
        forall|i: int|
            0 <= i < self.enemies@.len() ==> (#[trigger] self.enemies@[i]).direction.wf()
    }

    /// An empty field.
    pub fn new() -> (store: Self)
        ensures
            store.player is None,
            store.enemies@.len() == 0,
            store.stars@.len() == 0,
            store.wf(),
    {
        EntityStore { player: None, enemies: Vec::new(), stars: Vec::new() }
    }
}

} // verus!
