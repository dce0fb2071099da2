//! A single fish: identity, species, position, and the per-tick state the
//! engine mutates. Identity is a 128-bit token drawn from a random UUID; the
//! engine itself only ever compares identities for equality.

use vstd::prelude::*;

verus! {

/// The horizontal facing of a fish.
#[derive(Clone, Copy, PartialEq, Eq, Structural, Debug)]
pub enum Direction {
    Left,
    Right,
}

/// One living organism. All fields are plain values, so a fish is fully
/// described by, and reconstructible from, its recorded state.
#[derive(Debug)]
pub struct Fish {
    pub id: u128,
    pub species: String,
    pub position: (u16, u16),
    pub direction: Direction,
    pub hunger: u8,
    pub health: u8,
    pub age: u64,
    pub breeding_cooldown: u32,
}

/// Relies on `uuid::Uuid::new_v4` and `Uuid::as_u128`: a freshly drawn random
/// version-4 identifier, read out as its 128-bit value. The result is random,
/// so nothing is promised of it.
#[verifier::external_body]
fn fresh_id() -> u128 {
    uuid::Uuid::new_v4().as_u128()
}

impl Fish {
    /// A newly constructed fish has full health, no hunger, age zero, no
    /// breeding cooldown, and faces right, whatever its species; only its
    /// identity is left open, being freshly drawn at random.
    pub fn new(species: String, position: (u16, u16)) -> (r: Fish)
        ensures
            r.species == species,
            r.position == position,
            r.direction == Direction::Right,
            r.hunger == 0,
            r.health == 100,
            r.age == 0,
            r.breeding_cooldown == 0,
    {
        Fish {
            id: fresh_id(),
            species,
            position,
            direction: Direction::Right,
            hunger: 0,
            health: 100,
            age: 0,
            breeding_cooldown: 0,
        }
    }

    /// Rebuilds a fish from its recorded fields, identity included, e.g. when
    /// a saved tank is loaded. Nothing is lost: the result is exactly the
    /// record handed in.
    pub fn from_parts(
        id: u128,
        species: String,
        position: (u16, u16),
        direction: Direction,
        hunger: u8,
        health: u8,
        age: u64,
        breeding_cooldown: u32,
    ) -> (r: Fish)
        ensures
            r == (Fish { id, species, position, direction, hunger, health, age, breeding_cooldown }),
    {
        Fish { id, species, position, direction, hunger, health, age, breeding_cooldown }
    }

    /// An exact copy of this fish, identity included.
    pub fn duplicate(&self) -> (r: Fish)
        ensures
            r == *self,
    {
        Fish {
            id: self.id,
            species: self.species.clone(),
            position: self.position,
            direction: self.direction,
            hunger: self.hunger,
            health: self.health,
            age: self.age,
            breeding_cooldown: self.breeding_cooldown,
        }
    }
}

} // verus!
