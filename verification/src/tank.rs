//! The tank engine: owns the fish population and the tank dimensions, and
//! advances the whole population one simulated step per [`Tank::tick`] call.
//! The simulation speed multiplier is stored in tenths (5 stands for 0.5x,
//! 10 for 1.0x), so that the fixed speed ladder is purely integral; it only
//! governs how often the driving loop calls `tick`, never what `tick` does.

use vstd::prelude::*;
use crate::fish::{Direction, Fish};
use crate::sim::{
    apply_cooldowns, breeding_pairs, can_breed, endpoints, filter_alive, is_offspring, mate_from,
    pairs_from, step_all, step_fish, tick_rel,
};
use crate::species::get_species;

verus! {

/// The simulation speed ladder, in tenths: the next speed up from `s`, with
/// the top rung and any value off the ladder left unchanged.
pub open spec fn next_speed(s: u16) -> u16 {
    if s == 5 {
        10
    } else if s == 10 {
        20
    } else if s == 20 {
        50
    } else if s == 50 {
        100
    } else {
        s
    }
}

/// The next speed down the ladder, with the bottom rung and any value off
/// the ladder left unchanged.
pub open spec fn prev_speed(s: u16) -> u16 {
    if s == 10 {
        5
    } else if s == 20 {
        10
    } else if s == 50 {
        20
    } else if s == 100 {
        50
    } else {
        s
    }
}

/// A fish after feeding: hunger gone, everything else untouched.
pub open spec fn fed_fish(f: Fish) -> Fish {
    Fish {
        id: f.id,
        species: f.species,
        position: f.position,
        direction: f.direction,
        hunger: 0,
        health: f.health,
        age: f.age,
        breeding_cooldown: f.breeding_cooldown,
    }
}

/// The population without any fish of the given identity, order kept.
pub open spec fn without_id(s: Seq<Fish>, id: u128) -> Seq<Fish>
    decreases s.len(),
{
    if s.len() == 0 {
        Seq::empty()
    } else {
        let rest = without_id(s.drop_last(), id);
        if s.last().id == id {
            rest
        } else {
            rest.push(s.last())
        }
    }
}

/// The first index at or after `i` holding a fish of the given identity.
pub open spec fn fish_index_from(s: Seq<Fish>, id: u128, i: int) -> Option<int>
    decreases s.len() - i,
{
    if i < 0 || i >= s.len() {
        None
    } else if s[i].id == id {
        Some(i)
    } else {
        fish_index_from(s, id, i + 1)
    }
}

/// Law: five speed increases from 0.5x saturate at 10x, and five decreases
/// from 10x saturate back at 0.5x (speeds held in tenths).
pub proof fn lemma_speed_ladder_saturates()
    ensures
        next_speed(next_speed(next_speed(next_speed(next_speed(5))))) == 100,
        prev_speed(prev_speed(prev_speed(prev_speed(prev_speed(100))))) == 5,
{
}

/// The indices whose flag is set.
pub open spec fn flags_set(bs: Seq<bool>) -> Set<int> {
    Set::new(|k: int| 0 <= k < bs.len() && bs[k])
}

/// One fish after the per-tick update pass; the executable counterpart of
/// [`step_fish`].
fn step_fish_exec(f: &Fish, dims: (u16, u16), new_tick: u64) -> (r: Fish)
    requires
        f.age < u64::MAX,
    ensures
        r == step_fish(*f, dims, new_tick),
{
    let (x, direction) = match f.direction {
        Direction::Left => {
            if f.position.0 > 0 {
                (f.position.0 - 1, Direction::Left)
            } else {
                (f.position.0, Direction::Right)
            }
        },
        Direction::Right => {
            if f.position.0 < dims.0.saturating_sub(8) {
                (f.position.0 + 1, Direction::Right)
            } else {
                (f.position.0, Direction::Left)
            }
        },
    };
    let y = if new_tick % 3 == 0 {
        let m: u64 = new_tick % 7;
        if m < 3 && f.position.1 > 0 {
            f.position.1 - 1
        } else if m > 3 && f.position.1 < dims.1.saturating_sub(5) {
            f.position.1 + 1
        } else {
            f.position.1
        }
    } else {
        f.position.1
    };
    let hunger = match get_species(f.species.as_str()) {
        None => f.hunger,
        Some(sp) => {
            let total: u32 = (f.hunger as u32) * 100 + (sp.hunger_rate_tenths as u32);
            let capped: u32 = if total > 10000 {
                10000
            } else {
                total
            };
            (capped / 100) as u8
        },
    };
    let health = if hunger >= 100 {
        f.health.saturating_sub(2)
    } else {
        f.health
    };
    let breeding_cooldown = if f.breeding_cooldown > 0 {
        f.breeding_cooldown - 1
    } else {
        0
    };
    Fish {
        id: f.id,
        species: f.species.clone(),
        position: (x, y),
        direction,
        hunger,
        health,
        age: f.age + 1,
        breeding_cooldown,
    }
}

/// The executable counterpart of [`can_breed`].
fn can_breed_exec(a: &Fish, b: &Fish) -> (r: bool)
    ensures
        r == can_breed(*a, *b),
{
    a.species == b.species && a.health > 50 && b.health > 50 && a.hunger < 50 && b.hunger < 50
        && a.breeding_cooldown == 0 && b.breeding_cooldown == 0
}

/// The first not-yet-matched partner above `i` that fish `i` can breed
/// with; the executable counterpart of [`mate_from`].
#[verifier::loop_isolation(false)]
fn find_mate(stepped: &Vec<Fish>, bred: &Vec<bool>, i: usize) -> (r: Option<usize>)
    requires
        bred@.len() == stepped@.len(),
        i < stepped@.len(),
    ensures
        (match r {
            Some(j) => i < j < stepped@.len() && mate_from(
                stepped@,
                i as int,
                i as int + 1,
                flags_set(bred@),
            ) == Some(j as int),
            None => mate_from(stepped@, i as int, i as int + 1, flags_set(bred@)) is None,
        }),
{
    let n = stepped.len();
    let mut j: usize = i + 1;
    while j < n
        invariant
            i < j <= n,
            mate_from(stepped@, i as int, i as int + 1, flags_set(bred@)) == mate_from(
                stepped@,
                i as int,
                j as int,
                flags_set(bred@),
            ),
        decreases n - j,
    {
        if !bred[j] && can_breed_exec(&stepped[i], &stepped[j]) {
            return Some(j);
        }
        j = j + 1;
    }
    None
}

/// The bounded simulated environment: the fish population (in insertion
/// order), the speed multiplier in tenths, the monotonic tick counter, and
/// the tank dimensions as (width, height).
#[derive(Debug)]
pub struct Tank {
    pub fish: Vec<Fish>,
    pub simulation_speed_tenths: u16,
    pub tick_count: u64,
    pub dimensions: (u16, u16),
}

impl Tank {
    /// An empty tank: no fish, speed 1.0x, tick counter at zero.
    pub fn new(width: u16, height: u16) -> (r: Tank)
        ensures
            r.fish@.len() == 0,
            r.simulation_speed_tenths == 10,
            r.tick_count == 0,
            r.dimensions == (width, height),
    {
        Tank { fish: Vec::new(), simulation_speed_tenths: 10, tick_count: 0, dimensions: (width, height) }
    }

    /// Rebuilds a tank from its recorded fields, e.g. when a saved tank is
    /// loaded. Nothing is lost: every field is exactly what was handed in.
    pub fn from_parts(
        fish: Vec<Fish>,
        simulation_speed_tenths: u16,
        tick_count: u64,
        dimensions: (u16, u16),
    ) -> (r: Tank)
        ensures
            r.fish@ == fish@,
            r.simulation_speed_tenths == simulation_speed_tenths,
            r.tick_count == tick_count,
            r.dimensions == dimensions,
    {
        Tank { fish, simulation_speed_tenths, tick_count, dimensions }
    }

    /// Appends a fish to the population unconditionally; no capacity limit.
    pub fn add_fish(&mut self, fish: Fish)
        ensures
            final(self).fish@ == old(self).fish@.push(fish),
            final(self).simulation_speed_tenths == old(self).simulation_speed_tenths,
            final(self).tick_count == old(self).tick_count,
            final(self).dimensions == old(self).dimensions,
    {
        self.fish.push(fish);
    }

    /// Removes every fish with the given identity; a silent no-op when none
    /// matches.
    pub fn remove_fish(&mut self, id: u128)
        ensures
            final(self).fish@ == without_id(old(self).fish@, id),
            final(self).simulation_speed_tenths == old(self).simulation_speed_tenths,
            final(self).tick_count == old(self).tick_count,
            final(self).dimensions == old(self).dimensions,
    {
        let mut kept: Vec<Fish> = Vec::new();
        let n = self.fish.len();
        let mut i: usize = 0;
        while i < n
            invariant
                i <= n,
                n == self.fish@.len(),
                kept@ == without_id(self.fish@.take(i as int), id),
            decreases n - i,
        {
            proof {
                assert(self.fish@.take(i + 1).drop_last() =~= self.fish@.take(i as int));
                assert(self.fish@.take(i + 1).last() == self.fish@[i as int]);
            }
            let f = &self.fish[i];
            if f.id != id {
                kept.push(f.duplicate());
            }
            i = i + 1;
        }
        proof {
            assert(self.fish@.take(n as int) =~= self.fish@);
        }
        self.fish = kept;
    }

    /// The fish with the given identity — the first such, should identities
    /// ever collide — or `None` when there is none.
    pub fn get_fish(&self, id: u128) -> (r: Option<&Fish>)
        ensures
            (match r {
                Some(f) => fish_index_from(self.fish@, id, 0) matches Some(k) && *f == self.fish@[k],
                None => fish_index_from(self.fish@, id, 0) is None,
            }),
    {
        let n = self.fish.len();
        let mut i: usize = 0;
        while i < n
            invariant
                i <= n,
                n == self.fish@.len(),
                fish_index_from(self.fish@, id, 0) == fish_index_from(self.fish@, id, i as int),
            decreases n - i,
        {
            let f = &self.fish[i];
            if f.id == id {
                return Some(f);
            }
            i = i + 1;
        }
        None
    }

    /// Feeding sets every fish's hunger to exactly 0 and leaves identity,
    /// species, position, direction, health, age, and cooldown unchanged.
    pub fn feed(&mut self)
        ensures
            final(self).fish@ == old(self).fish@.map_values(|f: Fish| fed_fish(f)),
            final(self).simulation_speed_tenths == old(self).simulation_speed_tenths,
            final(self).tick_count == old(self).tick_count,
            final(self).dimensions == old(self).dimensions,
    {
        let mut fed: Vec<Fish> = Vec::new();
        let n = self.fish.len();
        let mut i: usize = 0;
        while i < n
            invariant
                i <= n,
                n == self.fish@.len(),
                fed@.len() == i,
                forall|k: int| 0 <= k < i ==> fed@[k] == fed_fish(self.fish@[k]),
            decreases n - i,
        {
            let f = &self.fish[i];
            fed.push(Fish::from_parts(
                f.id,
                f.species.clone(),
                f.position,
                f.direction,
                0,
                f.health,
                f.age,
                f.breeding_cooldown,
            ));
            i = i + 1;
        }
        proof {
            assert(fed@ =~= self.fish@.map_values(|f: Fish| fed_fish(f)));
        }
        self.fish = fed;
    }

    /// The core state transition: advances the whole population by one
    /// simulated step — movement, drift, hunger, starvation, aging, cooldown
    /// countdown, greedy breeding with cooldown resets, offspring spawning,
    /// and the mortality pass — exactly as [`tick_rel`] says. Never fails;
    /// speed and dimensions are untouched.
    #[verifier::loop_isolation(false)]
    pub fn tick(&mut self)
        requires
            old(self).tick_count < u64::MAX,
            forall|k: int|
                0 <= k < old(self).fish@.len() ==> (#[trigger] old(self).fish@[k]).age < u64::MAX,
        ensures
            final(self).tick_count == old(self).tick_count + 1,
            final(self).simulation_speed_tenths == old(self).simulation_speed_tenths,
            final(self).dimensions == old(self).dimensions,
            tick_rel(old(self).fish@, old(self).dimensions, final(self).tick_count, final(self).fish@),
    {
        self.tick_count = self.tick_count + 1;
        let new_tick = self.tick_count;
        let dims = self.dimensions;
        let ghost pre_fish: Seq<Fish> = self.fish@;
        let n = self.fish.len();

        // Update pass: every fish moves, hungers, ages, and cools down.
        let mut stepped: Vec<Fish> = Vec::new();
        let mut i: usize = 0;
        while i < n
            invariant
                i <= n,
                stepped@.len() == i,
                forall|k: int| 0 <= k < i ==> stepped@[k] == step_fish(pre_fish[k], dims, new_tick),
            decreases n - i,
        {
            let nf = step_fish_exec(&self.fish[i], dims, new_tick);
            stepped.push(nf);
            i = i + 1;
        }
        let ghost sv: Seq<Fish> = stepped@;
        proof {
            assert(sv =~= step_all(pre_fish, dims, new_tick));
        }

        // Breeding pass over the stepped population, original indices:
        // greedy first-available pairing in ascending index order.
        let mut bred: Vec<bool> = Vec::new();
        let mut i: usize = 0;
        while i < n
            invariant
                i <= n,
                bred@.len() == i,
                forall|k: int| 0 <= k < i ==> !bred@[k],
            decreases n - i,
        {
            bred.push(false);
            i = i + 1;
        }
        let mut babies: Vec<Fish> = Vec::new();
        let ghost mut gpairs: Seq<(int, int)> = Seq::empty();
        let mut i: usize = 0;
        while i < n
            invariant
                i <= n,
                bred@.len() == n,
                stepped@ == sv,
                babies@.len() == gpairs.len(),
                forall|k: int| #[trigger] endpoints(gpairs).contains(k) ==> 0 <= k < n,
                forall|k: int| 0 <= k < n ==> bred@[k] == endpoints(gpairs).contains(k),
                breeding_pairs(sv) == gpairs + pairs_from(sv, i as int, endpoints(gpairs)),
                forall|k: int| 0 <= k < gpairs.len() ==> 0 <= (#[trigger] gpairs[k]).0 < n,
                forall|k: int|
                    0 <= k < gpairs.len() ==> is_offspring(babies@[k], sv[gpairs[k].0], dims),
            decreases n - i,
        {
            let ghost bset = endpoints(gpairs);
            if !bred[i] {
                proof {
                    assert(flags_set(bred@) =~= bset);
                }
                match find_mate(&stepped, &bred, i) {
                    None => {
                        proof {
                            assert(pairs_from(sv, i as int, bset) == pairs_from(
                                sv,
                                i as int + 1,
                                bset,
                            ));
                        }
                    },
                    Some(j) => {
                        let parent = &stepped[i];
                        let w10 = dims.0.saturating_sub(10);
                        let h5 = dims.1.saturating_sub(5);
                        let px = parent.position.0.saturating_add(5);
                        let py = parent.position.1.saturating_add(2);
                        let bx = if px < w10 {
                            px
                        } else {
                            w10
                        };
                        let by = if py < h5 {
                            py
                        } else {
                            h5
                        };
                        let baby = Fish::new(parent.species.clone(), (bx, by));
                        babies.push(baby);
                        bred[i] = true;
                        bred[j] = true;
                        proof {
                            let rest = pairs_from(
                                sv,
                                i as int + 1,
                                bset.insert(i as int).insert(j as int),
                            );
                            assert(pairs_from(sv, i as int, bset) == seq![(i as int, j as int)]
                                + rest);
                            let prev = gpairs;
                            gpairs = gpairs.push((i as int, j as int));
                            assert(gpairs.drop_last() =~= prev);
                            assert(endpoints(gpairs) =~= bset.insert(i as int).insert(j as int));
                            assert(prev + (seq![(i as int, j as int)] + rest) =~= gpairs + rest);
                        }
                    },
                }
            } else {
                proof {
                    assert(pairs_from(sv, i as int, bset) == pairs_from(sv, i as int + 1, bset));
                }
            }
            i = i + 1;
        }
        proof {
            assert(pairs_from(sv, n as int, endpoints(gpairs)) =~= Seq::empty());
            assert(gpairs + Seq::<(int, int)>::empty() =~= gpairs);
            assert(gpairs == breeding_pairs(sv));
        }

        // Cooldown resets for the matched parents.
        let ghost bset = endpoints(gpairs);
        let mut updated: Vec<Fish> = Vec::new();
        let mut i: usize = 0;
        while i < n
            invariant
                i <= n,
                updated@.len() == i,
                forall|k: int| 0 <= k < i ==> updated@[k] == apply_cooldowns(sv, bset)[k],
            decreases n - i,
        {
            let f = &stepped[i];
            if bred[i] {
                match get_species(f.species.as_str()) {
                    Some(sp) => {
                        updated.push(Fish::from_parts(
                            f.id,
                            f.species.clone(),
                            f.position,
                            f.direction,
                            f.hunger,
                            f.health,
                            f.age,
                            sp.breeding_cooldown,
                        ));
                    },
                    None => {
                        updated.push(f.duplicate());
                    },
                }
            } else {
                updated.push(f.duplicate());
            }
            i = i + 1;
        }
        proof {
            assert(updated@ =~= apply_cooldowns(sv, bset));
        }

        // Mortality pass: starved fish and — for catalogued species — fish
        // past their lifespan are removed.
        let mut next: Vec<Fish> = Vec::new();
        let mut i: usize = 0;
        while i < n
            invariant
                i <= n,
                updated@.len() == n,
                next@ == filter_alive(updated@.take(i as int)),
            decreases n - i,
        {
            proof {
                assert(updated@.take(i as int + 1).drop_last() =~= updated@.take(i as int));
                assert(updated@.take(i as int + 1).last() == updated@[i as int]);
            }
            let f = &updated[i];
            let age_ok = match get_species(f.species.as_str()) {
                None => true,
                Some(sp) => f.age < sp.lifespan,
            };
            if f.health > 0 && age_ok {
                next.push(f.duplicate());
            }
            i = i + 1;
        }
        proof {
            assert(updated@.take(n as int) =~= updated@);
        }

        // Offspring join the tank after the breeding and mortality passes.
        let ghost survivors: Seq<Fish> = next@;
        let ghost kids: Seq<Fish> = babies@;
        next.append(&mut babies);
        self.fish = next;
        proof {
            assert(forall|k: int|
                0 <= k < gpairs.len() ==> self.fish@[survivors.len() + k] == kids[k]);
        }
    }

    /// Steps the speed multiplier up the fixed ladder 0.5x, 1x, 2x, 5x, 10x
    /// (held in tenths); a no-op at the top and for any value off the ladder.
    pub fn increase_speed(&mut self)
        ensures
            final(self).simulation_speed_tenths == next_speed(old(self).simulation_speed_tenths),
            final(self).fish@ == old(self).fish@,
            final(self).tick_count == old(self).tick_count,
            final(self).dimensions == old(self).dimensions,
    {
        let s = self.simulation_speed_tenths;
        if s == 5 {
            self.simulation_speed_tenths = 10;
        } else if s == 10 {
            self.simulation_speed_tenths = 20;
        } else if s == 20 {
            self.simulation_speed_tenths = 50;
        } else if s == 50 {
            self.simulation_speed_tenths = 100;
        }
    }

    /// Steps the speed multiplier down the same ladder; a no-op at the
    /// bottom and for any value off the ladder.
    pub fn decrease_speed(&mut self)
        ensures
            final(self).simulation_speed_tenths == prev_speed(old(self).simulation_speed_tenths),
            final(self).fish@ == old(self).fish@,
            final(self).tick_count == old(self).tick_count,
            final(self).dimensions == old(self).dimensions,
    {
        let s = self.simulation_speed_tenths;
        if s == 10 {
            self.simulation_speed_tenths = 5;
        } else if s == 20 {
            self.simulation_speed_tenths = 10;
        } else if s == 50 {
            self.simulation_speed_tenths = 20;
        } else if s == 100 {
            self.simulation_speed_tenths = 50;
        }
    }
}

} // verus!
