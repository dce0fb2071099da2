//! The mathematical model of one simulation step: per-fish movement,
//! metabolism and aging, greedy breeding-pair formation, cooldown resets, and
//! the mortality filter. `Tank::tick` promises to relate its old and new
//! state by [`tick_rel`], which is built from the functions here.

use vstd::prelude::*;
use crate::fish::{Direction, Fish};
use crate::species::{find_species, SpeciesTraits};

verus! {

/// The smaller of two widths.
pub open spec fn min16(a: u16, b: u16) -> u16 {
    if a < b {
        a
    } else {
        b
    }
}

/// New horizontal position and facing after one step in a tank `width` wide:
/// a left-facing fish moves one unit left, but at the wall flips to face
/// right instead; a right-facing fish moves one unit right while short of
/// `width - 8` (a margin for the sprite), and at that bound flips to face
/// left instead.
pub open spec fn stepped_x(f: Fish, width: u16) -> (u16, Direction) {
    match f.direction {
        Direction::Left => {
            if f.position.0 > 0 {
                ((f.position.0 - 1) as u16, Direction::Left)
            } else {
                (f.position.0, Direction::Right)
            }
        },
        Direction::Right => {
            if f.position.0 < width.saturating_sub(8) {
                ((f.position.0 + 1) as u16, Direction::Right)
            } else {
                (f.position.0, Direction::Left)
            }
        },
    }
}

/// New vertical position: every third tick the fish drifts by at most one
/// unit, up when `new_tick mod 7` is below 3, down when it is above 3,
/// clamped to `[0, height - 5]`; otherwise it stays put. The pattern is a
/// deterministic period-21 wander driven by the tick counter.
pub open spec fn stepped_y(f: Fish, height: u16, new_tick: u64) -> u16 {
    if new_tick % 3 == 0 {
        let m: u64 = new_tick % 7;
        if m < 3 && f.position.1 > 0 {
            (f.position.1 - 1) as u16
        } else if m > 3 && f.position.1 < height.saturating_sub(5) {
            (f.position.1 + 1) as u16
        } else {
            f.position.1
        }
    } else {
        f.position.1
    }
}

/// Hunger after one tick: a fish of a catalogued species gains a tenth of
/// its species' `hunger_rate_tenths` hunger points (the sum, in hundredths,
/// is capped at 100 points and rounded down to whole points); a fish of an
/// unknown species is left unchanged.
pub open spec fn stepped_hunger(f: Fish) -> u8 {
    match find_species(f.species@) {
        None => f.hunger,
        Some(sp) => {
            let total: int = f.hunger * 100 + sp.hunger_rate_tenths;
            let capped: int = if total > 10000 {
                10000
            } else {
                total
            };
            (capped / 100) as u8
        },
    }
}

/// Health after one tick: a fish whose (updated) hunger has reached 100
/// starves, losing 2 health, saturating at 0; health never regenerates.
pub open spec fn stepped_health(f: Fish, new_hunger: u8) -> u8 {
    if new_hunger >= 100 {
        f.health.saturating_sub(2)
    } else {
        f.health
    }
}

/// Breeding cooldown after one tick: it counts down to 0 and stays there.
pub open spec fn stepped_cooldown(f: Fish) -> u32 {
    if f.breeding_cooldown > 0 {
        (f.breeding_cooldown - 1) as u32
    } else {
        0
    }
}

/// One fish after the per-tick update pass: movement, drift, hunger, health,
/// age, and cooldown, each as the functions above say. Identity and species
/// are untouched.
pub open spec fn step_fish(f: Fish, dims: (u16, u16), new_tick: u64) -> Fish {
    let xd = stepped_x(f, dims.0);
    let h = stepped_hunger(f);
    Fish {
        id: f.id,
        species: f.species,
        position: (xd.0, stepped_y(f, dims.1, new_tick)),
        direction: xd.1,
        hunger: h,
        health: stepped_health(f, h),
        age: (f.age + 1) as u64,
        breeding_cooldown: stepped_cooldown(f),
    }
}

/// The whole population after the update pass, order kept.
pub open spec fn step_all(s: Seq<Fish>, dims: (u16, u16), new_tick: u64) -> Seq<Fish> {
    s.map_values(|f: Fish| step_fish(f, dims, new_tick))
}

/// Two fish may breed when their species names agree, both have health above
/// 50 and hunger below 50, and neither is cooling down.
pub open spec fn can_breed(a: Fish, b: Fish) -> bool {
    a.species@ == b.species@ && a.health > 50 && b.health > 50 && a.hunger < 50 && b.hunger < 50
        && a.breeding_cooldown == 0 && b.breeding_cooldown == 0
}

/// The first index `j` at or after the given one that is unmatched so far
/// and can breed with fish `i`.
pub open spec fn mate_from(s: Seq<Fish>, i: int, j: int, bred: Set<int>) -> Option<int>
    decreases s.len() - j,
{
    if j < 0 || j >= s.len() {
        None
    } else if !bred.contains(j) && can_breed(s[i], s[j]) {
        Some(j)
    } else {
        mate_from(s, i, j + 1, bred)
    }
}

/// Greedy pairing from index `i` on: each unmatched fish takes the first
/// unmatched partner above it, in ascending index order, and each fish is in
/// at most one pair.
pub open spec fn pairs_from(s: Seq<Fish>, i: int, bred: Set<int>) -> Seq<(int, int)>
    decreases s.len() - i,
{
    if i < 0 || i >= s.len() {
        Seq::empty()
    } else if bred.contains(i) {
        pairs_from(s, i + 1, bred)
    } else {
        match mate_from(s, i, i + 1, bred) {
            None => pairs_from(s, i + 1, bred),
            Some(j) => seq![(i, j)] + pairs_from(s, i + 1, bred.insert(i).insert(j)),
        }
    }
}

/// The breeding pairs one tick forms over the stepped population.
pub open spec fn breeding_pairs(s: Seq<Fish>) -> Seq<(int, int)> {
    pairs_from(s, 0, Set::empty())
}

/// Every index that occurs in one of the pairs.
pub open spec fn endpoints(pairs: Seq<(int, int)>) -> Set<int>
    decreases pairs.len(),
{
    if pairs.len() == 0 {
        Set::empty()
    } else {
        endpoints(pairs.drop_last()).insert(pairs.last().0).insert(pairs.last().1)
    }
}

/// A parent's cooldown is reset to its species' breeding cooldown; a parent
/// of unknown species is left as it stands.
pub open spec fn with_cooldown_reset(f: Fish) -> Fish {
    match find_species(f.species@) {
        None => f,
        Some(sp) => Fish {
            id: f.id,
            species: f.species,
            position: f.position,
            direction: f.direction,
            hunger: f.hunger,
            health: f.health,
            age: f.age,
            breeding_cooldown: sp.breeding_cooldown,
        },
    }
}

/// The population with every matched parent's cooldown reset.
pub open spec fn apply_cooldowns(s: Seq<Fish>, bred: Set<int>) -> Seq<Fish> {
    Seq::new(s.len(), |k: int| if bred.contains(k) {
        with_cooldown_reset(s[k])
    } else {
        s[k]
    })
}

/// A fish survives the mortality pass when its health is above 0 and — for a
/// catalogued species — its age is below the species' lifespan. A fish of
/// unknown species is exempt from death by age.
pub open spec fn alive(f: Fish) -> bool {
    f.health > 0 && (match find_species(f.species@) {
        None => true,
        Some(sp) => f.age < sp.lifespan,
    })
}

/// The survivors, order kept.
pub open spec fn filter_alive(s: Seq<Fish>) -> Seq<Fish>
    decreases s.len(),
{
    if s.len() == 0 {
        Seq::empty()
    } else {
        let rest = filter_alive(s.drop_last());
        if alive(s.last()) {
            rest.push(s.last())
        } else {
            rest
        }
    }
}

/// Where an offspring is placed: beside its first parent, offset by (5, 2)
/// and clamped to the tank bounds less the sprite margins.
pub open spec fn offspring_position(p: (u16, u16), dims: (u16, u16)) -> (u16, u16) {
    (
        min16(p.0.saturating_add(5), dims.0.saturating_sub(10)),
        min16(p.1.saturating_add(2), dims.1.saturating_sub(5)),
    )
}

/// What one tick promises of a spawned offspring: their first parent's
/// species, the offset-clamped position beside that parent, and newborn
/// stats. The identity is freshly drawn at random and so left open.
pub open spec fn is_offspring(b: Fish, parent: Fish, dims: (u16, u16)) -> bool {
    b.species == parent.species && b.position == offspring_position(parent.position, dims)
        && b.direction == Direction::Right && b.hunger == 0 && b.health == 100 && b.age == 0
        && b.breeding_cooldown == 0
}

/// How one tick relates the new population to the old: the old fish are
/// stepped, the stepped population forms its breeding pairs, the matched
/// parents' cooldowns are reset, the mortality filter runs, and one
/// offspring per pair is appended, in pair order.
pub open spec fn tick_rel(pre_fish: Seq<Fish>, dims: (u16, u16), new_tick: u64, post_fish: Seq<Fish>) -> bool {
    let stepped = step_all(pre_fish, dims, new_tick);
    let pairs = breeding_pairs(stepped);
    let survivors = filter_alive(apply_cooldowns(stepped, endpoints(pairs)));
    post_fish.len() == survivors.len() + pairs.len()
        && (forall|k: int| 0 <= k < survivors.len() ==> post_fish[k] == survivors[k])
        && (forall|k: int|
            0 <= k < pairs.len() ==> is_offspring(
                post_fish[survivors.len() + k],
                stepped[pairs[k].0],
                dims,
            ))
}

/// Equality of every recorded field except the identity.
pub open spec fn same_but_id(a: Fish, b: Fish) -> bool {
    a.species == b.species && a.position == b.position && a.direction == b.direction
        && a.hunger == b.hunger && a.health == b.health && a.age == b.age
        && a.breeding_cooldown == b.breeding_cooldown
}

/// Law: a tick of an empty tank leaves the fish list empty — nothing steps,
/// breeds, or dies.
pub proof fn lemma_tick_on_empty(dims: (u16, u16), new_tick: u64, post: Seq<Fish>)
    requires
        tick_rel(Seq::empty(), dims, new_tick, post),
    ensures
        post.len() == 0,
{
    let stepped = step_all(Seq::empty(), dims, new_tick);
    assert(stepped.len() == 0);
    assert(breeding_pairs(stepped) =~= Seq::empty());
    assert(apply_cooldowns(stepped, endpoints(breeding_pairs(stepped))).len() == 0);
    assert(filter_alive(apply_cooldowns(stepped, endpoints(breeding_pairs(stepped)))) == Seq::<
        Fish,
    >::empty());
}

/// Law: a fish at the left wall facing left flips to face right without
/// moving horizontally (and, off the drift ticks, without moving at all).
pub proof fn lemma_left_wall_turns(f: Fish, dims: (u16, u16), new_tick: u64)
    requires
        f.position.0 == 0,
        f.direction == Direction::Left,
    ensures
        step_fish(f, dims, new_tick).position.0 == f.position.0,
        step_fish(f, dims, new_tick).direction == Direction::Right,
        new_tick % 3 != 0 ==> step_fish(f, dims, new_tick).position == f.position,
{
}

/// Law: a fish at the right sprite margin (x at or past width − 8) facing
/// right flips to face left without moving horizontally.
pub proof fn lemma_right_margin_turns(f: Fish, dims: (u16, u16), new_tick: u64)
    requires
        f.position.0 >= dims.0.saturating_sub(8),
        f.direction == Direction::Right,
    ensures
        step_fish(f, dims, new_tick).position.0 == f.position.0,
        step_fish(f, dims, new_tick).direction == Direction::Left,
        new_tick % 3 != 0 ==> step_fish(f, dims, new_tick).position == f.position,
{
}

/// Law: a starving fish (hunger at 100) stays at hunger 100 and loses
/// exactly 2 health on the tick, saturating at 0; a fish whose health has
/// reached 0 does not survive the mortality pass of that same tick.
pub proof fn lemma_starvation_drains(f: Fish, dims: (u16, u16), new_tick: u64)
    requires
        f.hunger == 100,
    ensures
        step_fish(f, dims, new_tick).hunger == 100,
        step_fish(f, dims, new_tick).health == (if f.health >= 2 {
            (f.health - 2) as u8
        } else {
            0
        }),
        step_fish(f, dims, new_tick).health == 0 ==> !alive(step_fish(f, dims, new_tick)),
{
}

/// Law: a fish of a catalogued species whose age has reached the species'
/// lifespan does not survive the mortality pass, whatever its health.
pub proof fn lemma_old_age_removed(f: Fish, t: crate::species::SpeciesTraits)
    requires
        find_species(f.species@) == Some(t),
        f.age >= t.lifespan,
    ensures
        !alive(f),
{
}

/// A pair fit to breed — same catalogued species, health above 50, hunger
/// below 50, no cooldown — is still fit after the update pass, and the
/// greedy pairing matches exactly the pair (0, 1).
proof fn lemma_fit_pair_forms_the_pair(
    a: Fish,
    b: Fish,
    t: crate::species::SpeciesTraits,
    dims: (u16, u16),
    new_tick: u64,
)
    requires
        find_species(a.species@) == Some(t),
        b.species@ == a.species@,
        a.health > 50,
        b.health > 50,
        a.hunger < 50,
        b.hunger < 50,
        a.breeding_cooldown == 0,
        b.breeding_cooldown == 0,
    ensures
        ({
            let stepped = step_all(seq![a, b], dims, new_tick);
            breeding_pairs(stepped) == seq![(0int, 1int)] && endpoints(breeding_pairs(stepped))
                == Set::empty().insert(0int).insert(1int)
        }),
{
    crate::species::lemma_found_species_traits(a.species@);
    let stepped = step_all(seq![a, b], dims, new_tick);
    let sa = step_fish(a, dims, new_tick);
    let sb = step_fish(b, dims, new_tick);
    assert(stepped =~= seq![sa, sb]);
    // the hunger gain is under one whole point, so hunger (stored in whole
    // points) is unchanged and both parents stay fit to breed
    assert((a.hunger * 100 + t.hunger_rate_tenths) / 100 == a.hunger) by (nonlinear_arith)
        requires
            0 <= a.hunger,
            0 < t.hunger_rate_tenths < 100,
    ;
    assert((b.hunger * 100 + t.hunger_rate_tenths) / 100 == b.hunger) by (nonlinear_arith)
        requires
            0 <= b.hunger,
            0 < t.hunger_rate_tenths < 100,
    ;
    assert(sa.hunger == a.hunger && sb.hunger == b.hunger);
    assert(can_breed(sa, sb));
    // the greedy pairing matches exactly the pair (0, 1)
    let none: Set<int> = Set::empty();
    let both = none.insert(0).insert(1);
    assert(mate_from(stepped, 0, 1, none) == Some(1int));
    assert(pairs_from(stepped, 2, both) =~= Seq::<(int, int)>::empty());
    assert(pairs_from(stepped, 1, both) =~= Seq::<(int, int)>::empty());
    assert(pairs_from(stepped, 0, none) == seq![(0int, 1int)] + pairs_from(stepped, 1, both));
    let pairs = breeding_pairs(stepped);
    assert(pairs =~= seq![(0int, 1int)]);
    assert(pairs.drop_last() =~= Seq::<(int, int)>::empty());
    assert(endpoints(pairs.drop_last()) == Set::<int>::empty());
    assert(pairs.last() == (0int, 1int));
    assert(endpoints(pairs) =~= both);
}

/// Law: two fish of the same catalogued species, both with health above 50
/// and hunger below 50, neither cooling down, placed anywhere, produce
/// exactly one offspring on the next tick; it joins at the end of the new
/// population, beside the first parent.
pub proof fn lemma_pair_spawns_offspring(
    a: Fish,
    b: Fish,
    t: crate::species::SpeciesTraits,
    dims: (u16, u16),
    new_tick: u64,
    post: Seq<Fish>,
)
    requires
        find_species(a.species@) == Some(t),
        b.species@ == a.species@,
        a.health > 50,
        b.health > 50,
        a.hunger < 50,
        b.hunger < 50,
        a.breeding_cooldown == 0,
        b.breeding_cooldown == 0,
        tick_rel(seq![a, b], dims, new_tick, post),
    ensures
        ({
            let stepped = step_all(seq![a, b], dims, new_tick);
            let survivors = filter_alive(
                apply_cooldowns(stepped, endpoints(breeding_pairs(stepped))),
            );
            post.len() == survivors.len() + 1
        }),
        post.len() >= 1,
        is_offspring(post[post.len() - 1], step_fish(a, dims, new_tick), dims),
{
    lemma_fit_pair_forms_the_pair(a, b, t, dims, new_tick);
    let stepped = step_all(seq![a, b], dims, new_tick);
    assert(stepped =~= seq![step_fish(a, dims, new_tick), step_fish(b, dims, new_tick)]);
}

/// Law: two fish of the same catalogued species, both with health above 50
/// and hunger below 50, neither cooling down nor about to die of age, breed
/// on the next tick: the new population is exactly the two parents — their
/// cooldowns reset to the species' breeding cooldown — plus one offspring.
pub proof fn lemma_pair_breeds(
    a: Fish,
    b: Fish,
    t: crate::species::SpeciesTraits,
    dims: (u16, u16),
    new_tick: u64,
    post: Seq<Fish>,
)
    requires
        find_species(a.species@) == Some(t),
        b.species@ == a.species@,
        a.health > 50,
        b.health > 50,
        a.hunger < 50,
        b.hunger < 50,
        a.breeding_cooldown == 0,
        b.breeding_cooldown == 0,
        a.age + 1 < t.lifespan,
        b.age + 1 < t.lifespan,
        tick_rel(seq![a, b], dims, new_tick, post),
    ensures
        post.len() == 3,
        post[0].id == a.id,
        post[1].id == b.id,
        post[0].breeding_cooldown == t.breeding_cooldown,
        post[1].breeding_cooldown == t.breeding_cooldown,
        is_offspring(post[2], step_fish(a, dims, new_tick), dims),
{
    lemma_fit_pair_forms_the_pair(a, b, t, dims, new_tick);
    crate::species::lemma_found_species_traits(a.species@);
    let stepped = step_all(seq![a, b], dims, new_tick);
    let sa = step_fish(a, dims, new_tick);
    let sb = step_fish(b, dims, new_tick);
    assert(stepped =~= seq![sa, sb]);
    let pairs = breeding_pairs(stepped);
    // both parents' cooldowns are reset, both survive the mortality pass
    let acd = apply_cooldowns(stepped, endpoints(pairs));
    assert(acd[0] == with_cooldown_reset(sa) && acd[1] == with_cooldown_reset(sb));
    assert(alive(acd[0]) && alive(acd[1]));
    let one = acd.drop_last();
    assert(one =~= seq![acd[0]]);
    assert(one.drop_last() =~= Seq::<Fish>::empty());
    assert(filter_alive(one.drop_last()) == Seq::<Fish>::empty());
    assert(filter_alive(one) =~= seq![acd[0]]);
    assert(filter_alive(acd) =~= seq![acd[0], acd[1]]);
}

/// Law: the tick relation is a function of the recorded state alone — two
/// outcomes of one and the same tick agree everywhere, the freshly drawn
/// identities of the spawned offspring excepted. A tank reconstructed
/// losslessly from its record therefore ticks exactly as the original
/// would have.
pub proof fn lemma_tick_deterministic(
    pre: Seq<Fish>,
    dims: (u16, u16),
    new_tick: u64,
    post1: Seq<Fish>,
    post2: Seq<Fish>,
)
    requires
        tick_rel(pre, dims, new_tick, post1),
        tick_rel(pre, dims, new_tick, post2),
    ensures
        post1.len() == post2.len(),
        ({
            let stepped = step_all(pre, dims, new_tick);
            let survivors = filter_alive(apply_cooldowns(stepped, endpoints(breeding_pairs(stepped))));
            forall|k: int| 0 <= k < survivors.len() ==> post1[k] == post2[k]
        }),
        ({
            let stepped = step_all(pre, dims, new_tick);
            let survivors = filter_alive(apply_cooldowns(stepped, endpoints(breeding_pairs(stepped))));
            forall|k: int|
                survivors.len() <= k < post1.len() ==> same_but_id(post1[k], post2[k])
        }),
{
    let stepped = step_all(pre, dims, new_tick);
    let pairs = breeding_pairs(stepped);
    let survivors = filter_alive(apply_cooldowns(stepped, endpoints(pairs)));
    assert forall|k: int| survivors.len() <= k < post1.len() implies same_but_id(
        post1[k],
        post2[k],
    ) by {
        let p = k - survivors.len();
        assert(is_offspring(post1[k], stepped[pairs[p].0], dims));
        assert(is_offspring(post2[k], stepped[pairs[p].0], dims));
    }
}

} // verus!
