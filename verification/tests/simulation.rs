use aquarium::fish::{Direction, Fish};
use aquarium::species::{get_all_species, get_species};
use aquarium::tank::Tank;

fn goldfish_at(x: u16, y: u16) -> Fish {
    Fish::new("Goldfish".to_string(), (x, y))
}

#[test]
fn catalog_has_five_species_with_exact_traits() {
    let all = get_all_species();
    assert_eq!(all.len(), 5);
    let names: Vec<&str> = all.iter().map(|s| s.name.as_str()).collect();
    assert_eq!(names, vec!["Goldfish", "Guppy", "Betta", "Tetra", "Angelfish"]);
    assert_eq!(all[0].hunger_rate_tenths, 5);
    assert_eq!(all[0].base_health, 100);
    assert_eq!(all[0].lifespan, 10000);
    assert_eq!(all[0].breeding_cooldown, 500);
    assert_eq!(all[0].sprite_left, "<><");
    assert_eq!(all[0].sprite_right, "><>");
    assert_eq!(all[1].hunger_rate_tenths, 20);
    assert_eq!(all[1].lifespan, 3000);
    assert_eq!(all[2].sprite_right, ">((()>");
    assert_eq!(all[4].breeding_cooldown, 450);
}

#[test]
fn lookup_finds_every_catalogued_name() {
    for sp in get_all_species() {
        let found = get_species(&sp.name).expect("catalogued species must be found");
        assert_eq!(found.name, sp.name);
        assert_eq!(found.hunger_rate_tenths, sp.hunger_rate_tenths);
        assert_eq!(found.base_health, sp.base_health);
        assert_eq!(found.lifespan, sp.lifespan);
        assert_eq!(found.breeding_cooldown, sp.breeding_cooldown);
    }
}

#[test]
fn lookup_of_unknown_name_is_absent() {
    assert!(get_species("nonexistent").is_none());
    assert!(get_species("").is_none());
    assert!(get_species("goldfish").is_none()); // exact, case-sensitive match
}

#[test]
fn new_fish_has_newborn_stats_whatever_the_species() {
    for name in ["Goldfish", "Guppy", "Betta", "Tetra", "Angelfish", "Mystery"] {
        let f = Fish::new(name.to_string(), (12, 34));
        assert_eq!(f.species, name);
        assert_eq!(f.position, (12, 34));
        assert_eq!(f.direction, Direction::Right);
        assert_eq!(f.hunger, 0);
        assert_eq!(f.health, 100); // not the species' base health
        assert_eq!(f.age, 0);
        assert_eq!(f.breeding_cooldown, 0);
    }
}

#[test]
fn tick_on_empty_tank_only_counts() {
    let mut tank = Tank::new(80, 24);
    tank.tick();
    assert_eq!(tank.fish.len(), 0);
    assert_eq!(tank.tick_count, 1);
    tank.tick();
    assert_eq!(tank.fish.len(), 0);
    assert_eq!(tank.tick_count, 2);
}

#[test]
fn left_wall_flips_without_moving() {
    let mut tank = Tank::new(80, 24);
    let f = Fish::from_parts(7, "Goldfish".to_string(), (0, 5), Direction::Left, 0, 100, 0, 0);
    tank.add_fish(f);
    tank.tick(); // tick 1: not a drift tick, so no vertical move either
    assert_eq!(tank.fish[0].position, (0, 5));
    assert_eq!(tank.fish[0].direction, Direction::Right);
}

#[test]
fn right_margin_flips_without_moving() {
    let mut tank = Tank::new(80, 24);
    // the right bound for movement is width - 8
    let f = Fish::from_parts(8, "Goldfish".to_string(), (72, 5), Direction::Right, 0, 100, 0, 0);
    tank.add_fish(f);
    tank.tick();
    assert_eq!(tank.fish[0].position, (72, 5));
    assert_eq!(tank.fish[0].direction, Direction::Left);
}

#[test]
fn fish_move_one_unit_toward_their_facing() {
    let mut tank = Tank::new(80, 24);
    tank.add_fish(Fish::from_parts(1, "Goldfish".to_string(), (10, 5), Direction::Right, 0, 100, 0, 0));
    tank.add_fish(Fish::from_parts(2, "Goldfish".to_string(), (10, 9), Direction::Left, 0, 100, 0, 600));
    tank.tick();
    assert_eq!(tank.fish[0].position.0, 11);
    assert_eq!(tank.fish[0].direction, Direction::Right);
    assert_eq!(tank.fish[1].position.0, 9);
    assert_eq!(tank.fish[1].direction, Direction::Left);
    // cooldowns count down by one per tick
    assert_eq!(tank.fish[1].breeding_cooldown, 599);
}

#[test]
fn drift_follows_the_tick_counter() {
    // new_tick = 6 is a drift tick with (6 mod 7) - 3 = 3 > 0: fish drift down
    let mut tank = Tank::from_parts(Vec::new(), 10, 5, (80, 24));
    tank.add_fish(Fish::from_parts(3, "Goldfish".to_string(), (10, 5), Direction::Right, 0, 100, 0, 0));
    tank.tick();
    assert_eq!(tank.tick_count, 6);
    assert_eq!(tank.fish[0].position, (11, 6));

    // new_tick = 3 is a drift tick with (3 mod 7) - 3 = 0: no vertical move
    let mut tank = Tank::from_parts(Vec::new(), 10, 2, (80, 24));
    tank.add_fish(Fish::from_parts(4, "Goldfish".to_string(), (10, 5), Direction::Right, 0, 100, 0, 0));
    tank.tick();
    assert_eq!(tank.fish[0].position, (11, 5));

    // new_tick = 21 has (21 mod 7) - 3 = 0 - 3 < 0: fish drift up
    let mut tank = Tank::from_parts(Vec::new(), 10, 20, (80, 24));
    tank.add_fish(Fish::from_parts(5, "Goldfish".to_string(), (10, 5), Direction::Right, 0, 100, 0, 0));
    tank.tick();
    assert_eq!(tank.fish[0].position, (11, 4));
}

#[test]
fn healthy_pair_breeds_exactly_one_offspring() {
    let mut tank = Tank::new(80, 24);
    let a = goldfish_at(10, 5);
    let b = goldfish_at(30, 10);
    let (id_a, id_b) = (a.id, b.id);
    tank.add_fish(a);
    tank.add_fish(b);
    tank.tick();
    assert_eq!(tank.fish.len(), 3);
    // parents keep their identities and get the species' cooldown
    assert_eq!(tank.fish[0].id, id_a);
    assert_eq!(tank.fish[1].id, id_b);
    assert_eq!(tank.fish[0].breeding_cooldown, 500);
    assert_eq!(tank.fish[1].breeding_cooldown, 500);
    // one offspring, beside the first parent's stepped position (11, 5)
    let baby = &tank.fish[2];
    assert_eq!(baby.species, "Goldfish");
    assert_eq!(baby.position, (16, 7));
    assert_eq!(baby.direction, Direction::Right);
    assert_eq!(baby.hunger, 0);
    assert_eq!(baby.health, 100);
    assert_eq!(baby.age, 0);
    assert_eq!(baby.breeding_cooldown, 0);
    // cooling down, the pair does not breed again on the next tick
    tank.tick();
    assert_eq!(tank.fish.len(), 3);
}

#[test]
fn elderly_pair_still_breeds_before_dying_of_age() {
    let mut tank = Tank::new(80, 24);
    // both parents reach their species' lifespan of 10000 on this very tick:
    // breeding comes before the mortality pass, so the offspring remains
    tank.add_fish(Fish::from_parts(61, "Goldfish".to_string(), (10, 5), Direction::Right, 0, 100, 9999, 0));
    tank.add_fish(Fish::from_parts(62, "Goldfish".to_string(), (30, 10), Direction::Right, 0, 100, 9999, 0));
    tank.tick();
    assert_eq!(tank.fish.len(), 1);
    let baby = &tank.fish[0];
    assert_eq!(baby.species, "Goldfish");
    assert_eq!(baby.age, 0);
    assert_eq!(baby.position, (16, 7));
}

#[test]
fn mismatched_or_unfit_pairs_do_not_breed() {
    // different species
    let mut tank = Tank::new(80, 24);
    tank.add_fish(Fish::new("Goldfish".to_string(), (10, 5)));
    tank.add_fish(Fish::new("Guppy".to_string(), (30, 10)));
    tank.tick();
    assert_eq!(tank.fish.len(), 2);

    // same species but one too hungry
    let mut tank = Tank::new(80, 24);
    tank.add_fish(Fish::from_parts(1, "Betta".to_string(), (10, 5), Direction::Right, 50, 100, 0, 0));
    tank.add_fish(Fish::from_parts(2, "Betta".to_string(), (30, 10), Direction::Right, 0, 100, 0, 0));
    tank.tick();
    assert_eq!(tank.fish.len(), 2);

    // same species but one too weak
    let mut tank = Tank::new(80, 24);
    tank.add_fish(Fish::from_parts(3, "Betta".to_string(), (10, 5), Direction::Right, 0, 50, 0, 0));
    tank.add_fish(Fish::from_parts(4, "Betta".to_string(), (30, 10), Direction::Right, 0, 100, 0, 0));
    tank.tick();
    assert_eq!(tank.fish.len(), 2);
}

#[test]
fn greedy_pairing_is_first_available_in_index_order() {
    let mut tank = Tank::new(200, 24);
    for i in 0..3u16 {
        tank.add_fish(Fish::from_parts(i as u128, "Tetra".to_string(), (10 + 20 * i, 5), Direction::Right, 0, 100, 0, 0));
    }
    tank.tick();
    // fish 0 pairs with fish 1; fish 2 is left unmatched
    assert_eq!(tank.fish.len(), 4);
    assert_eq!(tank.fish[0].breeding_cooldown, 300);
    assert_eq!(tank.fish[1].breeding_cooldown, 300);
    assert_eq!(tank.fish[2].breeding_cooldown, 0);
    assert_eq!(tank.fish[3].species, "Tetra");
}

#[test]
fn starving_fish_loses_two_health_per_tick_then_dies() {
    let mut tank = Tank::new(80, 24);
    tank.add_fish(Fish::from_parts(9, "Goldfish".to_string(), (10, 5), Direction::Right, 100, 5, 0, 0));
    tank.tick();
    assert_eq!(tank.fish[0].health, 3);
    assert_eq!(tank.fish[0].hunger, 100);
    tank.tick();
    assert_eq!(tank.fish[0].health, 1);
    tank.tick();
    // health saturates at 0 and the fish is removed on that same tick
    assert_eq!(tank.fish.len(), 0);
    assert_eq!(tank.tick_count, 3);
}

#[test]
fn starving_fish_of_unknown_species_still_starves() {
    let mut tank = Tank::new(80, 24);
    tank.add_fish(Fish::from_parts(10, "Mystery".to_string(), (10, 5), Direction::Right, 100, 2, 0, 0));
    tank.tick();
    assert_eq!(tank.fish.len(), 0);
}

#[test]
fn fish_at_lifespan_dies_of_age_despite_full_health() {
    let mut tank = Tank::new(80, 24);
    // one tick from its species' lifespan of 10000
    tank.add_fish(Fish::from_parts(11, "Goldfish".to_string(), (10, 5), Direction::Right, 0, 100, 9999, 0));
    tank.tick();
    assert_eq!(tank.fish.len(), 0);
}

#[test]
fn unknown_species_is_exempt_from_death_by_age() {
    let mut tank = Tank::new(80, 24);
    tank.add_fish(Fish::from_parts(12, "Mystery".to_string(), (10, 5), Direction::Right, 0, 100, 99999, 0));
    tank.tick();
    assert_eq!(tank.fish.len(), 1);
    assert_eq!(tank.fish[0].age, 100000);
}

#[test]
fn feeding_zeroes_hunger_and_changes_nothing_else() {
    let mut tank = Tank::new(80, 24);
    tank.add_fish(Fish::from_parts(13, "Guppy".to_string(), (10, 5), Direction::Left, 77, 42, 9, 3));
    tank.add_fish(Fish::from_parts(14, "Betta".to_string(), (30, 10), Direction::Right, 100, 100, 0, 0));
    tank.feed();
    assert_eq!(tank.fish.len(), 2);
    assert_eq!(tank.fish[0].hunger, 0);
    assert_eq!(tank.fish[1].hunger, 0);
    assert_eq!(tank.fish[0].id, 13);
    assert_eq!(tank.fish[0].health, 42);
    assert_eq!(tank.fish[0].age, 9);
    assert_eq!(tank.fish[0].position, (10, 5));
    assert_eq!(tank.fish[0].direction, Direction::Left);
    assert_eq!(tank.fish[0].breeding_cooldown, 3);
}

#[test]
fn speed_ladder_saturates_at_both_ends() {
    let mut tank = Tank::from_parts(Vec::new(), 5, 0, (80, 24));
    for _ in 0..5 {
        tank.increase_speed();
    }
    assert_eq!(tank.simulation_speed_tenths, 100);
    for _ in 0..5 {
        tank.decrease_speed();
    }
    assert_eq!(tank.simulation_speed_tenths, 5);
}

#[test]
fn speed_steps_through_the_fixed_ladder() {
    let mut tank = Tank::new(80, 24);
    assert_eq!(tank.simulation_speed_tenths, 10);
    tank.increase_speed();
    assert_eq!(tank.simulation_speed_tenths, 20);
    tank.increase_speed();
    assert_eq!(tank.simulation_speed_tenths, 50);
    tank.decrease_speed();
    assert_eq!(tank.simulation_speed_tenths, 20);
    // a value off the ladder is left alone in both directions
    let mut odd = Tank::from_parts(Vec::new(), 37, 0, (80, 24));
    odd.increase_speed();
    assert_eq!(odd.simulation_speed_tenths, 37);
    odd.decrease_speed();
    assert_eq!(odd.simulation_speed_tenths, 37);
}

#[test]
fn add_get_and_remove_fish() {
    let mut tank = Tank::new(80, 24);
    tank.add_fish(Fish::from_parts(21, "Guppy".to_string(), (1, 1), Direction::Right, 0, 100, 0, 0));
    tank.add_fish(Fish::from_parts(22, "Betta".to_string(), (2, 2), Direction::Right, 0, 100, 0, 0));
    assert_eq!(tank.get_fish(21).map(|f| f.species.as_str()), Some("Guppy"));
    assert_eq!(tank.get_fish(22).map(|f| f.species.as_str()), Some("Betta"));
    assert!(tank.get_fish(99).is_none());
    tank.remove_fish(21);
    assert_eq!(tank.fish.len(), 1);
    assert!(tank.get_fish(21).is_none());
    // removing an absent identity is a silent no-op
    tank.remove_fish(21);
    assert_eq!(tank.fish.len(), 1);
    assert_eq!(tank.fish[0].id, 22);
}

#[test]
fn rebuilt_tank_ticks_exactly_as_the_original() {
    let mut tank = Tank::from_parts(Vec::new(), 20, 4, (80, 24));
    tank.add_fish(Fish::from_parts(31, "Angelfish".to_string(), (10, 5), Direction::Right, 60, 80, 7, 2));
    for _ in 0..2 {
        tank.tick();
    }

    // reconstruct from the recorded fields alone, as loading a save would
    let mut copied = Vec::new();
    for f in &tank.fish {
        copied.push(Fish::from_parts(
            f.id,
            f.species.clone(),
            f.position,
            f.direction,
            f.hunger,
            f.health,
            f.age,
            f.breeding_cooldown,
        ));
    }
    let mut rebuilt = Tank::from_parts(
        copied,
        tank.simulation_speed_tenths,
        tank.tick_count,
        tank.dimensions,
    );
    assert_eq!(rebuilt.tick_count, tank.tick_count);

    // both runs continue identically, drift phase included
    for _ in 0..21 {
        tank.tick();
        rebuilt.tick();
        assert_eq!(tank.tick_count, rebuilt.tick_count);
        assert_eq!(tank.fish.len(), rebuilt.fish.len());
        for (x, y) in tank.fish.iter().zip(rebuilt.fish.iter()) {
            assert_eq!(x.id, y.id);
            assert_eq!(x.species, y.species);
            assert_eq!(x.position, y.position);
            assert_eq!(x.direction, y.direction);
            assert_eq!(x.hunger, y.hunger);
            assert_eq!(x.health, y.health);
            assert_eq!(x.age, y.age);
            assert_eq!(x.breeding_cooldown, y.breeding_cooldown);
        }
    }
}

#[test]
fn offspring_position_is_clamped_to_the_tank() {
    let mut tank = Tank::new(20, 8);
    // parents at the right margin: width - 8 = 12, clamp bound width - 10 = 10
    tank.add_fish(Fish::from_parts(41, "Guppy".to_string(), (12, 6), Direction::Right, 0, 100, 0, 0));
    tank.add_fish(Fish::from_parts(42, "Guppy".to_string(), (12, 6), Direction::Right, 0, 100, 0, 0));
    tank.tick();
    assert_eq!(tank.fish.len(), 3);
    let baby = &tank.fish[2];
    // parent steps to the margin bound and flips; offspring clamps to
    // (width - 10, height - 5)
    assert_eq!(baby.position, (10, 3));
}

#[test]
fn hunger_gain_rounds_down_to_whole_points() {
    // a Guppy gains 0.2 hunger points per tick, stored rounded down: the
    // stored whole-point value is unchanged by a single tick
    let mut tank = Tank::new(80, 24);
    tank.add_fish(Fish::from_parts(51, "Guppy".to_string(), (10, 5), Direction::Right, 30, 100, 0, 600));
    tank.tick();
    assert_eq!(tank.fish[0].hunger, 30);
}
