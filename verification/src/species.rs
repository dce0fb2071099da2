//! The species catalog: a fixed, read-only table of per-species traits.
//! Hunger accrual is recorded in tenths of a hunger point per ten ticks
//! (`hunger_rate_tenths`), so that all trait data is integral.

use vstd::prelude::*;
use vstd::string::StringExecFns;

verus! {

/// The mathematical image of one species record: string data is modelled as
/// character sequences, everything else kept at its concrete width.
pub ghost struct SpeciesTraits {
    pub name: Seq<char>,
    pub sprite_left: Seq<char>,
    pub sprite_right: Seq<char>,
    pub hunger_rate_tenths: u16,
    pub base_health: u8,
    pub lifespan: u64,
    pub breeding_cooldown: u32,
}

/// Immutable trait data for one fish species. Values handed out by the
/// catalog are independent copies, safe to hold on to.
#[derive(Debug)]
pub struct Species {
    pub name: String,
    pub sprite_left: String,
    pub sprite_right: String,
    pub hunger_rate_tenths: u16,
    pub base_health: u8,
    pub lifespan: u64,
    pub breeding_cooldown: u32,
}

impl View for Species {
    type V = SpeciesTraits;

    open spec fn view(&self) -> SpeciesTraits {
        SpeciesTraits {
            name: self.name@,
            sprite_left: self.sprite_left@,
            sprite_right: self.sprite_right@,
            hunger_rate_tenths: self.hunger_rate_tenths,
            base_health: self.base_health,
            lifespan: self.lifespan,
            breeding_cooldown: self.breeding_cooldown,
        }
    }
}

impl Species {
    pub fn new(
        name: String,
        sprite_left: String,
        sprite_right: String,
        hunger_rate_tenths: u16,
        base_health: u8,
        lifespan: u64,
        breeding_cooldown: u32,
    ) -> (r: Species)
        ensures
            r@ == (SpeciesTraits {
                name: name@,
                sprite_left: sprite_left@,
                sprite_right: sprite_right@,
                hunger_rate_tenths,
                base_health,
                lifespan,
                breeding_cooldown,
            }),
    {
        Species { name, sprite_left, sprite_right, hunger_rate_tenths, base_health, lifespan, breeding_cooldown }
    }
}

/// The full catalog, in its fixed order.
pub open spec fn catalog() -> Seq<SpeciesTraits> {
    seq![
        SpeciesTraits {
            name: "Goldfish"@,
            sprite_left: "<><"@,
            sprite_right: "><>"@,
            hunger_rate_tenths: 5,
            base_health: 100,
            lifespan: 10000,
            breeding_cooldown: 500,
        },
        SpeciesTraits {
            name: "Guppy"@,
            sprite_left: "<o"@,
            sprite_right: "o>"@,
            hunger_rate_tenths: 20,
            base_health: 60,
            lifespan: 3000,
            breeding_cooldown: 200,
        },
        SpeciesTraits {
            name: "Betta"@,
            sprite_left: "<)))<"@,
            sprite_right: ">((()>"@,
            hunger_rate_tenths: 10,
            base_health: 80,
            lifespan: 6000,
            breeding_cooldown: 400,
        },
        SpeciesTraits {
            name: "Tetra"@,
            sprite_left: "<*"@,
            sprite_right: "*>"@,
            hunger_rate_tenths: 15,
            base_health: 50,
            lifespan: 5000,
            breeding_cooldown: 300,
        },
        SpeciesTraits {
            name: "Angelfish"@,
            sprite_left: "<^>"@,
            sprite_right: "<^>"@,
            hunger_rate_tenths: 8,
            base_health: 90,
            lifespan: 8000,
            breeding_cooldown: 450,
        },
    ]
}

/// The first catalog entry at or after index `i` whose name is `name`.
pub open spec fn find_from(s: Seq<SpeciesTraits>, name: Seq<char>, i: int) -> Option<SpeciesTraits>
    decreases s.len() - i,
{
    if i < 0 || i >= s.len() {
        None
    } else if s[i].name == name {
        Some(s[i])
    } else {
        find_from(s, name, i + 1)
    }
}

/// The catalog entry called `name`, if any.
pub open spec fn find_species(name: Seq<char>) -> Option<SpeciesTraits> {
    find_from(catalog(), name, 0)
}

/// The full fixed list of species, in catalog order.
pub fn get_all_species() -> (r: Vec<Species>)
    ensures
        r@.len() == catalog().len(),
        forall|i: int| 0 <= i < r@.len() ==> (#[trigger] r@[i])@ == catalog()[i],
{
    let mut v: Vec<Species> = Vec::new();
    v.push(Species::new(
        String::from_str("Goldfish"),
        String::from_str("<><"),
        String::from_str("><>"),
        5,
        100,
        10000,
        500,
    ));
    v.push(Species::new(
        String::from_str("Guppy"),
        String::from_str("<o"),
        String::from_str("o>"),
        20,
        60,
        3000,
        200,
    ));
    v.push(Species::new(
        String::from_str("Betta"),
        String::from_str("<)))<"),
        String::from_str(">((()>"),
        10,
        80,
        6000,
        400,
    ));
    v.push(Species::new(
        String::from_str("Tetra"),
        String::from_str("<*"),
        String::from_str("*>"),
        15,
        50,
        5000,
        300,
    ));
    v.push(Species::new(
        String::from_str("Angelfish"),
        String::from_str("<^>"),
        String::from_str("<^>"),
        8,
        90,
        8000,
        450,
    ));
    v
}

/// The species called `name`, or `None` when the catalog has no such entry.
pub fn get_species(name: &str) -> (r: Option<Species>)
    ensures
        (match find_species(name@) {
            Some(t) => r matches Some(sp) && sp@ == t,
            None => r is None,
        }),
{
    let key = String::from_str(name);
    let mut all = get_all_species();
    let mut i: usize = 0;
    while i < all.len()
        invariant
            key@ == name@,
            all@.len() == catalog().len(),
            forall|k: int| 0 <= k < all@.len() ==> (#[trigger] all@[k])@ == catalog()[k],
            0 <= i <= all@.len(),
            find_species(name@) == find_from(catalog(), name@, i as int),
        decreases all@.len() - i,
    {
        if all[i].name == key {
            assert(find_from(catalog(), name@, i as int) == Some(catalog()[i as int]));
            return Some(all.remove(i));
        }
        i = i + 1;
    }
    None
}

proof fn lemma_find_from_member(s: Seq<SpeciesTraits>, name: Seq<char>, i: int)
    ensures
        (match find_from(s, name, i) {
            None => true,
            Some(t) => t.name == name && exists|j: int| i <= j < s.len() && s[j] == t,
        }),
    decreases s.len() - i,
{
    if i < 0 || i >= s.len() {
    } else if s[i].name == name {
        assert(i <= i < s.len() && s[i] == find_from(s, name, i)->Some_0);
    } else {
        lemma_find_from_member(s, name, i + 1);
    }
}

/// Whatever name is looked up, a found species has the looked-up name, a
/// positive lifespan, and a hunger rate below one whole point per tick.
pub proof fn lemma_found_species_traits(name: Seq<char>)
    ensures
        (match find_species(name) {
            None => true,
            Some(t) => t.name == name && 0 < t.lifespan && 0 < t.hunger_rate_tenths < 100,
        }),
{
    lemma_find_from_member(catalog(), name, 0);
    if find_species(name) is Some {
        let t = find_species(name)->Some_0;
        let j = choose|j: int| 0 <= j < catalog().len() && catalog()[j] == t;
        assert(0 < t.lifespan && 0 < t.hunger_rate_tenths < 100);
    }
}

/// Law: looking up any catalogued name finds exactly that entry — the names
/// are unique across the catalog, so the scan never stops early at another.
pub proof fn lemma_catalog_lookup(i: int)
    requires
        0 <= i < catalog().len(),
    ensures
        find_species(catalog()[i].name) == Some(catalog()[i]),
{
    reveal_strlit("Goldfish");
    reveal_strlit("Guppy");
    reveal_strlit("Betta");
    reveal_strlit("Tetra");
    reveal_strlit("Angelfish");
    // the five names differ pairwise, by length or by a leading character
    assert("Goldfish"@.len() == 8 && "Guppy"@.len() == 5 && "Betta"@.len() == 5
        && "Tetra"@.len() == 5 && "Angelfish"@.len() == 9);
    assert("Guppy"@[0] == 'G' && "Betta"@[0] == 'B' && "Tetra"@[0] == 'T');
    let c = catalog();
    let name = c[i].name;
    if i == 0 {
        assert(find_from(c, name, 0) == Some(c[0]));
    } else if i == 1 {
        assert(find_from(c, name, 0) == find_from(c, name, 1));
        assert(find_from(c, name, 1) == Some(c[1]));
    } else if i == 2 {
        assert(find_from(c, name, 0) == find_from(c, name, 1));
        assert(find_from(c, name, 1) == find_from(c, name, 2));
        assert(find_from(c, name, 2) == Some(c[2]));
    } else if i == 3 {
        assert(find_from(c, name, 0) == find_from(c, name, 1));
        assert(find_from(c, name, 1) == find_from(c, name, 2));
        assert(find_from(c, name, 2) == find_from(c, name, 3));
        assert(find_from(c, name, 3) == Some(c[3]));
    } else {
        assert(find_from(c, name, 0) == find_from(c, name, 1));
        assert(find_from(c, name, 1) == find_from(c, name, 2));
        assert(find_from(c, name, 2) == find_from(c, name, 3));
        assert(find_from(c, name, 3) == find_from(c, name, 4));
        assert(find_from(c, name, 4) == Some(c[4]));
    }
}

} // verus!
