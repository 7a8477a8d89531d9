//! The weapons and the four kinds of ammo: one table row per weapon.
use crate::abi::EntVars;
use crate::assets::Model;
use crate::defs::Items;
use crate::text::same_text;
use vstd::prelude::*;

verus! {

/// The ammo pools.
#[derive(Clone, Copy, PartialEq, Eq, Debug, Structural)]
pub enum AmmoKind {
    Shells,
    Nails,
    Rockets,
    Cells,
}

/// What the rules know about one weapon.
#[derive(Clone, Copy, Debug)]
pub struct WeaponSpec {
    /// The `Items` bit that owning the weapon sets.
    pub item: i32,
    /// Class of the map pickup; the starting weapons and the hook have none.
    pub classname: Option<&'static str>,
    pub pickup_model: Option<Model>,
    /// Name shown when the weapon is picked up, and when it is found in a backpack.
    pub pickup_name: &'static str,
    pub backpack_name: &'static str,
    /// The ammo it fires; the axe and the hook fire none.
    pub ammo_kind: Option<AmmoKind>,
    /// Ammo that comes with the pickup.
    pub pickup_ammo: i32,
    pub view_model: Model,
    /// The `Items` bit of the ammo shown while the weapon is held.
    pub ammo_bit: i32,
    /// Worth, lower is better.
    pub rank: i32,
    /// Number by which players limit automatic switching.
    pub switch_code: i32,
    /// Ammo needed for one shot.
    pub min_ammo: i32,
    /// Place in the order in which a weapon is chosen automatically. Explosives, the axe and the
    /// hook are never chosen so.
    pub auto_pick: Option<u8>,
}

/// How many weapons there are.
pub const WEAPON_COUNT: usize = 9;

/// Row `i` of the weapon table.
pub open spec fn weapon_table(i: int) -> WeaponSpec {
    if i == 0 {
        WeaponSpec {
            item: Items::AXE,
            classname: None,
            pickup_model: None,
            pickup_name: "Axe",
            backpack_name: "Axe",
            ammo_kind: None,
            pickup_ammo: 0,
            view_model: Model::PROGS_V_AXE,
            ammo_bit: 0,
            rank: 7,
            switch_code: 1,
            min_ammo: 0,
            auto_pick: None,
        }
    } else if i == 1 {
        WeaponSpec {
            item: Items::SHOTGUN,
            classname: None,
            pickup_model: None,
            pickup_name: "Shotgun",
            backpack_name: "Shotgun",
            ammo_kind: Some(AmmoKind::Shells),
            pickup_ammo: 0,
            view_model: Model::PROGS_V_SHOT,
            ammo_bit: Items::SHELLS,
            rank: 7,
            switch_code: 1,
            min_ammo: 1,
            auto_pick: Some(4),
        }
    } else if i == 2 {
        WeaponSpec {
            item: Items::SUPER_SHOTGUN,
            classname: Some("weapon_supershotgun"),
            pickup_model: Some(Model::PROGS_G_SHOT),
            pickup_name: "Double-barrelled Shotgun",
            backpack_name: "Double-barrelled Shotgun",
            ammo_kind: Some(AmmoKind::Shells),
            pickup_ammo: 5,
            view_model: Model::PROGS_V_SHOT2,
            ammo_bit: Items::SHELLS,
            rank: 5,
            switch_code: 3,
            min_ammo: 2,
            auto_pick: Some(2),
        }
    } else if i == 3 {
        WeaponSpec {
            item: Items::NAILGUN,
            classname: Some("weapon_nailgun"),
            pickup_model: Some(Model::PROGS_G_NAIL),
            pickup_name: "nailgun",
            backpack_name: "Nailgun",
            ammo_kind: Some(AmmoKind::Nails),
            pickup_ammo: 30,
            view_model: Model::PROGS_V_NAIL,
            ammo_bit: Items::NAILS,
            rank: 6,
            switch_code: 4,
            min_ammo: 1,
            auto_pick: Some(3),
        }
    } else if i == 4 {
        WeaponSpec {
            item: Items::SUPER_NAILGUN,
            classname: Some("weapon_supernailgun"),
            pickup_model: Some(Model::PROGS_G_NAIL2),
            pickup_name: "Super Nailgun",
            backpack_name: "Super Nailgun",
            ammo_kind: Some(AmmoKind::Nails),
            pickup_ammo: 30,
            view_model: Model::PROGS_V_NAIL2,
            ammo_bit: Items::NAILS,
            rank: 3,
            switch_code: 5,
            min_ammo: 2,
            auto_pick: Some(1),
        }
    } else if i == 5 {
        WeaponSpec {
            item: Items::GRENADE_LAUNCHER,
            classname: Some("weapon_grenadelauncher"),
            pickup_model: Some(Model::PROGS_G_ROCK),
            pickup_name: "Grenade Launcher",
            backpack_name: "Grenade Launcher",
            ammo_kind: Some(AmmoKind::Rockets),
            pickup_ammo: 5,
            view_model: Model::PROGS_V_ROCK,
            ammo_bit: Items::ROCKETS,
            rank: 4,
            switch_code: 6,
            min_ammo: 1,
            auto_pick: None,
        }
    } else if i == 6 {
        WeaponSpec {
            item: Items::ROCKET_LAUNCHER,
            classname: Some("weapon_rocketlauncher"),
            pickup_model: Some(Model::PROGS_G_ROCK2),
            pickup_name: "Rocket Launcher",
            backpack_name: "Rocket Launcher",
            ammo_kind: Some(AmmoKind::Rockets),
            pickup_ammo: 5,
            view_model: Model::PROGS_V_ROCK2,
            ammo_bit: Items::ROCKETS,
            rank: 2,
            switch_code: 7,
            min_ammo: 1,
            auto_pick: None,
        }
    } else if i == 7 {
        WeaponSpec {
            item: Items::LIGHTNING,
            classname: Some("weapon_lightning"),
            pickup_model: Some(Model::PROGS_G_LIGHT),
            pickup_name: "Thunderbolt",
            backpack_name: "Thunderbolt",
            ammo_kind: Some(AmmoKind::Cells),
            pickup_ammo: 15,
            view_model: Model::PROGS_V_LIGHT,
            ammo_bit: Items::CELLS,
            rank: 1,
            switch_code: 8,
            min_ammo: 1,
            auto_pick: Some(0),
        }
    } else {
        WeaponSpec {
            item: Items::GRAPPLE,
            classname: None,
            pickup_model: None,
            pickup_name: "Grappling Hook",
            backpack_name: "Grappling Hook",
            ammo_kind: None,
            pickup_ammo: 0,
            view_model: Model::PROGS_V_STAR,
            ammo_bit: 0,
            rank: 8,
            switch_code: 0,
            min_ammo: 0,
            auto_pick: None,
        }
    }
}

fn weapon_row(i: usize) -> (r: WeaponSpec)
    ensures
        r == weapon_table(i as int),
{
    match i {
        0 => WeaponSpec {
            item: Items::AXE,
            classname: None,
            pickup_model: None,
            pickup_name: "Axe",
            backpack_name: "Axe",
            ammo_kind: None,
            pickup_ammo: 0,
            view_model: Model::PROGS_V_AXE,
            ammo_bit: 0,
            rank: 7,
            switch_code: 1,
            min_ammo: 0,
            auto_pick: None,
        },
        1 => WeaponSpec {
            item: Items::SHOTGUN,
            classname: None,
            pickup_model: None,
            pickup_name: "Shotgun",
            backpack_name: "Shotgun",
            ammo_kind: Some(AmmoKind::Shells),
            pickup_ammo: 0,
            view_model: Model::PROGS_V_SHOT,
            ammo_bit: Items::SHELLS,
            rank: 7,
            switch_code: 1,
            min_ammo: 1,
            auto_pick: Some(4),
        },
        2 => WeaponSpec {
            item: Items::SUPER_SHOTGUN,
            classname: Some("weapon_supershotgun"),
            pickup_model: Some(Model::PROGS_G_SHOT),
            pickup_name: "Double-barrelled Shotgun",
            backpack_name: "Double-barrelled Shotgun",
            ammo_kind: Some(AmmoKind::Shells),
            pickup_ammo: 5,
            view_model: Model::PROGS_V_SHOT2,
            ammo_bit: Items::SHELLS,
            rank: 5,
            switch_code: 3,
            min_ammo: 2,
            auto_pick: Some(2),
        },
        3 => WeaponSpec {
            item: Items::NAILGUN,
            classname: Some("weapon_nailgun"),
            pickup_model: Some(Model::PROGS_G_NAIL),
            pickup_name: "nailgun",
            backpack_name: "Nailgun",
            ammo_kind: Some(AmmoKind::Nails),
            pickup_ammo: 30,
            view_model: Model::PROGS_V_NAIL,
            ammo_bit: Items::NAILS,
            rank: 6,
            switch_code: 4,
            min_ammo: 1,
            auto_pick: Some(3),
        },
        4 => WeaponSpec {
            item: Items::SUPER_NAILGUN,
            classname: Some("weapon_supernailgun"),
            pickup_model: Some(Model::PROGS_G_NAIL2),
            pickup_name: "Super Nailgun",
            backpack_name: "Super Nailgun",
            ammo_kind: Some(AmmoKind::Nails),
            pickup_ammo: 30,
            view_model: Model::PROGS_V_NAIL2,
            ammo_bit: Items::NAILS,
            rank: 3,
            switch_code: 5,
            min_ammo: 2,
            auto_pick: Some(1),
        },
        5 => WeaponSpec {
            item: Items::GRENADE_LAUNCHER,
            classname: Some("weapon_grenadelauncher"),
            pickup_model: Some(Model::PROGS_G_ROCK),
            pickup_name: "Grenade Launcher",
            backpack_name: "Grenade Launcher",
            ammo_kind: Some(AmmoKind::Rockets),
            pickup_ammo: 5,
            view_model: Model::PROGS_V_ROCK,
            ammo_bit: Items::ROCKETS,
            rank: 4,
            switch_code: 6,
            min_ammo: 1,
            auto_pick: None,
        },
        6 => WeaponSpec {
            item: Items::ROCKET_LAUNCHER,
            classname: Some("weapon_rocketlauncher"),
            pickup_model: Some(Model::PROGS_G_ROCK2),
            pickup_name: "Rocket Launcher",
            backpack_name: "Rocket Launcher",
            ammo_kind: Some(AmmoKind::Rockets),
            pickup_ammo: 5,
            view_model: Model::PROGS_V_ROCK2,
            ammo_bit: Items::ROCKETS,
            rank: 2,
            switch_code: 7,
            min_ammo: 1,
            auto_pick: None,
        },
        7 => WeaponSpec {
            item: Items::LIGHTNING,
            classname: Some("weapon_lightning"),
            pickup_model: Some(Model::PROGS_G_LIGHT),
            pickup_name: "Thunderbolt",
            backpack_name: "Thunderbolt",
            ammo_kind: Some(AmmoKind::Cells),
            pickup_ammo: 15,
            view_model: Model::PROGS_V_LIGHT,
            ammo_bit: Items::CELLS,
            rank: 1,
            switch_code: 8,
            min_ammo: 1,
            auto_pick: Some(0),
        },
        _ => WeaponSpec {
            item: Items::GRAPPLE,
            classname: None,
            pickup_model: None,
            pickup_name: "Grappling Hook",
            backpack_name: "Grappling Hook",
            ammo_kind: None,
            pickup_ammo: 0,
            view_model: Model::PROGS_V_STAR,
            ammo_bit: 0,
            rank: 8,
            switch_code: 0,
            min_ammo: 0,
            auto_pick: None,
        },
    }
}

/// The row of the weapon with item bit `item`.
pub open spec fn row_of_item(item: i32) -> Option<WeaponSpec> {
    if item == Items::AXE {
        Some(weapon_table(0))
    } else if item == Items::SHOTGUN {
        Some(weapon_table(1))
    } else if item == Items::SUPER_SHOTGUN {
        Some(weapon_table(2))
    } else if item == Items::NAILGUN {
        Some(weapon_table(3))
    } else if item == Items::SUPER_NAILGUN {
        Some(weapon_table(4))
    } else if item == Items::GRENADE_LAUNCHER {
        Some(weapon_table(5))
    } else if item == Items::ROCKET_LAUNCHER {
        Some(weapon_table(6))
    } else if item == Items::LIGHTNING {
        Some(weapon_table(7))
    } else if item == Items::GRAPPLE {
        Some(weapon_table(8))
    } else {
        None
    }
}

/// The row for a weapon's item bit, if it is one.
pub fn weapon_spec(item: i32) -> (r: Option<WeaponSpec>)
    ensures
        r == row_of_item(item),
        r is None <==> forall|i: int| 0 <= i < WEAPON_COUNT ==> (#[trigger] weapon_table(i)).item != item,
{
    let mut i: usize = 0;
    proof {
        lemma_item_bits();
    }
    while i < WEAPON_COUNT
        invariant
            i <= WEAPON_COUNT,
            forall|j: int| 0 <= j < i ==> (#[trigger] weapon_table(j)).item != item,
        decreases WEAPON_COUNT - i,
    {
        let row = weapon_row(i);
        if row.item == item {
            proof {
                lemma_item_bits();
                assert(weapon_table(i as int).item == item);
                assert(i == 0 || i == 1 || i == 2 || i == 3 || i == 4 || i == 5 || i == 6 || i == 7 || i == 8);
            }
            return Some(row);
        }
        i = i + 1;
    }
    proof {
        assert(forall|j: int| 0 <= j < 9 ==> (#[trigger] weapon_table(j)).item != item);
        assert(weapon_table(0).item != item);
        assert(weapon_table(1).item != item);
        assert(weapon_table(2).item != item);
        assert(weapon_table(3).item != item);
        assert(weapon_table(4).item != item);
        assert(weapon_table(5).item != item);
        assert(weapon_table(6).item != item);
        assert(weapon_table(7).item != item);
        assert(weapon_table(8).item != item);
    }
    None
}

/// The numbers that the weapon bits stand for.
proof fn lemma_item_bits()
    ensures
        Items::AXE == 4096,
        Items::SHOTGUN == 1,
        Items::SUPER_SHOTGUN == 2,
        Items::NAILGUN == 4,
        Items::SUPER_NAILGUN == 8,
        Items::GRENADE_LAUNCHER == 16,
        Items::ROCKET_LAUNCHER == 32,
        Items::LIGHTNING == 64,
        Items::GRAPPLE == 128,
{
    crate::defs::bits_have_their_places();
}

/// The row of the map pickup of class `classname`.
pub open spec fn row_of_class(classname: Seq<char>) -> Option<WeaponSpec> {
    if classname == "weapon_supershotgun"@ {
        Some(weapon_table(2))
    } else if classname == "weapon_nailgun"@ {
        Some(weapon_table(3))
    } else if classname == "weapon_supernailgun"@ {
        Some(weapon_table(4))
    } else if classname == "weapon_grenadelauncher"@ {
        Some(weapon_table(5))
    } else if classname == "weapon_rocketlauncher"@ {
        Some(weapon_table(6))
    } else if classname == "weapon_lightning"@ {
        Some(weapon_table(7))
    } else {
        None
    }
}

/// The row for the class of a map pickup, if it is one of a weapon.
pub fn weapon_spec_for_classname(classname: &str) -> (r: Option<WeaponSpec>)
    ensures
        r == row_of_class(classname@),
{
    if same_text(classname, "weapon_supershotgun") {
        Some(weapon_row(2))
    } else if same_text(classname, "weapon_nailgun") {
        Some(weapon_row(3))
    } else if same_text(classname, "weapon_supernailgun") {
        Some(weapon_row(4))
    } else if same_text(classname, "weapon_grenadelauncher") {
        Some(weapon_row(5))
    } else if same_text(classname, "weapon_rocketlauncher") {
        Some(weapon_row(6))
    } else if same_text(classname, "weapon_lightning") {
        Some(weapon_row(7))
    } else {
        None
    }
}

/// What a fighter holds of one ammo kind.
pub open spec fn ammo_held(v: EntVars, kind: AmmoKind) -> i32 {
    match kind {
        AmmoKind::Shells => v.ammo_shells,
        AmmoKind::Nails => v.ammo_nails,
        AmmoKind::Rockets => v.ammo_rockets,
        AmmoKind::Cells => v.ammo_cells,
    }
}

pub fn ammo_count(v: &EntVars, kind: AmmoKind) -> (r: i32)
    ensures
        r == ammo_held(*v, kind),
{
    match kind {
        AmmoKind::Shells => v.ammo_shells,
        AmmoKind::Nails => v.ammo_nails,
        AmmoKind::Rockets => v.ammo_rockets,
        AmmoKind::Cells => v.ammo_cells,
    }
}

/// Whether row `i` is chosen at place `place` of the automatic order.
pub open spec fn picked_at(i: int, place: int) -> bool {
    0 <= i < WEAPON_COUNT && (weapon_table(i).auto_pick matches Some(p) && p == place)
}

/// Whether `row` is the one chosen at `place`.
pub open spec fn holds_place(row: WeaponSpec, place: int) -> bool {
    exists|i: int| #[trigger] picked_at(i, place) && row == weapon_table(i)
}

/// The row chosen at `place`, if there is one.
fn row_at_place(place: u8) -> (r: Option<WeaponSpec>)
    ensures
        match r {
            Some(row) => holds_place(row, place as int),
            None => forall|i: int| !#[trigger] picked_at(i, place as int),
        },
{
    let mut i: usize = 0;
    while i < WEAPON_COUNT
        invariant
            i <= WEAPON_COUNT,
            forall|j: int| 0 <= j < i ==> !#[trigger] picked_at(j, place as int),
        decreases WEAPON_COUNT - i,
    {
        let row = weapon_row(i);
        let here: bool = match row.auto_pick {
            Some(p) => p == place,
            None => false,
        };
        if here {
            assert(picked_at(i as int, place as int));
            return Some(row);
        }
        i = i + 1;
    }
    None
}

/// The table gives each of the first five places to one weapon, and no weapon a later place.
proof fn lemma_places(row: WeaponSpec, place: int)
    ensures
        picked_at(7, 0) && picked_at(4, 1) && picked_at(2, 2) && picked_at(3, 3) && picked_at(1, 4),
        holds_place(row, place) ==> 0 <= place < 5,
        holds_place(row, 0) ==> row == weapon_table(7),
        holds_place(row, 1) ==> row == weapon_table(4),
        holds_place(row, 2) ==> row == weapon_table(2),
        holds_place(row, 3) ==> row == weapon_table(3),
        holds_place(row, 4) ==> row == weapon_table(1),
{
}

/// The weapons that may be chosen automatically, best first. The chain ends where no weapon holds
/// the next place.
pub fn auto_pick_chain() -> (r: Vec<WeaponSpec>)
    ensures
        r@ == seq![weapon_table(7), weapon_table(4), weapon_table(2), weapon_table(3), weapon_table(1)],
        forall|k: int| 0 <= k < r@.len() ==> holds_place(#[trigger] r@[k], k),
        forall|i: int| !#[trigger] picked_at(i, r@.len() as int),
{
    let mut r: Vec<WeaponSpec> = Vec::new();
    let mut place: u8 = 0;
    let mut next: Option<WeaponSpec> = row_at_place(0);
    while next.is_some()
        invariant
            place <= 5,
            r@.len() == place,
            match next {
                Some(row) => holds_place(row, place as int),
                None => forall|i: int| !#[trigger] picked_at(i, place as int),
            },
            forall|k: int| 0 <= k < r@.len() ==> holds_place(#[trigger] r@[k], k),
        decreases 5 - place,
    {
        let row: WeaponSpec = next.unwrap();
        proof {
            lemma_places(row, place as int);
        }
        r.push(row);
        place = place + 1;
        next = row_at_place(place);
    }
    proof {
        assert(picked_at(7, 0) && picked_at(4, 1) && picked_at(2, 2) && picked_at(3, 3) && picked_at(1, 4));
        assert(r@.len() == 5);
        lemma_places(r@[0], 0);
        lemma_places(r@[1], 1);
        lemma_places(r@[2], 2);
        lemma_places(r@[3], 3);
        lemma_places(r@[4], 4);
    }
    assert(r@ =~= seq![weapon_table(7), weapon_table(4), weapon_table(2), weapon_table(3), weapon_table(1)]);
    r
}

/// What each weapon fires, how much of it a shot takes and a pickup brings, and how it is ranked.
pub proof fn weapons_have_their_worth()
    ensures
        row_of_item(Items::AXE) matches Some(r) && r.rank == 7 && r.switch_code == 1 && r.ammo_kind is None && r.min_ammo
            == 0 && r.ammo_bit == 0 && r.auto_pick is None,
        row_of_item(Items::SHOTGUN) matches Some(r) && r.rank == 7 && r.switch_code == 1 && r.ammo_kind == Some(
            AmmoKind::Shells,
        ) && r.min_ammo == 1 && r.ammo_bit == Items::SHELLS && r.auto_pick == Some(4u8),
        row_of_item(Items::SUPER_SHOTGUN) matches Some(r) && r.rank == 5 && r.switch_code == 3 && r.ammo_kind == Some(
            AmmoKind::Shells,
        ) && r.min_ammo == 2 && r.pickup_ammo == 5 && r.ammo_bit == Items::SHELLS && r.auto_pick == Some(2u8),
        row_of_item(Items::NAILGUN) matches Some(r) && r.rank == 6 && r.switch_code == 4 && r.ammo_kind == Some(
            AmmoKind::Nails,
        ) && r.min_ammo == 1 && r.pickup_ammo == 30 && r.ammo_bit == Items::NAILS && r.auto_pick == Some(3u8),
        row_of_item(Items::SUPER_NAILGUN) matches Some(r) && r.rank == 3 && r.switch_code == 5 && r.ammo_kind == Some(
            AmmoKind::Nails,
        ) && r.min_ammo == 2 && r.pickup_ammo == 30 && r.ammo_bit == Items::NAILS && r.auto_pick == Some(1u8),
        row_of_item(Items::GRENADE_LAUNCHER) matches Some(r) && r.rank == 4 && r.switch_code == 6 && r.ammo_kind == Some(
            AmmoKind::Rockets,
        ) && r.min_ammo == 1 && r.pickup_ammo == 5 && r.ammo_bit == Items::ROCKETS && r.auto_pick is None,
        row_of_item(Items::ROCKET_LAUNCHER) matches Some(r) && r.rank == 2 && r.switch_code == 7 && r.ammo_kind == Some(
            AmmoKind::Rockets,
        ) && r.min_ammo == 1 && r.pickup_ammo == 5 && r.ammo_bit == Items::ROCKETS && r.auto_pick is None,
        row_of_item(Items::LIGHTNING) matches Some(r) && r.rank == 1 && r.switch_code == 8 && r.ammo_kind == Some(
            AmmoKind::Cells,
        ) && r.min_ammo == 1 && r.pickup_ammo == 15 && r.ammo_bit == Items::CELLS && r.auto_pick == Some(0u8),
        row_of_item(Items::GRAPPLE) matches Some(r) && r.rank == 8 && r.switch_code == 0 && r.ammo_kind is None
            && r.min_ammo == 0 && r.ammo_bit == 0 && r.auto_pick is None,
{
    lemma_item_bits();
}

/// A row is the row of its own bit, and the row of its own class.
pub proof fn rows_are_found_by_bit_and_class(item: i32, class: Seq<char>)
    ensures
        row_of_item(item) matches Some(r) ==> r.item == item,
        row_of_class(class) matches Some(r) ==> r.classname matches Some(c) && c@ == class,
        row_of_class(class) matches Some(r) ==> row_of_item(r.item) == Some(r),
        row_of_item(item) matches Some(r) ==> (r.classname matches Some(c) ==> row_of_class(c@) == Some(r)),
{
    lemma_item_bits();
    reveal_strlit("weapon_supershotgun");
    reveal_strlit("weapon_nailgun");
    reveal_strlit("weapon_supernailgun");
    reveal_strlit("weapon_grenadelauncher");
    reveal_strlit("weapon_rocketlauncher");
    reveal_strlit("weapon_lightning");
    assert("weapon_supershotgun"@.len() == 19 && "weapon_nailgun"@.len() == 14 && "weapon_supernailgun"@.len() == 19);
    assert("weapon_grenadelauncher"@.len() == 22 && "weapon_rocketlauncher"@.len() == 21 && "weapon_lightning"@.len()
        == 16);
    assert("weapon_supershotgun"@[12] != "weapon_supernailgun"@[12]);
}

/// Shells, nails, rockets and cells are counted each on its own.
pub proof fn ammo_is_counted_by_kind(v: EntVars)
    ensures
        ammo_held(v, AmmoKind::Shells) == v.ammo_shells,
        ammo_held(v, AmmoKind::Nails) == v.ammo_nails,
        ammo_held(v, AmmoKind::Rockets) == v.ammo_rockets,
        ammo_held(v, AmmoKind::Cells) == v.ammo_cells,
{
}

/// The weapons that are chosen automatically, best first: thunderbolt, super nailgun, super shotgun,
/// nailgun, shotgun; no other has a place.
pub proof fn automatic_choices_have_their_order(row: WeaponSpec, place: int)
    ensures
        holds_place(row, 0) <==> Some(row) == row_of_item(Items::LIGHTNING),
        holds_place(row, 1) <==> Some(row) == row_of_item(Items::SUPER_NAILGUN),
        holds_place(row, 2) <==> Some(row) == row_of_item(Items::SUPER_SHOTGUN),
        holds_place(row, 3) <==> Some(row) == row_of_item(Items::NAILGUN),
        holds_place(row, 4) <==> Some(row) == row_of_item(Items::SHOTGUN),
        place < 0 || place > 4 ==> !holds_place(row, place),
{
    lemma_item_bits();
    lemma_places(row, place);
    lemma_places(row, 0);
    assert(picked_at(7, 0) && picked_at(4, 1) && picked_at(2, 2) && picked_at(3, 3) && picked_at(1, 4));
}

} // verus!
