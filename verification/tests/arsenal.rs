//! The weapon table.
use rtx::abi::EntVars;
use rtx::arsenal::{ammo_count, auto_pick_chain, weapon_spec, weapon_spec_for_classname, AmmoKind};
use rtx::defs::Items;

/// Pins the ammo each weapon needs to fire.
#[test]
fn min_ammo_matches_stock() {
    let expect = [
        (Items::AXE, 0),
        (Items::SHOTGUN, 1),
        (Items::SUPER_SHOTGUN, 2),
        (Items::NAILGUN, 1),
        (Items::SUPER_NAILGUN, 2),
        (Items::GRENADE_LAUNCHER, 1),
        (Items::ROCKET_LAUNCHER, 1),
        (Items::LIGHTNING, 1),
        (Items::GRAPPLE, 0),
    ];
    for (item, min) in expect {
        assert_eq!(weapon_spec(item).unwrap().min_ammo, min, "min_ammo for {item:?}");
    }
}

/// Explosives and the axe are never picked by themselves.
#[test]
fn auto_pick_chain_is_stock_order() {
    let chain: Vec<i32> = auto_pick_chain().into_iter().map(|s| s.item).collect();
    assert_eq!(
        chain,
        vec![
            Items::LIGHTNING,
            Items::SUPER_NAILGUN,
            Items::SUPER_SHOTGUN,
            Items::NAILGUN,
            Items::SHOTGUN,
        ]
    );
}

#[test]
fn weapons_are_found_by_class() {
    assert_eq!(weapon_spec_for_classname("weapon_rocketlauncher").unwrap().item, Items::ROCKET_LAUNCHER);
    assert_eq!(weapon_spec_for_classname("weapon_lightning").unwrap().item, Items::LIGHTNING);
    assert!(weapon_spec_for_classname("weapon_bfg").is_none());
    assert!(weapon_spec(Items::QUAD).is_none());
}

#[test]
fn ammo_is_counted_by_kind() {
    let mut v = EntVars::cleared();
    v.ammo_shells = 1;
    v.ammo_nails = 2;
    v.ammo_rockets = 3;
    v.ammo_cells = 4;
    assert_eq!(ammo_count(&v, AmmoKind::Shells), 1);
    assert_eq!(ammo_count(&v, AmmoKind::Nails), 2);
    assert_eq!(ammo_count(&v, AmmoKind::Rockets), 3);
    assert_eq!(ammo_count(&v, AmmoKind::Cells), 4);
}
