//! Doors and their groups.
use rtx::defs::{DoorFlags, Items, MoveType, Solid, TakeDamage};
use rtx::doors::{
    door_blocked, door_go_down, door_go_up, door_hit_bottom, door_hit_top, place_door, play_door, spawn_func_door,
    spawn_func_door_secret, DoorBlock, DoorLink, DoorRing, DoorStep, DoorTouch, DoorUp,
};
use rtx::entity::{Blocked, Die, EntId, Entity, Think, Touch, Use, STATE_BOTTOM, STATE_DOWN, STATE_TOP, STATE_UP};
use rtx::game::GameState;

/// A door over `[x, x + 10]` units.
fn door(g: &mut GameState, i: usize, x: i32) {
    let e = &mut g.entities.slots[i];
    e.in_use = true;
    spawn_func_door(e, 0);
    e.v.mins = [x * 1_000, 0, 0];
    e.v.maxs = [(x + 10) * 1_000, 10_000, 100_000];
    place_door(e, [0, 0, 0], [0, 0, 90_000]);
}

/// Doors three and four touch, five stands apart.
fn hall() -> GameState {
    let mut g = GameState::new();
    door(&mut g, 3, 0);
    door(&mut g, 4, 10);
    door(&mut g, 5, 40);
    let p = &mut g.entities.slots[1];
    p.in_use = true;
    p.classname = Some("player".to_owned());
    p.v.health = 100;
    g.activator = EntId(1);
    g
}

#[test]
fn doors_get_their_defaults() {
    let mut e = Entity::cleared();
    e.v.health = 10;
    e.v.sounds = 2;
    e.v.spawnflags = DoorFlags::START_OPEN;
    spawn_func_door(&mut e, 1);
    assert_eq!((e.mover.speed, e.mover.wait, e.mover.lip, e.mover.dmg), (100_000, 3_000, 8_000, 2));
    assert_eq!((e.v.solid, e.v.movetype, e.v.max_health), (Solid::Bsp, MoveType::Push, 10));
    assert!(e.use_ == Use::DoorUse && e.blocked == Blocked::DoorBlocked && e.v.blocked == 1);
    assert_eq!(e.classname(), Some("door"));
    assert_eq!(play_door(&e, 1), Some("doors/hydro2.wav"));
    assert_eq!(play_door(&e, 2), Some("doors/hydro1.wav"));
    assert_eq!(play_door(&e, 3), Some("doors/runetry.wav"));
    assert_eq!(play_door(&e, 4), Some("doors/runeuse.wav"));
    assert!(place_door(&mut e, [1, 2, 3], [4, 5, 6]));
    assert_eq!((e.mover.pos1, e.mover.pos2), ([4, 5, 6], [1, 2, 3]));
    assert!(e.th_die == Die::DoorKilled && e.v.takedamage == TakeDamage::Yes);
    assert!(e.think == Think::DoorLink && e.v.nextthink == 100 && e.touch == Touch::DoorTouch);
    let mut s = Entity::cleared();
    spawn_func_door_secret(&mut s);
    assert_eq!((s.v.solid, s.v.movetype), (Solid::Bsp, MoveType::Push));
}

#[test]
fn key_doors_never_close() {
    let mut e = Entity::cleared();
    e.v.spawnflags = DoorFlags::GOLD_KEY;
    spawn_func_door(&mut e, 0);
    assert!(!place_door(&mut e, [0; 3], [9; 3]));
    assert_eq!((e.v.items, e.mover.wait), (Items::KEY2, -1_000));
    assert_eq!(door_blocked(&e), DoorBlock::Press);
}

#[test]
fn a_door_opens_and_closes() {
    let mut e = Entity::cleared();
    spawn_func_door(&mut e, 0);
    place_door(&mut e, [0; 3], [9; 3]);
    e.v.ltime = 5_000;
    assert_eq!(door_go_up(&mut e), DoorUp::Starts);
    assert_eq!(e.mover.state, STATE_UP);
    assert_eq!(door_go_up(&mut e), DoorUp::Opening);
    assert_eq!(door_blocked(&e), DoorBlock::Close);
    door_hit_top(&mut e);
    assert_eq!(e.mover.state, STATE_TOP);
    assert!(e.think == Think::DoorGoDown && e.v.nextthink == 8_000);
    e.v.ltime = 6_000;
    assert_eq!(door_go_up(&mut e), DoorUp::Open);
    assert_eq!(e.v.nextthink, 9_000);
    door_go_down(&mut e);
    assert_eq!(e.mover.state, STATE_DOWN);
    assert_eq!(door_blocked(&e), DoorBlock::Reopen);
    door_hit_bottom(&mut e);
    assert_eq!(e.mover.state, STATE_BOTTOM);
}

#[test]
fn touching_doors_form_a_ring() {
    let mut g = hall();
    assert_eq!(g.door_group(EntId(3)), vec![EntId(3), EntId(4)]);
    assert_eq!(g.door_link(EntId(3)), DoorLink::Group { field: true });
    let (a, b) = (&g.entities.slots[3], &g.entities.slots[4]);
    assert_eq!((a.owner(), b.owner()), (EntId(3), EntId(3)));
    assert_eq!((a.enemy(), b.enemy()), (EntId(4), EntId(3)));
    assert_eq!(g.door_link(EntId(4)), DoorLink::Already);
    assert_eq!(g.door_link(EntId(5)), DoorLink::Group { field: true });
    assert_eq!(g.entities.slots[5].enemy(), EntId(5));
    // The field reaches sixty units beyond the doors, eight up and down.
    assert_eq!(g.field_span(&vec![EntId(3), EntId(4)], 0), (-60_000, 80_000));
    assert_eq!(g.field_span(&vec![EntId(3), EntId(4)], 2), (-8_000, 108_000));
    g.spawn_field(EntId(3), EntId(9));
    assert_eq!(g.entities.slots[9].touch, Touch::DoorTriggerField);
    assert_eq!(g.entities.slots[9].owner(), EntId(3));
    assert_eq!(g.entities.slots[3].refs.trigger_field, 9);
}

#[test]
fn a_group_shares_what_its_doors_have() {
    let mut g = hall();
    g.entities.slots[4].v.health = 25;
    g.entities.slots[4].targetname = Some("t7".to_owned());
    g.entities.slots[4].message = Some("closed".to_owned());
    assert_eq!(g.door_link(EntId(3)), DoorLink::Group { field: false });
    let m = &g.entities.slots[3];
    assert_eq!((m.v.health, m.targetname.as_deref(), m.message.as_deref()), (25, Some("t7"), Some("closed")));
    let mut g = hall();
    g.entities.slots[3].v.spawnflags = DoorFlags::DONT_LINK;
    assert_eq!(g.door_link(EntId(3)), DoorLink::Alone);
    assert_eq!(g.entities.slots[3].enemy(), EntId(3));
}

/// Tell a ring to its end.
fn steps(g: &mut GameState, ring: &DoorRing) -> Vec<(u32, DoorStep)> {
    let mut out = vec![(ring.master.0, g.tell_door(ring, ring.master))];
    let mut at = ring.master;
    while let Some(next) = g.next_told(ring, at) {
        out.push((next.0, g.tell_door(ring, next)));
        at = next;
    }
    out
}

#[test]
fn a_group_moves_together() {
    let mut g = hall();
    g.door_link(EntId(3));
    let f = g.door_use(EntId(4));
    assert_eq!(f, DoorRing { master: EntId(3), shut: false, activator: EntId(1), key_sound: false });
    assert_eq!(steps(&mut g, &f), vec![(3, DoorStep::Opens(DoorUp::Starts)), (4, DoorStep::Opens(DoorUp::Starts))]);
    assert_eq!((g.entities.slots[3].mover.state, g.entities.slots[4].mover.state), (STATE_UP, STATE_UP));
    assert_eq!(g.entities.slots[3].goalentity(), EntId(1));
    // Told again while it opens, nothing starts anew.
    let f = g.door_use(EntId(3));
    assert_eq!(steps(&mut g, &f), vec![(3, DoorStep::Opens(DoorUp::Opening)), (4, DoorStep::Opens(DoorUp::Opening))]);
    // A toggle closes instead.
    g.entities.slots[3].v.spawnflags = DoorFlags::TOGGLE;
    let f = g.door_use(EntId(3));
    assert_eq!(steps(&mut g, &f), vec![(3, DoorStep::Closes), (4, DoorStep::Closes)]);
    assert_eq!((g.entities.slots[3].mover.state, g.entities.slots[4].mover.state), (STATE_DOWN, STATE_DOWN));
}

/// A door that is told sets off its targets before the next is told.
#[test]
fn targets_go_off_between_doors() {
    let mut g = hall();
    g.door_link(EntId(3));
    g.entities.slots[3].v.spawnflags = DoorFlags::TOGGLE;
    let ring = g.door_use(EntId(3));
    assert_eq!(g.tell_door(&ring, EntId(3)), DoorStep::Opens(DoorUp::Starts));
    // The first door targets the second: the group is on its way up already, and turns back.
    let inner = g.door_use(EntId(4));
    assert!(inner.shut);
    assert_eq!(steps(&mut g, &inner), vec![(3, DoorStep::Closes), (4, DoorStep::Closes)]);
    // The ring goes on as it was begun.
    assert_eq!(g.next_told(&ring, EntId(3)), Some(EntId(4)));
    assert_eq!(g.tell_door(&ring, EntId(4)), DoorStep::Opens(DoorUp::Starts));
    assert_eq!(g.next_told(&ring, EntId(4)), None);
    assert_eq!((g.entities.slots[3].mover.state, g.entities.slots[4].mover.state), (STATE_DOWN, STATE_UP));
}

#[test]
fn fields_open_for_the_living() {
    let mut g = hall();
    g.door_link(EntId(3));
    g.spawn_field(EntId(3), EntId(9));
    g.activator = EntId(0);
    assert!(g.door_trigger_touch(EntId(9), EntId(1), 5_000).is_some());
    assert_eq!(g.activator, EntId(1));
    assert!(g.door_trigger_touch(EntId(9), EntId(1), 5_999).is_none());
    assert!(g.door_trigger_touch(EntId(9), EntId(1), 6_000).is_some());
    g.entities.slots[1].v.health = 0;
    assert!(g.door_trigger_touch(EntId(9), EntId(1), 9_000).is_none());
}

#[test]
fn a_shot_door_opens_whole() {
    let mut g = hall();
    g.door_link(EntId(3));
    g.entities.slots[3].v.max_health = 30;
    g.entities.slots[3].v.health = -5;
    g.entities.slots[3].v.takedamage = TakeDamage::Yes;
    let f = g.door_killed(EntId(4));
    assert_eq!(steps(&mut g, &f).len(), 2);
    let m = &g.entities.slots[3].v;
    assert_eq!((m.health, m.takedamage), (30, TakeDamage::No));
}

#[test]
fn keys_open_their_doors() {
    let mut g = hall();
    g.entities.slots[3].v.items = Items::KEY1;
    g.entities.slots[3].message = Some("locked".to_owned());
    g.door_link(EntId(3));
    g.level.worldtype = 2;
    let (said, end) = g.door_touch(EntId(3), EntId(1), 5_000);
    assert_eq!(said.as_deref(), Some("locked"));
    assert!(matches!(end, DoorTouch::NeedsKey("You need the silver keycard")));
    // Too soon.
    assert!(matches!(g.door_touch(EntId(3), EntId(1), 6_000).1, DoorTouch::Ignored));
    // With the key.
    g.entities.slots[1].v.items = Items::KEY1 | Items::SHOTGUN;
    let (_, end) = g.door_touch(EntId(3), EntId(1), 8_000);
    match end {
        DoorTouch::Opens(f) => assert!(f.key_sound && steps(&mut g, &f).len() == 2),
        _ => panic!("the key did not turn"),
    }
    assert_eq!(g.entities.slots[1].v.items, Items::SHOTGUN);
    assert!(g.entities.slots[3].touch == Touch::Nil && g.entities.slots[4].touch == Touch::Nil);
    assert!(g.entities.slots[3].message.is_none());
}

#[test]
fn doors_speak_to_players_only() {
    let mut g = hall();
    g.door_link(EntId(5));
    g.entities.slots[5].message = Some("later".to_owned());
    assert!(matches!(g.door_touch(EntId(5), EntId(3), 5_000).1, DoorTouch::Ignored));
    let (said, end) = g.door_touch(EntId(5), EntId(1), 5_000);
    assert_eq!(said.as_deref(), Some("later"));
    assert!(matches!(end, DoorTouch::Shown));
    g.entities.slots[5].v.items = Items::KEY2;
    g.level.worldtype = 1;
    assert!(matches!(g.door_touch(EntId(5), EntId(1), 9_000).1, DoorTouch::NeedsKey("You need the gold runekey")));
}
