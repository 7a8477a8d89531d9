//! What the module and the engine tell each other: commands, entities, text, maps and assets.
use rtx::abi::{EntVars, Field, FieldType};
use rtx::assets::{precache_models, precache_sounds, DynAssets, Model, Sound, MODEL_COUNT, SOUND_COUNT};
use rtx::bob::{func_bob_think, next_bob};
use rtx::bsp::{Bsp, ClipNode, Plane, Reader};
use rtx::defs::{Bits, Content, FuncBobFlags, Items, MoveType, Solid, SpawnFilter, Weapon};
use rtx::dispatch::{run_think_now, Routine};
use rtx::entity::{Blocked, Die, EntId, Entity, Pain, Think, Touch, Use};
use rtx::ext_field::{ExtField, ExtFields, ExtStep};
use rtx::game::{Answer, GameAction, GameState, DEFAULT_SEED};
use rtx::game_command::GameCommand;
use rtx::host::{cstr_from_buf, cstring, pf, rf, Builtin};
use rtx::spawn::{load_entities, parse_block, passes_spawn_filter, set_field, Block, VectorKey};

#[test]
fn commands_have_their_numbers() {
    assert_eq!(GameCommand::from_i32(0), Some(GameCommand::Init));
    assert_eq!(GameCommand::from_i32(20), Some(GameCommand::ClearEdict));
    assert_eq!(GameCommand::from_i32(21), None);
    assert_eq!(GameCommand::from_i32(200), None);
    assert_eq!(GameCommand::from_i32(-1), None);
    assert_eq!(Builtin::GetApiVersion.code(), 0);
    assert_eq!(Builtin::VisibleTo.code(), 93);
}

#[test]
fn commands_are_dispatched() {
    let mut g = GameState::new();
    g.self_ = EntId(3).to_prog();
    g.other = EntId(4).to_prog();
    assert_eq!(g.dispatch(GameCommand::EdictTouch, 0, 0).0, GameAction::RunTouch(EntId(3), EntId(4)));
    assert_eq!(g.dispatch(GameCommand::ClientConnect, 0, 0).0, GameAction::ClientConnect(EntId(3)));
    assert_eq!(g.dispatch(GameCommand::ClientConnect, 1, 0).0, GameAction::SpectatorConnect(EntId(3)));
    assert_eq!(g.dispatch(GameCommand::EdictThink, 0, 0).0, GameAction::RunThink(EntId(3)));
    assert_eq!(g.dispatch(GameCommand::ConsoleCommand, 0, 0), (GameAction::Nothing, Answer::Number(0)));
    assert_eq!(g.dispatch(GameCommand::StartFrame, 0, 0), (GameAction::StartFrame(false), Answer::Number(1)));
    assert_eq!(g.dispatch(GameCommand::StartFrame, 0, 1), (GameAction::StartFrame(true), Answer::Number(1)));
    assert!(g.start_frame(0) && !g.start_frame(1));
    assert_eq!((g.self_ent(), g.other_ent()), (EntId(3), EntId(4)));
}

#[test]
fn references_survive_the_engine() {
    for n in [0u32, 1, 5, 2_047, 4_194_303] {
        assert_eq!(EntId::from_prog(EntId(n).to_prog()), EntId(n));
    }
    assert_eq!(EntId(2).to_prog(), 1_024);
    let mut e = Entity::cleared();
    e.set_enemy(EntId(7));
    e.set_owner(EntId(8));
    e.set_goalentity(EntId(9));
    assert_eq!((e.enemy(), e.owner(), e.goalentity()), (EntId(7), EntId(8), EntId(9)));
    e.set_touch(Touch::Multi);
    assert_eq!(e.v.touch, 1);
    e.set_touch(Touch::Nil);
    assert_eq!(e.v.touch, 0);
    e.set_blocked(Blocked::DoorBlocked);
    assert_eq!(e.v.blocked, 1);
}

#[test]
fn spawned_entities_know_their_string_cells() {
    let mut g = GameState::new();
    g.entities.slots[5].v.health = 77;
    g.spawn(EntId(5));
    let e = &g.entities.slots[5];
    assert!(e.in_use && e.v.health == 0);
    assert_eq!(e.v.classname, 5 * 512 + 408);
    assert_eq!(e.v.model, 5 * 512 + 416);
    assert_eq!(e.v.noise3, 5 * 512 + 488);
    g.free(EntId(5));
    assert!(!g.entities.slots[5].in_use);
    let mut v = EntVars::cleared();
    v.link_string_refs(|i| i as i32 + 1);
    assert_eq!((v.classname, v.netname, v.noise3), (1, 4, 11));
}

#[test]
fn randomness_moves_on() {
    let mut g = GameState::new();
    assert_eq!(g.rng, DEFAULT_SEED);
    let (a, b) = (g.random(), g.random());
    assert!(a < 1 << 24 && b < 1 << 24 && a != b);
    assert!(g.init(4, 16));
    assert_eq!(g.rng, 5);
    assert!(!g.init(0, 15));
    assert_eq!(g.rng, 5);
}

#[test]
fn entities_are_found_by_class() {
    let mut g = GameState::new();
    for i in [4usize, 9, 6] {
        g.entities.slots[i].in_use = i != 9;
        g.entities.slots[i].classname = Some("player".to_owned());
        g.entities.slots[i].v.solid = Solid::SlideBox;
    }
    assert_eq!(g.find_by_classname("player"), vec![EntId(4), EntId(6)]);
    let mut dist = vec![160_001; g.entities.slots.len()];
    dist[6] = 160_000;
    dist[9] = 0;
    assert_eq!(g.find_radius(&dist, 160_000), vec![EntId(6)]);
}

#[test]
fn text_ends_at_its_first_zero() {
    assert_eq!(cstr_from_buf(b"ranger\0junk"), "ranger");
    assert_eq!(cstr_from_buf("d\u{e9}j\u{e0}".as_bytes()), "d\u{e9}j\u{e0}");
    assert_eq!(cstr_from_buf(b"\0abc"), "");
    assert_eq!(cstr_from_buf(b"full"), "full");
    // What is no text is empty.
    assert_eq!(cstr_from_buf(&[b'a', 0xff, 0]), "");
    assert_eq!(cstring(b"a\0b"), b"ab".to_vec());
    assert_eq!(rf(pf(1.5f32.to_bits())), 1.5f32.to_bits());
    assert_eq!(rf(-1), u32::MAX);
}

fn words(s: &str) -> Vec<String> {
    s.split(' ').map(|w| w.to_owned()).collect()
}

#[test]
fn the_entity_string_is_read_in_blocks() {
    let t = words("{ classname worldspawn message hi } { classname light }");
    let (world, rest) = load_entities(&t).unwrap();
    assert_eq!(world.pairs[1], ("message".to_owned(), "hi".to_owned()));
    assert_eq!(rest.len(), 1);
    assert_eq!(rest[0].pairs[0].1, "light");
    assert!(load_entities(&vec![]).is_none());
    assert!(matches!(parse_block(&words("oops"), 0).0, Block::NotABlock));
    assert!(matches!(parse_block(&words("{ key"), 0).0, Block::End));
}

#[test]
fn map_keys_set_fields() {
    let mut e = Entity::cleared();
    assert_eq!(set_field(&mut e, "classname", "light", 0), None);
    assert_eq!(set_field(&mut e, "health", "25", 25), None);
    assert_eq!(set_field(&mut e, "worldtype", "2", 2), None);
    assert_eq!(set_field(&mut e, "origin", "1 2 3", 0), Some(VectorKey::Origin));
    assert_eq!(set_field(&mut e, "angle", "90", 90), Some(VectorKey::Angle));
    assert_eq!(set_field(&mut e, "angles", "0 90 0", 0), Some(VectorKey::Angles));
    assert_eq!(set_field(&mut e, "nonsense", "x", 3), None);
    assert_eq!((e.classname(), e.v.health, e.v.skin), (Some("light"), 25, 2));
}

#[test]
fn filters_keep_entities_out() {
    assert!(!passes_spawn_filter(SpawnFilter::NOT_DEATHMATCH, 1, 0));
    assert!(passes_spawn_filter(SpawnFilter::NOT_DEATHMATCH, 0, 0));
    assert!(!passes_spawn_filter(SpawnFilter::NOT_EASY, 0, 0));
    assert!(!passes_spawn_filter(SpawnFilter::NOT_MEDIUM, 0, 1));
    assert!(!passes_spawn_filter(SpawnFilter::NOT_HARD, 0, 3));
    assert!(passes_spawn_filter(0, 1, 2));
}

#[test]
fn readers_stop_at_the_end() {
    let bytes = [1u8, 0, 0, 0, 0xfe, 0xff, 9];
    let mut r = Reader::new(&bytes);
    assert_eq!(r.u32(), Some(1));
    assert_eq!(r.i16(), Some(-2));
    assert_eq!(r.u32(), None);
    assert_eq!(r.at(6).unwrap().take(1), Some(&[9u8][..]));
    assert!(r.at(8).is_none());
}

#[test]
fn maps_need_a_known_version() {
    assert!(Bsp::parse(&[]).is_none());
    assert!(Bsp::parse(&[30, 0, 0, 0]).is_none());
    assert!(Bsp::parse(&[29, 0, 0, 0]).is_none());
}

#[test]
fn hulls_are_descended() {
    let solid = Content::Solid.as_i32();
    let empty = Content::Empty.as_i32();
    let m = Bsp {
        planes: vec![Plane { normal: [0; 3], dist: 0, kind: 3 }, Plane { normal: [0; 3], dist: 0, kind: 3 }],
        clipnodes: vec![
            ClipNode { plane: 0, children: [1, empty] },
            ClipNode { plane: 1, children: [solid, empty] },
        ],
        hull1_headnode: 0,
        mins: [0; 3],
        maxs: [0; 3],
    };
    assert_eq!(m.hull1_contents(&vec![true, false]), Some(empty));
    assert_eq!(m.hull1_contents(&vec![false, true]), Some(empty));
    assert_eq!(m.hull1_contents(&vec![false, false]), Some(solid));
    assert!(m.is_solid(&vec![false, false]));
    assert!(!m.is_solid(&vec![true, true]));
    // A node or plane that is not there counts as solid, and a circle has no contents.
    assert_eq!(m.hull_contents(7, &vec![true, true]), Some(solid));
    let mut round = m;
    // So does a plane across an axis that is none.
    round.planes[1].kind = -1;
    assert_eq!(round.hull1_contents(&vec![false, true]), Some(solid));
    assert_eq!(round.hull1_contents(&vec![true, true]), Some(empty));
    round.planes[1].kind = 0;
    round.clipnodes[1].children = [0, 0];
    assert_eq!(round.hull1_contents(&vec![false, false]), None);
}

#[test]
fn assets_are_announced_once() {
    let mut d = DynAssets::new();
    let (a, new) = d.sound("misc/own.wav");
    assert!(new);
    assert_eq!(d.sound("misc/own.wav"), (a, false));
    let (b, _) = d.sound("misc/other.wav");
    assert_ne!(a, b);
    assert!(d.model("progs/own.mdl").1);
    assert_eq!(Sound::ITEMS_DAMAGE2.path(), Some("items/damage2.wav"));
    assert_eq!(Model::PROGS_PLAYER.path(), Some("progs/player.mdl"));
    let sounds = precache_sounds();
    assert_eq!(sounds.len(), SOUND_COUNT);
    assert!(sounds.contains(&Sound::WEAPONS_TINK1) && sounds.iter().all(|s| s.path().is_some()));
    let models = precache_models();
    assert_eq!(models.len(), MODEL_COUNT);
    assert!(models.contains(&Model::PROGS_ZOM_GIB) && models.iter().all(|m| m.path().is_some()));
}

#[test]
fn weapons_and_bits_agree() {
    for w in [Weapon::Axe, Weapon::Shotgun, Weapon::Lightning, Weapon::Grapple, Weapon::Nil] {
        assert_eq!(Weapon::from_item(w.item()), w);
    }
    assert_eq!(5.with(2), 7);
    assert_eq!(7.without(2), 5);
    assert!(7.has(8 | 1) && !7.has_all(8 | 1));
    assert_eq!(Items::from_field(-1), Items::KNOWN);
    assert_eq!(MoveType::from_i32(MoveType::Push.as_i32()), Some(MoveType::Push));
    assert_eq!(Solid::from_i32(99), None);
}

#[test]
fn fields_and_runs_are_declared() {
    let f = Field::new("maxspeed", 12, FieldType::Float);
    assert_eq!((f.name, f.ofs, f.type_), (Some("maxspeed"), 12, 1));
    assert!(Field::terminator().name.is_none());
    let run = rtx::anim::seq(6, 11);
    assert_eq!((run.len, run.frame(2), run.last()), (6, 8, 11));
}

#[test]
fn extension_fields_are_asked_for_once() {
    let mut x = ExtFields::new();
    assert_eq!(x.set(ExtField::Alpha), ExtStep::Probe);
    x.probed(true);
    assert_eq!(x.set(ExtField::Alpha), ExtStep::Resolve);
    x.resolved(ExtField::Alpha, 40);
    assert_eq!(x.set(ExtField::Alpha), ExtStep::Write(40));
    assert_eq!(x.set(ExtField::ColorMod), ExtStep::Resolve);
    x.resolved(ExtField::ColorMod, 0);
    assert_eq!(x.set(ExtField::ColorMod), ExtStep::Skip);
    x.probed(false);
    assert_eq!(x.set(ExtField::Alpha), ExtStep::Skip);
    assert_eq!((ExtField::Alpha.name(), ExtField::ColorMod.name()), ("alpha", "colormod"));
}

#[test]
fn callbacks_find_their_routines() {
    let mut g = GameState::new();
    let e = &mut g.entities.slots[2];
    e.think = Think::DoorLink;
    e.touch = Touch::SuperSpike;
    e.use_ = Use::TriggerRelay;
    e.blocked = Blocked::PlatBlocked;
    e.th_pain = Pain::Player;
    e.th_die = Die::GrenadeExplode;
    let id = EntId(2);
    assert_eq!(g.run_think(id), Some(Routine::Think(Think::DoorLink)));
    assert_eq!(g.run_touch(id), Some(Routine::Spike { large: true }));
    assert_eq!(g.run_use(id), Some(Routine::UseTargets));
    assert_eq!(g.run_blocked(id), Some(Routine::PlatCrush));
    assert_eq!(g.run_pain(id), Some(Routine::PlayerPain));
    assert_eq!(g.run_die(id), Some(Routine::Explode));
    assert_eq!(run_think_now(Think::GrenadeExplode), Some(Routine::Explode));
    assert_eq!(g.run_touch(EntId(3)), None);
    g.entities.slots[2].touch = Touch::TriggerMonsterjump;
    assert_eq!(g.run_touch(id), None);
}

/// A bobbing brush is back where it was after every two swings.
#[test]
fn brushes_bob_without_drift() {
    let mut g = GameState::new();
    g.rng = 1;
    let mut b = g.spawn_func_bob(EntId(4), 900_000, 2_350, 1_050, 750, 5_000, -1).unwrap();
    assert_eq!(g.bob_delay(40), 40);
    let e = &mut g.entities.slots[4];
    assert_eq!(e.v.nextthink, 5_732);
    assert!(e.think == Think::FuncBobThink && e.v.solid == Solid::Bsp);
    let mut far = 0;
    for _ in 0..20 {
        let start = b.offset;
        for _ in 0..24 {
            func_bob_think(&mut b);
        }
        far = far.max((b.offset - start).abs());
        for _ in 0..24 {
            func_bob_think(&mut b);
        }
        assert_eq!(b.offset, start);
    }
    assert!(far > 0);
    next_bob(&mut e.v, 6_000);
    assert_eq!((e.v.ltime, e.v.nextthink), (6_000, 6_100));
}

#[test]
fn brushes_have_their_defaults() {
    let mut g = GameState::new();
    let b = g.spawn_func_bob(EntId(4), 0, 0, 0, 0, 0, 250).unwrap();
    assert_eq!((b.height, b.count, b.waitmin, b.waitmin2), (8_000_000, 2_000, 1_000, 750));
    assert_eq!(g.entities.slots[4].v.nextthink, 350);
    // One that is not kept draws nothing either.
    g.entities.slots[5].v.spawnflags = FuncBobFlags::NONSOLID;
    assert!(g.spawn_func_bob(EntId(5), 0, 0, 0, 0, 0, -1).is_none());
    assert_eq!(g.rng, DEFAULT_SEED);
}

/// However fast a brush is, its ramp grows by its factor.
#[test]
fn ramps_have_no_ceiling() {
    let mut g = GameState::new();
    let mut b = g.spawn_func_bob(EntId(4), 900_000_000_000_000, 2_000, 2_000, 750, 0, 0).unwrap();
    func_bob_think(&mut b);
    assert_eq!((b.t_length, b.vel), (-1_800_000_000_000_000, -1_800_000_000_000_000));
    func_bob_think(&mut b);
    assert_eq!((b.t_length, b.vel), (-3_600_000_000_000_000, -5_400_000_000_000_000));
}

#[test]
fn a_plane_across_no_axis_is_solid() {
    let b = Bsp {
        planes: vec![Plane { normal: [0x3f80_0000, 0, 0], dist: 0, kind: -1 }],
        clipnodes: vec![ClipNode { plane: 0, children: [-1, -1] }],
        hull1_headnode: 0,
        mins: [0; 3],
        maxs: [0; 3],
    };
    assert_eq!(b.hull_contents(0, &vec![false]), Some(-2));
    assert_eq!(b.hull_contents(0, &vec![true]), Some(-2));
    assert!(b.is_solid(&vec![false]));
}
