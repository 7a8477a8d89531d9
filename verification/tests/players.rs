//! Players: kit, powerups, water, jumping, death and spawning.
use rtx::assets::{Model, Sound};
use rtx::client::{
    check_rules, client_command, client_connect, client_disconnect, client_kill, elevator_speed, held_still,
    life_of, lift_under_player, note_fall, out_of_ammo, player_death_think, player_post_think,
    player_pre_think, powerup_warn, put_client_in_server, respawn, retire_slot, set_change_parms, set_new_parms, speed_cap,
    w_set_current_ammo, try_wall_jump, kick_out, warning_message, ClientCommand, DeathStep, Jump, JumpFacts, Landing, Life,
    Lift, PlayerParms, PowerupKind, PreThink, WallProbe, Warning, WaterStep, LEFT_BEHIND, MAX_FLOORNESS, WHOLE,
};
use rtx::abi::EntVars;
use rtx::defs::{Bits, Content, DeadFlag, Effects, Flags, Items, MoveType, Solid, TakeDamage, Weapon};
use rtx::entity::{Die, EntId, Entity, Pain};
use rtx::items::POWERUP_LATCH;
use rtx::game::GameState;

const P: EntId = EntId(1);

fn game() -> GameState {
    let mut g = GameState::new();
    let p = &mut g.entities.slots[1];
    p.in_use = true;
    p.classname = Some("player".to_owned());
    p.v.health = 100;
    p.v.movetype = MoveType::Walk;
    g.level.modelindex_player = 7;
    g.level.modelindex_eyes = 8;
    g
}

#[test]
fn parms_survive_a_level_change() {
    let mut v = EntVars::cleared();
    v.health = 130;
    v.items = Items::ROCKET_LAUNCHER | Items::QUAD | Items::KEY1;
    v.armortype = 600;
    v.armorvalue = 77;
    v.ammo_shells = 3;
    v.ammo_rockets = 9;
    v.weapon = Weapon::RocketLauncher;
    let mut parm = [0i64; 16];
    parm[12] = 5;
    set_change_parms(&v, &mut parm);
    assert_eq!(parm[8], 60_000);
    assert_eq!(parm[12], 5);
    let p = PlayerParms::read(&parm);
    assert_eq!((p.health, p.shells, p.rockets), (100, 25, 9));
    assert_eq!((p.armortype, p.armorvalue), (600, 77));
    assert_eq!(p.items, Items::ROCKET_LAUNCHER);
    assert!(!p.items.has(LEFT_BEHIND));
    let mut w = EntVars::cleared();
    p.apply_to(&mut w);
    assert_eq!(w.weapon, Weapon::RocketLauncher);
    // The weak are helped up, the dead start over.
    v.health = 3;
    set_change_parms(&v, &mut parm);
    assert_eq!(PlayerParms::read(&parm).health, 50);
    v.health = 0;
    set_change_parms(&v, &mut parm);
    assert_eq!(PlayerParms::read(&parm), PlayerParms::fresh());
}

#[test]
fn fresh_kit_is_shotgun_and_axe() {
    let mut parm = [0i64; 16];
    set_new_parms(&mut parm);
    assert_eq!(&parm[..9], &[(Items::SHOTGUN | Items::AXE) as i64, 100, 0, 25, 0, 0, 0, Items::SHOTGUN as i64, 0]);
}

#[test]
fn powerups_warn_and_end() {
    let mut g = game();
    let e = &mut g.entities.slots[1];
    e.v.items = Items::QUAD;
    e.combat.super_damage_finished = 30_000;
    e.combat.super_time = POWERUP_LATCH;
    // Running: the glow is on and nothing is said.
    let r = g.check_powerups(P, 20_000).unwrap();
    assert_eq!(r.quad, Warning::Silent);
    assert!(g.entities.slots[1].v.effects.has_all(Effects::BLUE | Effects::DIMLIGHT));
    // Near the end: one message, then flashes.
    assert_eq!(g.check_powerups(P, 28_000).unwrap().quad, Warning::Message);
    assert_eq!(g.check_powerups(P, 28_100).unwrap().quad, Warning::Silent);
    assert_eq!(g.check_powerups(P, 29_100).unwrap().quad, Warning::Flash);
    // Over.
    g.check_powerups(P, 30_001);
    let e = &g.entities.slots[1];
    assert_eq!((e.combat.super_damage_finished, e.combat.super_time), (0, 0));
    assert!(!e.v.items.has(Items::QUAD));
    assert!(!e.v.effects.has(Effects::BLUE));
}

#[test]
fn octa_ends_with_a_kit() {
    let mut g = game();
    g.level.deathmatch = 4;
    g.entities.slots[1].combat.super_damage_finished = 1_000;
    g.check_powerups(P, 2_000);
    let v = &g.entities.slots[1].v;
    assert_eq!((v.ammo_cells, v.armorvalue, v.armortype, v.health), (255, 1, 800, 100));
}

#[test]
fn the_ring_shows_eyes_and_whispers() {
    let mut g = game();
    g.entities.slots[1].combat.invisible_finished = 50_000;
    g.rng = SECOND;
    let r = g.check_powerups(P, 10_000).unwrap();
    assert!(r.whisper);
    let e = &g.entities.slots[1];
    assert_eq!(e.v.modelindex, 8);
    assert_eq!(e.combat.invisible_sound, 12_849);
    assert!(!g.check_powerups(P, 11_000).unwrap().whisper);
    g.entities.slots[1].combat.invisible_finished = 0;
    g.check_powerups(P, 11_100);
    assert_eq!(g.entities.slots[1].v.modelindex, 7);
}

#[test]
fn suits_and_pentagrams_run_out() {
    let mut g = game();
    let e = &mut g.entities.slots[1];
    e.v.items = Items::SUIT | Items::INVULNERABILITY;
    e.combat.radsuit_finished = 5_000;
    e.combat.invincible_finished = 5_000;
    g.check_powerups(P, 4_000);
    assert_eq!(g.entities.slots[1].combat.air_finished, 16_000);
    assert!(g.entities.slots[1].v.effects.has(Effects::RED));
    g.check_powerups(P, 5_001);
    assert_eq!(g.entities.slots[1].v.items, 0);
    assert!(!g.entities.slots[1].v.effects.has(Effects::RED));
    g.entities.slots[1].v.health = 0;
    assert!(g.check_powerups(P, 6_000).is_none());
}

#[test]
fn warnings_have_their_words() {
    assert_eq!(powerup_warn(POWERUP_LATCH, 9_000), (10_000, Warning::Message));
    assert_eq!(powerup_warn(8_000, 9_000), (10_000, Warning::Flash));
    assert_eq!(powerup_warn(9_000, 9_000), (9_000, Warning::Silent));
    assert_eq!(warning_message(PowerupKind::Quad, 0), ("Quad Damage is wearing off\n", Sound::ITEMS_DAMAGE2));
    assert_eq!(warning_message(PowerupKind::Quad, 4).0, "OctaPower is wearing off\n");
    assert_eq!(warning_message(PowerupKind::Biosuit, 0).1, Sound::ITEMS_SUIT2);
    assert_eq!(warning_message(PowerupKind::Invisibility, 0).0, "Ring of Shadows magic is fading\n");
    assert_eq!(warning_message(PowerupKind::Invulnerability, 0).0, "Protection is almost burned out\n");
}

#[test]
fn breath_runs_out_under_water() {
    let mut g = game();
    let e = &mut g.entities.slots[1];
    e.v.waterlevel = 3;
    e.combat.air_finished = 12_000;
    e.mover.dmg = 2;
    assert_eq!(g.water_breathe(P, 12_000), WaterStep::Drown { gasp: None, pain: None });
    // Drowning hurts by four, then six, and no more often than once a second.
    assert_eq!(g.water_breathe(P, 12_001), WaterStep::Drown { gasp: None, pain: Some(4) });
    assert_eq!(g.water_breathe(P, 12_500), WaterStep::Drown { gasp: None, pain: None });
    assert_eq!(g.water_breathe(P, 13_002), WaterStep::Drown { gasp: None, pain: Some(6) });
    g.entities.slots[1].mover.dmg = 14;
    assert_eq!(g.water_breathe(P, 15_000), WaterStep::Drown { gasp: None, pain: Some(10) });
    // Coming up.
    g.entities.slots[1].v.waterlevel = 1;
    assert_eq!(g.water_breathe(P, 16_000), WaterStep::Drown { gasp: Some(Sound::PLAYER_GASP2), pain: None });
    assert_eq!(g.entities.slots[1].combat.air_finished, 28_000);
    assert_eq!(g.entities.slots[1].mover.dmg, 2);
    assert_eq!(g.water_breathe(P, 22_000), WaterStep::Drown { gasp: Some(Sound::PLAYER_GASP1), pain: None });
    g.entities.slots[1].v.movetype = MoveType::Noclip;
    assert_eq!(g.water_breathe(P, 23_000), WaterStep::Done { splash: None });
}

#[test]
fn lava_and_slime_burn() {
    let mut g = game();
    let e = &mut g.entities.slots[1];
    e.v.waterlevel = 2;
    e.v.watertype = Content::Lava.as_i32();
    assert_eq!(g.water_burn(P, 1_000), WaterStep::Burn { damage: Some(20) });
    assert_eq!(g.water_burn(P, 1_100), WaterStep::Burn { damage: None });
    assert_eq!(g.water_burn(P, 1_201), WaterStep::Burn { damage: Some(20) });
    g.entities.slots[1].v.watertype = Content::Slime.as_i32();
    assert_eq!(g.water_burn(P, 1_500), WaterStep::Burn { damage: Some(8) });
    g.entities.slots[1].combat.radsuit_finished = 9_000;
    assert_eq!(g.water_burn(P, 3_000), WaterStep::Burn { damage: None });
    assert_eq!(g.water_splash(P), WaterStep::Done { splash: Some(Sound::PLAYER_SLIMBRN2) });
    assert_eq!(g.water_splash(P), WaterStep::Done { splash: None });
    g.entities.slots[1].v.waterlevel = 0;
    assert_eq!(g.water_burn(P, 3_100), WaterStep::Done { splash: Some(Sound::MISC_OUTWATER) });
    assert_eq!(g.water_burn(P, 3_200), WaterStep::Done { splash: None });
}

const FACTS: JumpFacts =
    JumpFacts { elevator: false, wall: false, double: false, floor_close: false };

/// A state of the generator from which it draws a fraction of 0.616.
const SECOND: u32 = 67_634_689;

#[test]
fn jumping_needs_a_release() {
    let mut g = game();
    g.entities.slots[1].v.flags = Flags::ONGROUND | Flags::JUMPRELEASED;
    g.entities.slots[1].v.button2 = true;
    assert_eq!(g.player_jump(P, 1_000, &FACTS), Jump::Ground);
    assert!(!g.entities.slots[1].v.button2);
    assert_eq!(g.player_jump(P, 1_013, &FACTS), Jump::Nothing);
    g.entities.slots[1].v.button2 = false;
    assert!(!g.ready_to_move(P, 0, 1_026));
    assert_eq!(g.player_jump(P, 1_039, &FACTS), Jump::Ground);
}

#[test]
fn there_is_one_jump_in_the_air() {
    let mut g = game();
    let f = JumpFacts { double: true, ..FACTS };
    g.entities.slots[1].v.flags = Flags::JUMPRELEASED;
    assert_eq!(g.player_jump(P, 1_000, &JumpFacts { floor_close: true, ..f }), Jump::Nothing);
    assert_eq!(g.player_jump(P, 1_000, &f), Jump::Air);
    g.entities.slots[1].v.flags = Flags::JUMPRELEASED;
    assert_eq!(g.player_jump(P, 1_100, &f), Jump::Nothing);
    assert_eq!(g.player_jump(P, 1_100, &JumpFacts { wall: true, ..f }), Jump::Wall);
    // The ground rearms it.
    g.entities.slots[1].v.flags = Flags::ONGROUND;
    g.ready_to_move(P, 0, 1_200);
    assert!(!g.entities.slots[1].combat.air_jumped);
}

#[test]
fn lifts_give_one_boost() {
    let mut g = game();
    let f = JumpFacts { elevator: true, ..FACTS };
    g.entities.slots[1].v.flags = Flags::ONGROUND | Flags::JUMPRELEASED;
    g.entities.slots[1].v.button2 = true;
    assert!(g.ready_to_move(P, 150_000, 5_000));
    assert_eq!(g.player_jump(P, 5_400, &f), Jump::Elevator);
    g.entities.slots[1].v.flags |= Flags::JUMPRELEASED;
    assert_eq!(g.player_jump(P, 5_401, &f), Jump::Ground);
    // Not even in the first moments of a level is there a second.
    g.entities.slots[1].v.flags |= Flags::JUMPRELEASED;
    g.entities.slots[1].v.button2 = true;
    assert!(g.ready_to_move(P, 150_000, 100));
    assert_eq!(g.player_jump(P, 200, &f), Jump::Elevator);
    g.entities.slots[1].v.flags |= Flags::JUMPRELEASED;
    assert_eq!(g.player_jump(P, 300, &f), Jump::Ground);
    assert_eq!(elevator_speed(150_000, 1_500), 495_000_000);
    let l = Lift { id: EntId(5), pushes: true, rise: 100_000, top: 0, min_x: 0, min_y: 0, max_x: 64_000, max_y: 64_000 };
    let lifts = vec![l, Lift { id: EntId(6), rise: 150_000, ..l }, Lift { id: EntId(7), rise: 900_000, top: 90_000, ..l }];
    assert_eq!(lift_under_player(&lifts, P, 32_000, 32_000, 0), 150_000);
    assert_eq!(lift_under_player(&lifts, P, 90_000, 32_000, 0), 0);
    assert_eq!(lift_under_player(&lifts, EntId(6), 32_000, 32_000, 0), 100_000);
}

#[test]
fn swimmers_stroke_once_a_second() {
    let mut g = game();
    g.entities.slots[1].v.waterlevel = 2;
    g.rng = 1;
    assert_eq!(g.player_jump(P, 1_000, &FACTS), Jump::Swim(Sound::MISC_WATER1));
    assert_eq!(g.player_jump(P, 1_500, &FACTS), Jump::Nothing);
    assert_eq!(g.rng, 270_369, "a press that does nothing draws no number");
    g.rng = SECOND;
    assert_eq!(g.player_jump(P, 2_001, &FACTS), Jump::Swim(Sound::MISC_WATER2));
    g.entities.slots[1].v.flags = Flags::WATERJUMP;
    assert_eq!(g.player_jump(P, 9_000, &FACTS), Jump::Nothing);
}

#[test]
fn the_nearest_wall_is_kicked() {
    let p = |share: f32, z: f32| WallProbe { share: share.to_bits(), lean: z.abs().to_bits(), outward: true };
    let fast = 30_000;
    assert_eq!(try_wall_jump(true, fast, &vec![p(0.9, 0.0), p(0.2, 0.71), p(0.5, -0.7)]), Some(2));
    assert_eq!(try_wall_jump(true, fast, &vec![p(0.5, 0.0), p(0.5, 0.0)]), Some(0));
    assert_eq!(try_wall_jump(true, fast, &vec![p(1.0, 0.0), p(0.1, 1.0)]), None);
    // Too slow, switched off, or nothing to push against.
    assert_eq!(try_wall_jump(true, fast - 1, &vec![p(0.5, 0.0)]), None);
    assert_eq!(try_wall_jump(false, fast, &vec![p(0.5, 0.0)]), None);
    let blank = WallProbe { outward: false, ..p(0.0, 0.0) };
    assert_eq!(try_wall_jump(true, fast, &vec![p(0.5, 0.0), blank]), None);
    assert_eq!(WHOLE, 1.0f32.to_bits());
    assert_eq!(MAX_FLOORNESS, 0.7f32.to_bits());
}

#[test]
fn a_kick_is_never_weak() {
    assert_eq!(kick_out(0), 270_000);
    assert_eq!(kick_out(-100_000), 270_000);
    assert_eq!(kick_out(-400_000), 400_000);
    assert_eq!(kick_out(50_000), 270_000);
    assert_eq!(kick_out(i32::MIN), 2_147_483_648);
}

#[test]
fn falls_are_heard_and_hurt() {
    let mut g = game();
    let e = &mut g.entities.slots[1];
    e.v.flags = Flags::ONGROUND;
    note_fall(&mut e.combat, -300_000);
    assert_eq!(player_post_think(e, false), Some(Landing::Soft));
    note_fall(&mut e.combat, -400_000);
    assert_eq!(player_post_think(e, false), Some(Landing::Thud));
    note_fall(&mut e.combat, -651_000);
    assert_eq!(player_post_think(e, false), Some(Landing::Hurt));
    e.v.watertype = Content::Water.as_i32();
    assert_eq!(player_post_think(e, false), Some(Landing::Splash));
    assert_eq!(player_post_think(e, true), None);
    e.v.deadflag = DeadFlag::Dying;
    assert_eq!(player_post_think(e, false), None);
}

#[test]
fn a_frame_starts_by_what_is_on() {
    let mut g = game();
    let e = &mut g.entities.slots[1];
    e.deathtype = Some("squish".to_owned());
    assert_eq!(player_pre_think(e, true, false), PreThink::Intermission);
    assert_eq!(player_pre_think(e, false, true), PreThink::Parked);
    assert!(e.deathtype.is_some());
    assert_eq!(player_pre_think(e, false, false), PreThink::Play);
    assert!(e.deathtype.is_none());
    assert_eq!(life_of(&e.v), Life::Alive);
    e.v.deadflag = DeadFlag::Dying;
    assert_eq!(life_of(&e.v), Life::Dying);
    e.v.deadflag = DeadFlag::Respawnable;
    assert_eq!(life_of(&e.v), Life::Dead);
    e.mover.pausetime = 500;
    assert!(held_still(e, 499) && !held_still(e, 500));
    e.v.weapon = Weapon::Shotgun;
    assert!(out_of_ammo(e, 1));
    e.v.weapon = Weapon::Grapple;
    assert!(!out_of_ammo(e, 1));
}

#[test]
fn limits_end_a_level() {
    let mut g = game();
    assert!(!check_rules(&g.level, false, 9_999, 9_999));
    g.level.timelimit = 600;
    assert!(check_rules(&g.level, false, 600, 0));
    assert!(!check_rules(&g.level, false, 599, 0));
    assert!(!check_rules(&g.level, true, 600, 0));
    g.level.fraglimit = 20;
    assert!(check_rules(&g.level, false, 0, 20));
}

#[test]
fn the_dead_press_to_respawn() {
    let mut v = EntVars::cleared();
    v.deadflag = DeadFlag::Dead;
    v.button0 = true;
    assert_eq!(player_death_think(&mut v, true), DeathStep::Wait);
    v.button0 = false;
    assert_eq!(player_death_think(&mut v, true), DeathStep::Ready);
    assert_eq!(v.deadflag, DeadFlag::Respawnable);
    assert_eq!(player_death_think(&mut v, true), DeathStep::Wait);
    v.button2 = true;
    assert_eq!(player_death_think(&mut v, false), DeathStep::Held);
    assert!(!v.button2);
    v.button2 = true;
    assert_eq!(player_death_think(&mut v, true), DeathStep::Respawn);
}

#[test]
fn a_new_life_is_clean() {
    let mut e = Entity::cleared();
    e.combat.super_damage_finished = 99_000;
    e.combat.air_jumped = true;
    e.v.effects = Effects::BLUE;
    e.v.deadflag = DeadFlag::Respawnable;
    let mut parm = [0i64; 16];
    respawn(&mut e, 4_000, &mut parm, true, 0);
    assert_eq!(e.maxspeed, 320_000);
    assert_eq!((e.combat.air_finished, e.combat.attack_finished), (16_000, 4_000));
    assert_eq!(e.combat.super_damage_finished, 0);
    assert!(!e.combat.air_jumped);
    assert_eq!((e.v.health, e.v.effects, e.v.flags), (100, 0, Flags::CLIENT));
    assert_eq!((e.v.solid, e.v.movetype, e.v.takedamage), (Solid::SlideBox, MoveType::Walk, TakeDamage::Aim));
    assert_eq!(e.v.weapon, Weapon::Grapple);
    assert!(e.v.items.has(Items::GRAPPLE));
    assert!(e.th_pain == Pain::Player && e.th_die == Die::Player);
    put_client_in_server(&mut e, 4_000, &parm, false, 400_000);
    assert_eq!(e.maxspeed, 400_000);
    assert_eq!((speed_cap(1), speed_cap(0), speed_cap(-5)), (1, 320_000, 320_000));
    assert_eq!(e.v.weapon, Weapon::Shotgun);
    assert_eq!(w_set_current_ammo(&mut e), Some(Model::PROGS_V_SHOT));
    assert_eq!(e.v.currentammo, 25);
    assert!(e.v.items.has(Items::SHELLS));
    assert_eq!(e.weaponmodel.as_deref(), Some("progs/v_shot.mdl"));
}

#[test]
fn clients_come_and_go() {
    let mut e = Entity::cleared();
    client_connect(&mut e, "ranger");
    e.v.frags = 12;
    assert_eq!(client_disconnect(&e), ("ranger", 12));
    e.bot.is_bot = true;
    retire_slot(&mut e);
    assert!(!e.in_use && e.classname.is_none() && !e.bot.is_bot);
    assert_eq!(client_command("kill"), ClientCommand::Kill);
    assert_eq!(client_command("start"), ClientCommand::Start);
    assert_eq!(client_command("Kill"), ClientCommand::Unknown);
    let g = game();
    client_kill(&mut e.v, &g.level);
    assert_eq!((e.v.frags, e.v.modelindex), (10, 7));
}

#[test]
fn free_spawn_points_come_first() {
    let mut g = game();
    for i in [10usize, 11, 12] {
        g.entities.slots[i].in_use = true;
        g.entities.slots[i].classname = Some("info_player_deathmatch".to_owned());
    }
    g.entities.slots[20].in_use = true;
    g.entities.slots[20].classname = Some("info_player_start".to_owned());
    let mut nearest = vec![u32::MAX; g.entities.slots.len()];
    g.rng = SECOND;
    assert_eq!(g.select_spawn_point(&nearest), EntId(11));
    nearest[10] = 83_999;
    nearest[11] = 0;
    nearest[12] = 84_000;
    for _ in 0..5 {
        assert_eq!(g.select_spawn_point(&nearest), EntId(12));
    }
    nearest[12] = 0;
    g.rng = 1;
    assert_eq!(g.select_spawn_point_of("info_player_deathmatch", &nearest), EntId(10));
    for i in [10usize, 11, 12] {
        g.entities.slots[i].in_use = false;
    }
    g.rng = 1;
    assert_eq!(g.select_spawn_point(&nearest), EntId(20));
    g.entities.slots[20].in_use = false;
    assert_eq!(g.select_spawn_point(&nearest), EntId(0));
    assert_eq!(g.pick_spawn_of("info_teleport_destination", &nearest), EntId(0));
    assert_eq!(g.rng, 1, "with nothing to choose from no number is drawn");
}
