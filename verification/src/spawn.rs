//! Spawning a map's entities: reading the blocks of its entity string, filtering them, and choosing
//! what each class becomes.
use crate::assets::{Model, Sound};
use crate::defs::{Bits, Effects, Items, SpawnFilter};
use crate::entity::Entity;
use crate::abi::EntVars;
use crate::text::same_text;
use vstd::prelude::*;

verus! {

/// The key and value pairs of one entity, in the order the map gives them.
pub struct SpawnFields {
    pub pairs: Vec<(String, String)>,
}

impl View for SpawnFields {
    type V = Seq<(Seq<char>, Seq<char>)>;

    open spec fn view(&self) -> Seq<(Seq<char>, Seq<char>)> {
        Seq::new(self.pairs@.len(), |i: int| (self.pairs@[i].0@, self.pairs@[i].1@))
    }
}

/// The outcome of reading one block.
pub enum Block {
    /// A whole block.
    Fields(SpawnFields),
    /// The entity string ended, before the block or inside it.
    End,
    /// Something other than a block stood there.
    NotABlock,
}

/// What a block amounts to: its pairs, or nothing.
pub enum BlockModel {
    Fields(Seq<(Seq<char>, Seq<char>)>),
    End,
    NotABlock,
}

impl View for Block {
    type V = BlockModel;

    open spec fn view(&self) -> BlockModel {
        match self {
            Block::Fields(f) => BlockModel::Fields(f@),
            Block::End => BlockModel::End,
            Block::NotABlock => BlockModel::NotABlock,
        }
    }
}

/// The tokens of the entity string, as texts.
pub open spec fn words(tokens: Seq<String>) -> Seq<Seq<char>> {
    Seq::new(tokens.len(), |i: int| tokens[i]@)
}

/// The pairs from token `at` up to the closing brace, and the token after it; `None` where the
/// tokens run out first.
pub open spec fn pairs_from(w: Seq<Seq<char>>, at: int) -> Option<(Seq<(Seq<char>, Seq<char>)>, int)>
    decreases w.len() - at,
{
    if at < 0 || at >= w.len() {
        None
    } else if w[at] == "}"@ {
        Some((Seq::empty(), at + 1))
    } else if at + 1 >= w.len() {
        None
    } else {
        match pairs_from(w, at + 2) {
            Some((rest, next)) => Some((seq![(w[at], w[at + 1])] + rest, next)),
            None => None,
        }
    }
}

/// The block at token `at`, and the token to go on from.
pub open spec fn block_at(w: Seq<Seq<char>>, at: int) -> (BlockModel, int) {
    if at >= w.len() {
        (BlockModel::End, w.len() as int)
    } else if w[at] != "{"@ {
        (BlockModel::NotABlock, at + 1)
    } else {
        match pairs_from(w, at + 1) {
            Some((pairs, next)) => (BlockModel::Fields(pairs), next),
            None => (BlockModel::End, w.len() as int),
        }
    }
}

proof fn lemma_pairs_advance(w: Seq<Seq<char>>, at: int)
    ensures
        pairs_from(w, at) matches Some(r) ==> at < r.1 <= w.len(),
    decreases w.len() - at,
{
    if 0 <= at && at + 1 < w.len() && w[at] != "}"@ {
        lemma_pairs_advance(w, at + 2);
    }
}

/// Read the block at token `at`.
pub fn parse_block(tokens: &Vec<String>, at: usize) -> (r: (Block, usize))
    requires
        at <= tokens@.len(),
    ensures
        r.0@ == block_at(words(tokens@), at as int).0,
        r.1 == block_at(words(tokens@), at as int).1,
        r.1 <= tokens@.len(),
        r.0 !is End ==> r.1 > at,
{
    let ghost w = words(tokens@);
    let n: usize = tokens.len();
    if at >= n {
        return (Block::End, n);
    }
    if !same_text(tokens[at].as_str(), "{") {
        return (Block::NotABlock, at + 1);
    }
    let mut pairs: Vec<(String, String)> = Vec::new();
    let mut i: usize = at + 1;
    proof {
        assert(SpawnFields { pairs }@ =~= Seq::<(Seq<char>, Seq<char>)>::empty());
        lemma_pairs_advance(w, at + 1);
    }
    while i < n
        invariant
            at < n,
            at < i <= n,
            n == tokens@.len(),
            w == words(tokens@),
            w[at as int] == "{"@,
            match pairs_from(w, i as int) {
                Some((rest, next)) => pairs_from(w, at + 1) == Some((SpawnFields { pairs }@ + rest, next)),
                None => pairs_from(w, at + 1) is None,
            },
        decreases n - i,
    {
        if same_text(tokens[i].as_str(), "}") {
            proof {
                assert(SpawnFields { pairs }@ + Seq::empty() =~= SpawnFields { pairs }@);
                lemma_pairs_advance(w, at + 1);
            }
            return (Block::Fields(SpawnFields { pairs }), i + 1);
        }
        if i + 1 >= n {
            return (Block::End, n);
        }
        let ghost before = SpawnFields { pairs }@;
        let ghost rest = pairs_from(w, i + 2);
        pairs.push((tokens[i].clone(), tokens[i + 1].clone()));
        proof {
            assert(SpawnFields { pairs }@ =~= before + seq![(w[i as int], w[i + 1])]);
            if rest is Some {
                let tail = (rest->0).0;
                assert(before + (seq![(w[i as int], w[i + 1])] + tail) =~= SpawnFields { pairs }@ + tail);
            }
        }
        i = i + 2;
    }
    (Block::End, n)
}

/// The blocks that follow each other from token `at`, up to the first that is not whole.
pub open spec fn blocks_from(w: Seq<Seq<char>>, at: int) -> Seq<Seq<(Seq<char>, Seq<char>)>>
    decreases w.len() - at, 0int,
{
    match block_at(w, at) {
        (BlockModel::Fields(f), next) => if at < next <= w.len() {
            seq![f] + blocks_from(w, next)
        } else {
            seq![f]
        },
        _ => Seq::empty(),
    }
}

/// The texts of several blocks.
pub open spec fn all_fields(v: Seq<SpawnFields>) -> Seq<Seq<(Seq<char>, Seq<char>)>> {
    Seq::new(v.len(), |i: int| v[i]@)
}

/// Read the whole entity string: the first block configures the world, each further one becomes an
/// entity. `None` where there is no first block.
pub fn load_entities(tokens: &Vec<String>) -> (r: Option<(SpawnFields, Vec<SpawnFields>)>)
    ensures
        match r {
            Some((world, rest)) => blocks_from(words(tokens@), 0) == seq![world@] + all_fields(rest@),
            None => blocks_from(words(tokens@), 0).len() == 0,
        },
{
    let ghost w = words(tokens@);
    let (first, start): (Block, usize) = parse_block(tokens, 0);
    let world: SpawnFields = match first {
        Block::Fields(f) => f,
        _ => return None,
    };
    let mut rest: Vec<SpawnFields> = Vec::new();
    let mut at: usize = start;
    let mut going: bool = true;
    assert(all_fields(rest@) + blocks_from(w, start as int) =~= blocks_from(w, start as int));
    while going
        invariant
            w == words(tokens@),
            at <= tokens@.len(),
            start <= tokens@.len(),
            going ==> blocks_from(w, start as int) == all_fields(rest@) + blocks_from(w, at as int),
            !going ==> blocks_from(w, start as int) == all_fields(rest@),
        decreases tokens@.len() - at + if going { 1int } else { 0int },
    {
        let (block, next): (Block, usize) = parse_block(tokens, at);
        match block {
            Block::Fields(f) => {
                let ghost before = all_fields(rest@);
                let ghost f_model = f@;
                rest.push(f);
                proof {
                    assert(all_fields(rest@) =~= before + seq![f_model]);
                    assert(before + (seq![f_model] + blocks_from(w, next as int)) =~= all_fields(rest@)
                        + blocks_from(w, next as int));
                }
                at = next;
            },
            _ => {
                proof {
                    assert(all_fields(rest@) + Seq::empty() =~= all_fields(rest@));
                }
                going = false;
            },
        }
    }
    Some((world, rest))
}

/// The class-specific ways to set up an entity.
#[derive(Clone, Copy, PartialEq, Eq, Debug, Structural)]
pub enum SpawnFn {
    ItemHealth,
    TriggerMultiple,
    TriggerOnce,
    TriggerRelay,
    TriggerSecret,
    TriggerCounter,
    TriggerTeleport,
    TriggerHurt,
    TriggerPush,
    TriggerMonsterjump,
    TriggerChangelevel,
    InfoTeleportDestination,
    FuncButton,
    FuncDoor,
    FuncDoorSecret,
    FuncPlat,
    FuncTrain,
    InfoNull,
    Light,
    LightFluoro,
    LightFluorospark,
    FuncWall,
    FuncIllusionary,
}

/// An ammo box: its kind code and name, and model and amount of the small and the big one.
#[derive(Clone, Copy, Debug)]
pub struct AmmoBox {
    pub weapon_code: i32,
    pub netname: &'static str,
    pub small: Model,
    pub small_amt: i32,
    pub big: Model,
    pub big_amt: i32,
}

/// A powerup: how it looks, sounds and is called, what owning it sets, and its glow.
#[derive(Clone, Copy, Debug)]
pub struct PowerupSpawn {
    pub model: Model,
    pub noise: Sound,
    pub netname: &'static str,
    pub item_bit: i32,
    pub effect: i32,
}

/// A flame or globe of light.
#[derive(Clone, Copy, PartialEq, Eq, Debug, Structural)]
pub struct FlameSpawn {
    pub model: Model,
    pub skin: i32,
    pub frame: bool,
}

/// An exploding box, `width` wide and deep and `height` high.
#[derive(Clone, Copy, PartialEq, Eq, Debug, Structural)]
pub struct ExploboxSpawn {
    pub model: Model,
    pub width: i32,
    pub height: i32,
}

/// What becomes of an entity of some class.
#[derive(Clone, Copy, Debug)]
pub enum SpawnAction {
    /// It stays as it is, to be found later.
    Keep,
    /// It is freed.
    Drop,
    /// It is set up by its class.
    Spawn(SpawnFn),
    /// Armor, by skin.
    Armor(i32),
    Weapon,
    Ammo(AmmoBox),
    Powerup(PowerupSpawn),
    Flame(FlameSpawn),
    Explobox(ExploboxSpawn),
}

/// What becomes of an entity of class `class`. A class without a rule is dropped.
pub open spec fn spawn_rule(class: Seq<char>) -> SpawnAction {
    if class == "info_player_start"@ || class == "info_player_start2"@ || class == "info_player_deathmatch"@ || class == "info_player_coop"@ || class == "info_player_team1"@ || class == "info_player_team2"@ || class == "info_player_team3"@ || class == "info_player_team4"@ || class == "info_intermission"@ || class == "info_notnull"@ {
        SpawnAction::Keep
    } else if class == "item_health"@ {
        SpawnAction::Spawn(SpawnFn::ItemHealth)
    } else if class == "item_armor1"@ {
        SpawnAction::Armor(0)
    } else if class == "item_armor2"@ {
        SpawnAction::Armor(1)
    } else if class == "item_armorInv"@ {
        SpawnAction::Armor(2)
    } else if class == "weapon_supershotgun"@ || class == "weapon_nailgun"@ || class == "weapon_supernailgun"@ || class == "weapon_grenadelauncher"@ || class == "weapon_rocketlauncher"@ || class == "weapon_lightning"@ {
        SpawnAction::Weapon
    } else if class == "item_shells"@ {
        SpawnAction::Ammo(AmmoBox {
            weapon_code: 1,
            netname: "shells",
            small: Model::MAPS_B_SHELL0,
            small_amt: 20,
            big: Model::MAPS_B_SHELL1,
            big_amt: 40,
        })
    } else if class == "item_spikes"@ {
        SpawnAction::Ammo(AmmoBox {
            weapon_code: 2,
            netname: "nails",
            small: Model::MAPS_B_NAIL0,
            small_amt: 25,
            big: Model::MAPS_B_NAIL1,
            big_amt: 50,
        })
    } else if class == "item_rockets"@ {
        SpawnAction::Ammo(AmmoBox {
            weapon_code: 3,
            netname: "rockets",
            small: Model::MAPS_B_ROCK0,
            small_amt: 5,
            big: Model::MAPS_B_ROCK1,
            big_amt: 10,
        })
    } else if class == "item_cells"@ {
        SpawnAction::Ammo(AmmoBox {
            weapon_code: 4,
            netname: "cells",
            small: Model::MAPS_B_BATT0,
            small_amt: 6,
            big: Model::MAPS_B_BATT1,
            big_amt: 12,
        })
    } else if class == "item_artifact_invulnerability"@ {
        SpawnAction::Powerup(PowerupSpawn {
            model: Model::PROGS_INVULNER,
            noise: Sound::ITEMS_PROTECT,
            netname: "Pentagram of Protection",
            item_bit: Items::INVULNERABILITY,
            effect: Effects::RED,
        })
    } else if class == "item_artifact_envirosuit"@ {
        SpawnAction::Powerup(PowerupSpawn {
            model: Model::PROGS_SUIT,
            noise: Sound::ITEMS_SUIT,
            netname: "Biosuit",
            item_bit: Items::SUIT,
            effect: 0,
        })
    } else if class == "item_artifact_invisibility"@ {
        SpawnAction::Powerup(PowerupSpawn {
            model: Model::PROGS_INVISIBL,
            noise: Sound::ITEMS_INV1,
            netname: "Ring of Shadows",
            item_bit: Items::INVISIBILITY,
            effect: 0,
        })
    } else if class == "item_artifact_super_damage"@ {
        SpawnAction::Powerup(PowerupSpawn {
            model: Model::PROGS_QUADDAMA,
            noise: Sound::ITEMS_DAMAGE,
            netname: "Quad Damage",
            item_bit: Items::QUAD,
            effect: Effects::BLUE,
        })
    } else if class == "trigger_multiple"@ {
        SpawnAction::Spawn(SpawnFn::TriggerMultiple)
    } else if class == "trigger_once"@ {
        SpawnAction::Spawn(SpawnFn::TriggerOnce)
    } else if class == "trigger_relay"@ {
        SpawnAction::Spawn(SpawnFn::TriggerRelay)
    } else if class == "trigger_secret"@ {
        SpawnAction::Spawn(SpawnFn::TriggerSecret)
    } else if class == "trigger_counter"@ {
        SpawnAction::Spawn(SpawnFn::TriggerCounter)
    } else if class == "trigger_teleport"@ {
        SpawnAction::Spawn(SpawnFn::TriggerTeleport)
    } else if class == "trigger_hurt"@ {
        SpawnAction::Spawn(SpawnFn::TriggerHurt)
    } else if class == "trigger_push"@ {
        SpawnAction::Spawn(SpawnFn::TriggerPush)
    } else if class == "trigger_monsterjump"@ {
        SpawnAction::Spawn(SpawnFn::TriggerMonsterjump)
    } else if class == "trigger_changelevel"@ {
        SpawnAction::Spawn(SpawnFn::TriggerChangelevel)
    } else if class == "info_teleport_destination"@ {
        SpawnAction::Spawn(SpawnFn::InfoTeleportDestination)
    } else if class == "trigger_setskill"@ {
        SpawnAction::Drop
    } else if class == "func_button"@ {
        SpawnAction::Spawn(SpawnFn::FuncButton)
    } else if class == "func_door"@ {
        SpawnAction::Spawn(SpawnFn::FuncDoor)
    } else if class == "func_door_secret"@ {
        SpawnAction::Spawn(SpawnFn::FuncDoorSecret)
    } else if class == "func_plat"@ {
        SpawnAction::Spawn(SpawnFn::FuncPlat)
    } else if class == "func_train"@ {
        SpawnAction::Spawn(SpawnFn::FuncTrain)
    } else if class == "path_corner"@ {
        SpawnAction::Keep
    } else if class == "info_null"@ {
        SpawnAction::Spawn(SpawnFn::InfoNull)
    } else if class == "light"@ {
        SpawnAction::Spawn(SpawnFn::Light)
    } else if class == "light_fluoro"@ {
        SpawnAction::Spawn(SpawnFn::LightFluoro)
    } else if class == "light_fluorospark"@ {
        SpawnAction::Spawn(SpawnFn::LightFluorospark)
    } else if class == "light_globe"@ {
        SpawnAction::Flame(FlameSpawn { model: Model::PROGS_S_LIGHT, skin: 0, frame: false })
    } else if class == "light_torch_small_walltorch"@ {
        SpawnAction::Flame(FlameSpawn { model: Model::PROGS_FLAME, skin: 0, frame: true })
    } else if class == "light_flame_large_yellow"@ {
        SpawnAction::Flame(FlameSpawn { model: Model::PROGS_FLAME2, skin: 1, frame: true })
    } else if class == "light_flame_small_yellow"@ || class == "light_flame_small_white"@ {
        SpawnAction::Flame(FlameSpawn { model: Model::PROGS_FLAME2, skin: 0, frame: true })
    } else if class == "func_wall"@ || class == "func_episodegate"@ || class == "func_bossgate"@ {
        SpawnAction::Spawn(SpawnFn::FuncWall)
    } else if class == "func_illusionary"@ {
        SpawnAction::Spawn(SpawnFn::FuncIllusionary)
    } else if class == "misc_explobox"@ {
        SpawnAction::Explobox(ExploboxSpawn { model: Model::MAPS_B_EXPLOB, width: 32, height: 64 })
    } else if class == "misc_explobox2"@ {
        SpawnAction::Explobox(ExploboxSpawn { model: Model::MAPS_B_EXBOX2, width: 32, height: 32 })
    } else {
        SpawnAction::Drop
    }
}

pub fn resolve_spawn_class(class: &str) -> (r: SpawnAction)
    ensures
        r == spawn_rule(class@),
{
    if same_text(class, "info_player_start") || same_text(class, "info_player_start2") || same_text(class, "info_player_deathmatch") || same_text(class, "info_player_coop") || same_text(class, "info_player_team1") || same_text(class, "info_player_team2") || same_text(class, "info_player_team3") || same_text(class, "info_player_team4") || same_text(class, "info_intermission") || same_text(class, "info_notnull") {
        SpawnAction::Keep
    } else if same_text(class, "item_health") {
        SpawnAction::Spawn(SpawnFn::ItemHealth)
    } else if same_text(class, "item_armor1") {
        SpawnAction::Armor(0)
    } else if same_text(class, "item_armor2") {
        SpawnAction::Armor(1)
    } else if same_text(class, "item_armorInv") {
        SpawnAction::Armor(2)
    } else if same_text(class, "weapon_supershotgun") || same_text(class, "weapon_nailgun") || same_text(class, "weapon_supernailgun") || same_text(class, "weapon_grenadelauncher") || same_text(class, "weapon_rocketlauncher") || same_text(class, "weapon_lightning") {
        SpawnAction::Weapon
    } else if same_text(class, "item_shells") {
        SpawnAction::Ammo(AmmoBox {
            weapon_code: 1,
            netname: "shells",
            small: Model::MAPS_B_SHELL0,
            small_amt: 20,
            big: Model::MAPS_B_SHELL1,
            big_amt: 40,
        })
    } else if same_text(class, "item_spikes") {
        SpawnAction::Ammo(AmmoBox {
            weapon_code: 2,
            netname: "nails",
            small: Model::MAPS_B_NAIL0,
            small_amt: 25,
            big: Model::MAPS_B_NAIL1,
            big_amt: 50,
        })
    } else if same_text(class, "item_rockets") {
        SpawnAction::Ammo(AmmoBox {
            weapon_code: 3,
            netname: "rockets",
            small: Model::MAPS_B_ROCK0,
            small_amt: 5,
            big: Model::MAPS_B_ROCK1,
            big_amt: 10,
        })
    } else if same_text(class, "item_cells") {
        SpawnAction::Ammo(AmmoBox {
            weapon_code: 4,
            netname: "cells",
            small: Model::MAPS_B_BATT0,
            small_amt: 6,
            big: Model::MAPS_B_BATT1,
            big_amt: 12,
        })
    } else if same_text(class, "item_artifact_invulnerability") {
        SpawnAction::Powerup(PowerupSpawn {
            model: Model::PROGS_INVULNER,
            noise: Sound::ITEMS_PROTECT,
            netname: "Pentagram of Protection",
            item_bit: Items::INVULNERABILITY,
            effect: Effects::RED,
        })
    } else if same_text(class, "item_artifact_envirosuit") {
        SpawnAction::Powerup(PowerupSpawn {
            model: Model::PROGS_SUIT,
            noise: Sound::ITEMS_SUIT,
            netname: "Biosuit",
            item_bit: Items::SUIT,
            effect: 0,
        })
    } else if same_text(class, "item_artifact_invisibility") {
        SpawnAction::Powerup(PowerupSpawn {
            model: Model::PROGS_INVISIBL,
            noise: Sound::ITEMS_INV1,
            netname: "Ring of Shadows",
            item_bit: Items::INVISIBILITY,
            effect: 0,
        })
    } else if same_text(class, "item_artifact_super_damage") {
        SpawnAction::Powerup(PowerupSpawn {
            model: Model::PROGS_QUADDAMA,
            noise: Sound::ITEMS_DAMAGE,
            netname: "Quad Damage",
            item_bit: Items::QUAD,
            effect: Effects::BLUE,
        })
    } else if same_text(class, "trigger_multiple") {
        SpawnAction::Spawn(SpawnFn::TriggerMultiple)
    } else if same_text(class, "trigger_once") {
        SpawnAction::Spawn(SpawnFn::TriggerOnce)
    } else if same_text(class, "trigger_relay") {
        SpawnAction::Spawn(SpawnFn::TriggerRelay)
    } else if same_text(class, "trigger_secret") {
        SpawnAction::Spawn(SpawnFn::TriggerSecret)
    } else if same_text(class, "trigger_counter") {
        SpawnAction::Spawn(SpawnFn::TriggerCounter)
    } else if same_text(class, "trigger_teleport") {
        SpawnAction::Spawn(SpawnFn::TriggerTeleport)
    } else if same_text(class, "trigger_hurt") {
        SpawnAction::Spawn(SpawnFn::TriggerHurt)
    } else if same_text(class, "trigger_push") {
        SpawnAction::Spawn(SpawnFn::TriggerPush)
    } else if same_text(class, "trigger_monsterjump") {
        SpawnAction::Spawn(SpawnFn::TriggerMonsterjump)
    } else if same_text(class, "trigger_changelevel") {
        SpawnAction::Spawn(SpawnFn::TriggerChangelevel)
    } else if same_text(class, "info_teleport_destination") {
        SpawnAction::Spawn(SpawnFn::InfoTeleportDestination)
    } else if same_text(class, "trigger_setskill") {
        SpawnAction::Drop
    } else if same_text(class, "func_button") {
        SpawnAction::Spawn(SpawnFn::FuncButton)
    } else if same_text(class, "func_door") {
        SpawnAction::Spawn(SpawnFn::FuncDoor)
    } else if same_text(class, "func_door_secret") {
        SpawnAction::Spawn(SpawnFn::FuncDoorSecret)
    } else if same_text(class, "func_plat") {
        SpawnAction::Spawn(SpawnFn::FuncPlat)
    } else if same_text(class, "func_train") {
        SpawnAction::Spawn(SpawnFn::FuncTrain)
    } else if same_text(class, "path_corner") {
        SpawnAction::Keep
    } else if same_text(class, "info_null") {
        SpawnAction::Spawn(SpawnFn::InfoNull)
    } else if same_text(class, "light") {
        SpawnAction::Spawn(SpawnFn::Light)
    } else if same_text(class, "light_fluoro") {
        SpawnAction::Spawn(SpawnFn::LightFluoro)
    } else if same_text(class, "light_fluorospark") {
        SpawnAction::Spawn(SpawnFn::LightFluorospark)
    } else if same_text(class, "light_globe") {
        SpawnAction::Flame(FlameSpawn { model: Model::PROGS_S_LIGHT, skin: 0, frame: false })
    } else if same_text(class, "light_torch_small_walltorch") {
        SpawnAction::Flame(FlameSpawn { model: Model::PROGS_FLAME, skin: 0, frame: true })
    } else if same_text(class, "light_flame_large_yellow") {
        SpawnAction::Flame(FlameSpawn { model: Model::PROGS_FLAME2, skin: 1, frame: true })
    } else if same_text(class, "light_flame_small_yellow") || same_text(class, "light_flame_small_white") {
        SpawnAction::Flame(FlameSpawn { model: Model::PROGS_FLAME2, skin: 0, frame: true })
    } else if same_text(class, "func_wall") || same_text(class, "func_episodegate") || same_text(class, "func_bossgate") {
        SpawnAction::Spawn(SpawnFn::FuncWall)
    } else if same_text(class, "func_illusionary") {
        SpawnAction::Spawn(SpawnFn::FuncIllusionary)
    } else if same_text(class, "misc_explobox") {
        SpawnAction::Explobox(ExploboxSpawn { model: Model::MAPS_B_EXPLOB, width: 32, height: 64 })
    } else if same_text(class, "misc_explobox2") {
        SpawnAction::Explobox(ExploboxSpawn { model: Model::MAPS_B_EXBOX2, width: 32, height: 32 })
    } else {
        SpawnAction::Drop
    }
}

/// Whether an entity with these spawn flags exists under the server's rules.
pub open spec fn survives_filter(spawnflags: i32, deathmatch: i32, skill: i32) -> bool {
    if deathmatch != 0 {
        spawnflags & SpawnFilter::NOT_DEATHMATCH == 0
    } else if skill == 0 {
        spawnflags & SpawnFilter::NOT_EASY == 0
    } else if skill == 1 {
        spawnflags & SpawnFilter::NOT_MEDIUM == 0
    } else {
        spawnflags & SpawnFilter::NOT_HARD == 0
    }
}

pub fn passes_spawn_filter(spawnflags: i32, deathmatch: i32, skill: i32) -> (r: bool)
    ensures
        r == survives_filter(spawnflags, deathmatch, skill),
{
    if deathmatch != 0 {
        return !spawnflags.has(SpawnFilter::NOT_DEATHMATCH);
    }
    let bit: i32 = match skill {
        0 => SpawnFilter::NOT_EASY,
        1 => SpawnFilter::NOT_MEDIUM,
        _ => SpawnFilter::NOT_HARD,
    };
    !spawnflags.has(bit)
}

/// What becomes of an entity: an entity without a class is dropped.
pub fn call_spawn(ent: &Entity) -> (r: SpawnAction)
    ensures
        r == match ent.class() {
            Some(c) => spawn_rule(c),
            None => SpawnAction::Drop,
        },
{
    match ent.classname() {
        Some(c) => resolve_spawn_class(c),
        None => SpawnAction::Drop,
    }
}

/// What becomes of a freshly configured entity under the server's rules. `Drop` frees it.
pub fn spawn_entity(ent: &Entity, deathmatch: i32, skill: i32) -> (r: SpawnAction)
    ensures
        r == spawn_fate(*ent, deathmatch, skill),
        r == if !survives_filter(ent.v.spawnflags, deathmatch, skill) {
            SpawnAction::Drop
        } else {
            match ent.class() {
                Some(c) => spawn_rule(c),
                None => SpawnAction::Drop,
            }
        },
{
    if passes_spawn_filter(ent.v.spawnflags, deathmatch, skill) {
        call_spawn(ent)
    } else {
        SpawnAction::Drop
    }
}

/// A vector key that the caller reads from the value's text.
#[derive(Clone, Copy, PartialEq, Eq, Debug, Structural)]
pub enum VectorKey {
    Origin,
    Angles,
    /// One number: the yaw, with level pitch and roll.
    Angle,
}

/// The entity after key `key` was set to `value`, which reads as the number `number`. A text key
/// leaves `slot` holding the value.
pub open spec fn field_set(before: Entity, key: Seq<char>, number: i32, slot: Option<String>) -> Entity {
    if key == "classname"@ {
        Entity { classname: slot, ..before }
    } else if key == "model"@ {
        Entity { model: slot, ..before }
    } else if key == "target"@ {
        Entity { target: slot, ..before }
    } else if key == "targetname"@ {
        Entity { targetname: slot, ..before }
    } else if key == "killtarget"@ {
        Entity { killtarget: slot, ..before }
    } else if key == "map"@ {
        Entity { map: slot, ..before }
    } else if key == "message"@ {
        Entity { message: slot, ..before }
    } else if key == "netname"@ {
        Entity { netname: slot, ..before }
    } else if key == "spawnflags"@ {
        Entity { v: EntVars { spawnflags: number, ..before.v }, ..before }
    } else if key == "worldtype"@ {
        Entity { v: EntVars { skin: number, ..before.v }, ..before }
    } else if key == "health"@ {
        Entity { v: EntVars { health: number, ..before.v }, ..before }
    } else if key == "frags"@ {
        Entity { v: EntVars { frags: number, ..before.v }, ..before }
    } else if key == "team"@ {
        Entity { v: EntVars { team: number, ..before.v }, ..before }
    } else if key == "items"@ {
        Entity { v: EntVars { items: number, ..before.v }, ..before }
    } else if key == "sounds"@ {
        Entity { v: EntVars { sounds: number, ..before.v }, ..before }
    } else {
        before
    }
}

pub open spec fn vector_key(key: Seq<char>) -> Option<VectorKey> {
    if key == "origin"@ {
        Some(VectorKey::Origin)
    } else if key == "angles"@ {
        Some(VectorKey::Angles)
    } else if key == "angle"@ {
        Some(VectorKey::Angle)
    } else {
        None
    }
}

/// Set one map key on an entity. `number` is what the value reads as, zero where it is no number.
/// An unknown key is ignored; for a vector key the result tells which vector the value gives. The
/// world's `worldtype` is kept in its skin.
pub fn set_field(ent: &mut Entity, key: &str, value: &str, number: i32) -> (r: Option<VectorKey>)
    ensures
        r == vector_key(key@),
        exists|slot: Option<String>|
            #![trigger field_set(*old(ent), key@, number, slot)]
            slot matches Some(s) && s@ == value@ && *final(ent) == field_set(*old(ent), key@, number, slot),
{
    let slot: Option<String> = Some(value.to_owned());
    let ghost slot_model = slot;
    proof {
        reveal_strlit("classname");
        reveal_strlit("model");
        reveal_strlit("target");
        reveal_strlit("targetname");
        reveal_strlit("killtarget");
        reveal_strlit("map");
        reveal_strlit("message");
        reveal_strlit("netname");
        reveal_strlit("spawnflags");
        reveal_strlit("worldtype");
        reveal_strlit("health");
        reveal_strlit("frags");
        reveal_strlit("team");
        reveal_strlit("items");
        reveal_strlit("sounds");
        reveal_strlit("origin");
        reveal_strlit("angles");
        reveal_strlit("angle");
    }
    if same_text(key, "classname") {
        ent.classname = slot;
    } else if same_text(key, "model") {
        ent.model = slot;
    } else if same_text(key, "target") {
        ent.target = slot;
    } else if same_text(key, "targetname") {
        ent.targetname = slot;
    } else if same_text(key, "killtarget") {
        ent.killtarget = slot;
    } else if same_text(key, "map") {
        ent.map = slot;
    } else if same_text(key, "message") {
        ent.message = slot;
    } else if same_text(key, "netname") {
        ent.netname = slot;
    } else if same_text(key, "spawnflags") {
        ent.v.spawnflags = number;
    } else if same_text(key, "worldtype") {
        ent.v.skin = number;
    } else if same_text(key, "health") {
        ent.v.health = number;
    } else if same_text(key, "frags") {
        ent.v.frags = number;
    } else if same_text(key, "team") {
        ent.v.team = number;
    } else if same_text(key, "items") {
        ent.v.items = number;
    } else if same_text(key, "sounds") {
        ent.v.sounds = number;
    }
    assert(*ent == field_set(*old(ent), key@, number, slot_model));
    if same_text(key, "origin") {
        Some(VectorKey::Origin)
    } else if same_text(key, "angles") {
        Some(VectorKey::Angles)
    } else if same_text(key, "angle") {
        Some(VectorKey::Angle)
    } else {
        None
    }
}

/// Filtering is by one bit alone: a map entity that no filter bit is set on is in every game.
pub proof fn unfiltered_entities_always_spawn(spawnflags: i32, deathmatch: i32, skill: i32)
    requires
        spawnflags & SpawnFilter::KNOWN == 0,
    ensures
        survives_filter(spawnflags, deathmatch, skill),
{
    assert(spawnflags & 0xf00 == 0 ==> spawnflags & (1i32 << 8) == 0 && spawnflags & (1i32 << 9) == 0
        && spawnflags & (1i32 << 10) == 0 && spawnflags & (1i32 << 11) == 0) by (bit_vector);
}

// --- what spawning promises ---
/// The flags keep an entity out of deathmatch, or out of a skill.
pub proof fn filters_are_by_mode_and_skill(spawnflags: i32, deathmatch: i32, skill: i32)
    ensures
        ({
            let s = survives_filter(spawnflags, deathmatch, skill);
            &&& deathmatch != 0 ==> (s <==> spawnflags & SpawnFilter::NOT_DEATHMATCH == 0)
            &&& deathmatch == 0 && skill == 0 ==> (s <==> spawnflags & SpawnFilter::NOT_EASY == 0)
            &&& deathmatch == 0 && skill == 1 ==> (s <==> spawnflags & SpawnFilter::NOT_MEDIUM == 0)
            &&& deathmatch == 0 && skill != 0 && skill != 1 ==> (s <==> spawnflags & SpawnFilter::NOT_HARD == 0)
        }),
{
}

/// What a class is set up as tells what class it is: players' spots and paths are kept, and each kind of
/// item, light, trigger and mover belongs to its own class.
pub proof fn setups_belong_to_their_class(class: Seq<char>)
    ensures
        ({
            let r = spawn_rule(class);
            &&& r is Keep ==> class == "info_player_start"@ || class == "info_player_start2"@ || class
                == "info_player_deathmatch"@ || class == "info_player_coop"@ || class == "info_player_team1"@ || class
                == "info_player_team2"@ || class == "info_player_team3"@ || class == "info_player_team4"@ || class
                == "info_intermission"@ || class == "info_notnull"@ || class == "path_corner"@
            &&& r == SpawnAction::Armor(0) ==> class == "item_armor1"@
            &&& r == SpawnAction::Armor(1) ==> class == "item_armor2"@
            &&& r == SpawnAction::Armor(2) ==> class == "item_armorInv"@
            &&& (r matches SpawnAction::Armor(skin)) ==> r == SpawnAction::Armor(0) || r == SpawnAction::Armor(1) || r
                == SpawnAction::Armor(2)
            &&& r is Weapon ==> class == "weapon_supershotgun"@ || class == "weapon_nailgun"@ || class
                == "weapon_supernailgun"@ || class == "weapon_grenadelauncher"@ || class == "weapon_rocketlauncher"@ || class
                == "weapon_lightning"@
            &&& r matches SpawnAction::Ammo(b) ==> {
                &&& b.weapon_code == 1 ==> class == "item_shells"@ && b.small_amt == 20 && b.big_amt == 40
                &&& b.weapon_code == 2 ==> class == "item_spikes"@ && b.small_amt == 25 && b.big_amt == 50
                &&& b.weapon_code == 3 ==> class == "item_rockets"@ && b.small_amt == 5 && b.big_amt == 10
                &&& b.weapon_code == 4 ==> class == "item_cells"@ && b.small_amt == 6 && b.big_amt == 12
                &&& 1 <= b.weapon_code <= 4
            }
            &&& r matches SpawnAction::Powerup(p) ==> {
                ||| (class == "item_artifact_invulnerability"@ && p.item_bit == Items::INVULNERABILITY && p.effect
                    == Effects::RED)
                ||| (class == "item_artifact_envirosuit"@ && p.item_bit == Items::SUIT && p.effect == 0)
                ||| (class == "item_artifact_invisibility"@ && p.item_bit == Items::INVISIBILITY && p.effect == 0)
                ||| (class == "item_artifact_super_damage"@ && p.item_bit == Items::QUAD && p.effect == Effects::BLUE)
            }
            &&& r matches SpawnAction::Flame(f) ==> {
                ||| (class == "light_globe"@ && f.skin == 0 && !f.frame && f.model == Model::PROGS_S_LIGHT)
                ||| (class == "light_torch_small_walltorch"@ && f.skin == 0 && f.frame && f.model == Model::PROGS_FLAME)
                ||| (class == "light_flame_large_yellow"@ && f.skin == 1 && f.frame && f.model == Model::PROGS_FLAME2)
                ||| ((class == "light_flame_small_yellow"@ || class == "light_flame_small_white"@) && f.skin == 0 && f.frame
                    && f.model == Model::PROGS_FLAME2)
            }
            &&& r matches SpawnAction::Explobox(x) ==> {
                ||| (class == "misc_explobox"@ && x.width == 32 && x.height == 64)
                ||| (class == "misc_explobox2"@ && x.width == 32 && x.height == 32)
            }
        }),
{
}

/// Each routine of a class is for that class.
pub proof fn routines_belong_to_their_class(class: Seq<char>)
    ensures
        ({
            let r = spawn_rule(class);
            &&& r == SpawnAction::Spawn(SpawnFn::ItemHealth) ==> class == "item_health"@
            &&& r == SpawnAction::Spawn(SpawnFn::TriggerMultiple) ==> class == "trigger_multiple"@
            &&& r == SpawnAction::Spawn(SpawnFn::TriggerOnce) ==> class == "trigger_once"@
            &&& r == SpawnAction::Spawn(SpawnFn::TriggerRelay) ==> class == "trigger_relay"@
            &&& r == SpawnAction::Spawn(SpawnFn::TriggerSecret) ==> class == "trigger_secret"@
            &&& r == SpawnAction::Spawn(SpawnFn::TriggerCounter) ==> class == "trigger_counter"@
            &&& r == SpawnAction::Spawn(SpawnFn::TriggerTeleport) ==> class == "trigger_teleport"@
            &&& r == SpawnAction::Spawn(SpawnFn::TriggerHurt) ==> class == "trigger_hurt"@
            &&& r == SpawnAction::Spawn(SpawnFn::TriggerPush) ==> class == "trigger_push"@
            &&& r == SpawnAction::Spawn(SpawnFn::TriggerMonsterjump) ==> class == "trigger_monsterjump"@
            &&& r == SpawnAction::Spawn(SpawnFn::TriggerChangelevel) ==> class == "trigger_changelevel"@
            &&& r == SpawnAction::Spawn(SpawnFn::InfoTeleportDestination) ==> class == "info_teleport_destination"@
            &&& r == SpawnAction::Spawn(SpawnFn::FuncButton) ==> class == "func_button"@
            &&& r == SpawnAction::Spawn(SpawnFn::FuncDoor) ==> class == "func_door"@
            &&& r == SpawnAction::Spawn(SpawnFn::FuncDoorSecret) ==> class == "func_door_secret"@
            &&& r == SpawnAction::Spawn(SpawnFn::FuncPlat) ==> class == "func_plat"@
            &&& r == SpawnAction::Spawn(SpawnFn::FuncTrain) ==> class == "func_train"@
            &&& r == SpawnAction::Spawn(SpawnFn::InfoNull) ==> class == "info_null"@
            &&& r == SpawnAction::Spawn(SpawnFn::Light) ==> class == "light"@
            &&& r == SpawnAction::Spawn(SpawnFn::LightFluoro) ==> class == "light_fluoro"@
            &&& r == SpawnAction::Spawn(SpawnFn::LightFluorospark) ==> class == "light_fluorospark"@
            &&& r == SpawnAction::Spawn(SpawnFn::FuncWall) ==> class == "func_wall"@ || class == "func_episodegate"@ || class
                == "func_bossgate"@
            &&& r == SpawnAction::Spawn(SpawnFn::FuncIllusionary) ==> class == "func_illusionary"@
        }),
{
}

/// Nothing that is known is freed.
pub proof fn known_classes_are_not_freed(class: Seq<char>)
    requires
        class == "info_player_start"@ || class == "info_player_deathmatch"@ || class == "info_intermission"@ || class
            == "info_notnull"@ || class == "item_health"@ || class == "item_armor1"@ || class == "item_armor2"@ || class
            == "item_armorInv"@ || class == "weapon_supershotgun"@ || class == "weapon_nailgun"@ || class
            == "weapon_supernailgun"@ || class == "weapon_grenadelauncher"@ || class == "weapon_rocketlauncher"@ || class
            == "weapon_lightning"@ || class == "item_shells"@ || class == "item_spikes"@ || class == "item_rockets"@ || class
            == "item_cells"@ || class == "item_artifact_invulnerability"@ || class == "item_artifact_envirosuit"@ || class
            == "item_artifact_invisibility"@ || class == "item_artifact_super_damage"@ || class == "trigger_multiple"@
            || class == "trigger_once"@ || class == "trigger_relay"@ || class == "trigger_secret"@ || class
            == "trigger_counter"@ || class == "trigger_teleport"@ || class == "trigger_hurt"@ || class == "trigger_push"@
            || class == "trigger_monsterjump"@ || class == "trigger_changelevel"@ || class == "info_teleport_destination"@
            || class == "func_button"@ || class == "func_door"@ || class == "func_door_secret"@ || class == "func_plat"@
            || class == "func_train"@ || class == "path_corner"@ || class == "info_null"@ || class == "light"@ || class
            == "light_fluoro"@ || class == "light_globe"@ || class == "light_torch_small_walltorch"@ || class
            == "light_flame_large_yellow"@ || class == "light_flame_small_yellow"@ || class == "light_flame_small_white"@
            || class == "func_wall"@ || class == "func_illusionary"@ || class == "misc_explobox"@ || class
            == "misc_explobox2"@,
    ensures
        spawn_rule(class) != SpawnAction::Drop,
{
    reveal_strlit("trigger_setskill");
    reveal_strlit("func_button");
    reveal_strlit("func_door");
    reveal_strlit("func_door_secret");
    reveal_strlit("func_plat");
    reveal_strlit("func_train");
    reveal_strlit("path_corner");
    reveal_strlit("info_null");
    reveal_strlit("light");
    reveal_strlit("light_fluoro");
    reveal_strlit("light_globe");
    reveal_strlit("light_torch_small_walltorch");
    reveal_strlit("light_flame_large_yellow");
    reveal_strlit("light_flame_small_yellow");
    reveal_strlit("light_flame_small_white");
    reveal_strlit("func_wall");
    reveal_strlit("func_illusionary");
    reveal_strlit("misc_explobox");
    reveal_strlit("misc_explobox2");
    assert("trigger_setskill"@[0] == 't');
    assert("func_button"@[0] == 'f' && "func_door"@[0] == 'f' && "func_door_secret"@[0] == 'f' && "func_plat"@[0] == 'f');
    assert("func_train"@[0] == 'f' && "path_corner"@[0] == 'p' && "info_null"@[0] == 'i' && "light"@[0] == 'l');
    assert("light_fluoro"@[0] == 'l' && "light_globe"@[0] == 'l' && "light_torch_small_walltorch"@[0] == 'l');
    assert("light_flame_large_yellow"@[0] == 'l' && "light_flame_small_yellow"@[0] == 'l');
    assert("light_flame_small_white"@[0] == 'l' && "func_wall"@[0] == 'f' && "func_illusionary"@[0] == 'f');
    assert("misc_explobox"@[0] == 'm' && "misc_explobox2"@[0] == 'm');
}

/// A field of a block sets what it names, and nothing else: what changed tells the key.
pub proof fn keys_set_what_they_name(before: Entity, key: Seq<char>, number: i32, slot: Option<String>)
    ensures
        ({
            let e = field_set(before, key, number, slot);
            &&& key == "classname"@ ==> e.classname == slot
            &&& e.classname != before.classname ==> key == "classname"@
            &&& e.model != before.model ==> key == "model"@ && e.model == slot
            &&& e.target != before.target ==> key == "target"@ && e.target == slot
            &&& e.targetname != before.targetname ==> key == "targetname"@ && e.targetname == slot
            &&& e.killtarget != before.killtarget ==> key == "killtarget"@ && e.killtarget == slot
            &&& e.map != before.map ==> key == "map"@ && e.map == slot
            &&& e.message != before.message ==> key == "message"@ && e.message == slot
            &&& e.netname != before.netname ==> key == "netname"@ && e.netname == slot
            &&& e.v.spawnflags != before.v.spawnflags ==> key == "spawnflags"@ && e.v.spawnflags == number
            &&& e.v.skin != before.v.skin ==> key == "worldtype"@ && e.v.skin == number
            &&& e.v.health != before.v.health ==> key == "health"@ && e.v.health == number
            &&& e.v.frags != before.v.frags ==> key == "frags"@ && e.v.frags == number
            &&& e.v.team != before.v.team ==> key == "team"@ && e.v.team == number
            &&& e.v.items != before.v.items ==> key == "items"@ && e.v.items == number
            &&& e.v.sounds != before.v.sounds ==> key == "sounds"@ && e.v.sounds == number
            &&& e.mover == before.mover && e.v.max_health == before.v.max_health
        }),
{
}

proof fn lemma_keys_differ()
    ensures
        "classname"@.len() == 9 && "model"@.len() == 5 && "target"@.len() == 6 && "targetname"@.len() == 10,
        "killtarget"@.len() == 10 && "map"@.len() == 3 && "message"@.len() == 7 && "netname"@.len() == 7,
        "spawnflags"@.len() == 10 && "worldtype"@.len() == 9 && "health"@.len() == 6 && "frags"@.len() == 5,
        "team"@.len() == 4 && "items"@.len() == 5 && "sounds"@.len() == 6,
        "classname"@[0] == 'c' && "model"@[0] == 'm' && "target"@[0] == 't' && "targetname"@[0] == 't',
        "killtarget"@[0] == 'k' && "message"@[0] == 'm' && "netname"@[0] == 'n' && "spawnflags"@[0] == 's',
        "worldtype"@[0] == 'w' && "health"@[0] == 'h' && "frags"@[0] == 'f' && "items"@[0] == 'i' && "sounds"@[0] == 's',
{
    reveal_strlit("classname");
    reveal_strlit("model");
    reveal_strlit("target");
    reveal_strlit("targetname");
    reveal_strlit("killtarget");
    reveal_strlit("map");
    reveal_strlit("message");
    reveal_strlit("netname");
    reveal_strlit("spawnflags");
    reveal_strlit("worldtype");
    reveal_strlit("health");
    reveal_strlit("frags");
    reveal_strlit("team");
    reveal_strlit("items");
    reveal_strlit("sounds");
}

/// Every key that is known takes effect.
pub proof fn known_keys_take_effect(before: Entity, number: i32, slot: Option<String>)
    ensures
        field_set(before, "classname"@, number, slot).classname == slot,
        field_set(before, "model"@, number, slot).model == slot,
        field_set(before, "target"@, number, slot).target == slot,
        field_set(before, "targetname"@, number, slot).targetname == slot,
        field_set(before, "killtarget"@, number, slot).killtarget == slot,
        field_set(before, "map"@, number, slot).map == slot,
        field_set(before, "message"@, number, slot).message == slot,
        field_set(before, "netname"@, number, slot).netname == slot,
        field_set(before, "spawnflags"@, number, slot).v.spawnflags == number,
        field_set(before, "worldtype"@, number, slot).v.skin == number,
        field_set(before, "health"@, number, slot).v.health == number,
        field_set(before, "frags"@, number, slot).v.frags == number,
        field_set(before, "team"@, number, slot).v.team == number,
        field_set(before, "items"@, number, slot).v.items == number,
        field_set(before, "sounds"@, number, slot).v.sounds == number,
{
    lemma_keys_differ();
}

/// The keys that are vectors.
pub proof fn vectors_have_their_keys(key: Seq<char>)
    ensures
        vector_key("origin"@) == Some(VectorKey::Origin),
        vector_key("angles"@) == Some(VectorKey::Angles),
        vector_key("angle"@) == Some(VectorKey::Angle),
        vector_key(key) is Some ==> key == "origin"@ || key == "angles"@ || key == "angle"@,
{
    reveal_strlit("origin");
    reveal_strlit("angles");
    reveal_strlit("angle");
    assert("origin"@[0] == 'o' && "angles"@[0] == 'a' && "angle"@[0] == 'a');
    assert("angles"@.len() == 6 && "angle"@.len() == 5);
}

/// A block is a brace, pairs of words, and a brace; reading it gives back the pairs, and goes on behind
/// it.
pub proof fn blocks_are_read_back(w: Seq<Seq<char>>, at: int, pairs: Seq<(Seq<char>, Seq<char>)>)
    requires
        0 <= at,
        at + 2 * pairs.len() + 2 <= w.len(),
        w[at] == "{"@,
        w[at + 1 + 2 * pairs.len()] == "}"@,
        forall|i: int|
            0 <= i < pairs.len() ==> w[at + 1 + 2 * i] == (#[trigger] pairs[i]).0 && w[at + 2 + 2 * i] == pairs[i].1
                && pairs[i].0 != "}"@,
    ensures
        block_at(w, at) == (BlockModel::Fields(pairs), at + 2 * pairs.len() + 2),
{
    lemma_pairs_read_back(w, at + 1, pairs);
}

proof fn lemma_pairs_read_back(w: Seq<Seq<char>>, at: int, pairs: Seq<(Seq<char>, Seq<char>)>)
    requires
        0 <= at,
        at + 2 * pairs.len() + 1 <= w.len(),
        w[at + 2 * pairs.len()] == "}"@,
        forall|i: int|
            0 <= i < pairs.len() ==> w[at + 2 * i] == (#[trigger] pairs[i]).0 && w[at + 1 + 2 * i] == pairs[i].1
                && pairs[i].0 != "}"@,
    ensures
        pairs_from(w, at) == Some((pairs, (at + 2 * pairs.len() + 1) as int)),
    decreases pairs.len(),
{
    if pairs.len() > 0 {
        let rest = pairs.subrange(1, pairs.len() as int);
        assert(pairs[0].0 == w[at + 2 * 0]);
        assert forall|i: int| 0 <= i < rest.len() implies w[at + 2 + 2 * i] == (#[trigger] rest[i]).0 && w[at + 2 + 1 + 2
            * i] == rest[i].1 && rest[i].0 != "}"@ by {
            assert(rest[i] == pairs[i + 1]);
            assert(w[at + 2 * (i + 1)] == pairs[i + 1].0);
        }
        lemma_pairs_read_back(w, at + 2, rest);
        assert(seq![(w[at], w[at + 1])] + rest == pairs);
    } else {
        assert(pairs == Seq::<(Seq<char>, Seq<char>)>::empty());
    }
}

/// Where the words end there is no block, and where no brace stands there is none either.
pub proof fn blocks_start_with_a_brace(w: Seq<Seq<char>>, at: int)
    ensures
        at >= w.len() ==> block_at(w, at).0 == BlockModel::End,
        at < w.len() && w[at] != "{"@ ==> block_at(w, at) == (BlockModel::NotABlock, at + 1),
{
}

/// A map's blocks are read one behind the other, up to the first thing that is none.
pub proof fn blocks_follow_each_other(w: Seq<Seq<char>>, at: int)
    requires
        0 <= at,
    ensures
        ({
            let (b, next) = block_at(w, at);
            &&& !(b is Fields) ==> blocks_from(w, at).len() == 0
            &&& (b matches BlockModel::Fields(f) && at < next <= w.len()) ==> blocks_from(w, at) == seq![b->Fields_0]
                + blocks_from(w, next)
        }),
{
}

/// What becomes of a configured entity.
pub open spec fn spawn_fate(ent: Entity, deathmatch: i32, skill: i32) -> SpawnAction {
    if !survives_filter(ent.v.spawnflags, deathmatch, skill) {
        SpawnAction::Drop
    } else {
        match ent.class() {
            Some(c) => spawn_rule(c),
            None => SpawnAction::Drop,
        }
    }
}

/// What is filtered out, or has no class, is freed; anything else goes by its class.
pub proof fn filtered_entities_are_freed(ent: Entity, deathmatch: i32, skill: i32)
    ensures
        !survives_filter(ent.v.spawnflags, deathmatch, skill) ==> spawn_fate(ent, deathmatch, skill) == SpawnAction::Drop,
        ent.classname is None ==> spawn_fate(ent, deathmatch, skill) == SpawnAction::Drop,
        survives_filter(ent.v.spawnflags, deathmatch, skill) && ent.classname is Some ==> spawn_fate(ent, deathmatch, skill)
            == spawn_rule((ent.classname->0)@),
{
}

} // verus!
