//! Entities: their handles, callbacks and the state the rules keep for each.
use crate::abi::{EntVars, ENTITY_STRIDE};
use crate::assets::{Model, Sound};
use crate::bot::state::BotState;
use crate::text::same_text;
use vstd::prelude::*;

verus! {

/// A handle into the entity array.
#[derive(Clone, Copy, PartialEq, Eq, Hash, Debug, Structural)]
pub struct EntId(pub u32);

/// The byte offset of an entity, cut to 32 bits.
pub open spec fn prog_of(e: EntId) -> i32 {
    let low = (e.0 * ENTITY_STRIDE) % 0x1_0000_0000;
    if low < 0x8000_0000 {
        low as i32
    } else {
        (low - 0x1_0000_0000) as i32
    }
}

impl EntId {
    /// The number of the world entity.
    pub const WORLD: u32 = 0;

    pub fn world() -> (e: EntId)
        ensures
            e.0 == 0,
    {
        EntId(0)
    }

    pub fn index(self) -> (i: usize)
        ensures
            i == self.0,
    {
        self.0 as usize
    }

    /// The byte offset by which the engine refers to this entity, cut to 32 bits.
    pub fn to_prog(self) -> (prog: i32)
        ensures
            prog == prog_of(self),
            self.0 * ENTITY_STRIDE <= i32::MAX ==> prog == self.0 * ENTITY_STRIDE,
    {
        let wide: u64 = self.0 as u64 * ENTITY_STRIDE as u64;
        let prog: i32 = (wide & 0xffff_ffff) as u32 as i32;
        proof {
            let low: u64 = wide & 0xffff_ffff;
            let cut: u32 = low as u32;
            assert(low == wide % 0x1_0000_0000) by (bit_vector)
                requires
                    low == wide & 0xffff_ffff,
            ;
            assert(prog == if cut < 0x8000_0000u32 { cut as int } else { cut - 0x1_0000_0000 }) by (bit_vector)
                requires
                    prog == cut as i32,
            ;
        }
        prog
    }

    /// The entity that a byte offset refers to.
    pub fn from_prog(prog: i32) -> (e: EntId)
        ensures
            e == of_prog(prog),
    {
        let wide: i64 = prog as i64;
        let index: i64 = if wide >= 0 {
            wide / ENTITY_STRIDE as i64
        } else {
            0x1_0000_0000 - (ENTITY_STRIDE as i64 - 1 - wide) / ENTITY_STRIDE as i64
        };
        EntId(index as u32)
    }

    /// Whether this refers to an entity other than the world.
    pub fn is_some(self) -> (r: bool)
        ensures
            r == (self.0 != 0),
    {
        self.0 != 0
    }
}

/// A reference survives the trip through the engine's byte offset, for every entity whose offset
/// fits in 32 bits.
pub proof fn prog_round_trip(e: EntId)
    requires
        e.0 * ENTITY_STRIDE <= i32::MAX,
    ensures
        prog_of(e) == e.0 * ENTITY_STRIDE,
        of_prog(prog_of(e)) == e,
{
}

/// The entity that a byte offset refers to.
pub open spec fn of_prog(prog: i32) -> EntId {
    EntId(((prog as int / ENTITY_STRIDE as int) % 0x1_0000_0000) as u32)
}

/// A scheduled `think` behaviour.
#[derive(Clone, Copy, PartialEq, Eq, Debug, Structural)]
pub enum Think {
    Nil,
    SubCalcMoveDone,
    SubRemove,
    DelayedUse,
    PlayerStand,
    PlayerRun,
    PlayerAnim,
    PlayerDead,
    PlayerWeaponAnim,
    PlayerNail,
    PlayerLight,
    GrenadeExplode,
    SubRegen,
    PlaceItem,
    MegaHealthRot,
    DoorLink,
    DoorGoDown,
    DoorHitTop,
    DoorHitBottom,
    PlatGoDown,
    PlatHitTop,
    PlatHitBottom,
    TrainNext,
    TrainWait,
    FuncTrainFind,
    ButtonWait,
    ButtonReturn,
    ButtonDone,
    MultiWait,
    HurtOn,
    PlayTeleport,
    ExecuteChangelevel,
    RotateEntityFirstThink,
    RotateEntityThink,
    RotateTrainThink,
    RotateTrainFind,
    RotateTrainNext,
    RotateTrainWait,
    RotateTrainStop,
    RotateDoorThink,
    RotateDoorThink2,
    MovewallThink,
    FuncBobThink,
}

/// A `touch` behaviour.
#[derive(Clone, Copy, PartialEq, Eq, Debug, Structural)]
pub enum Touch {
    Nil,
    Spike,
    SuperSpike,
    Grenade,
    Missile,
    ItemHealth,
    ItemArmor,
    ItemWeapon,
    ItemAmmo,
    ItemPowerup,
    Backpack,
    DoorTriggerField,
    DoorTouch,
    PlatCenter,
    ButtonTouch,
    Multi,
    Teleport,
    Hurt,
    Push,
    TriggerMonsterjump,
    Tdeath,
    Changelevel,
    Movewall,
}

/// A `use` behaviour.
#[derive(Clone, Copy, PartialEq, Eq, Debug, Structural)]
pub enum Use {
    Nil,
    DoorUse,
    PlatTrigger,
    PlatUse,
    TrainUse,
    ButtonUse,
    MultiUse,
    TeleportUse,
    TriggerRelay,
    CounterUse,
    LightUse,
    FuncWallUse,
    RotateEntityUse,
    RotateTrainUse,
    RotateDoorUse,
}

/// A `blocked` behaviour of a pusher.
#[derive(Clone, Copy, PartialEq, Eq, Debug, Structural)]
pub enum Blocked {
    Nil,
    DoorBlocked,
    PlatBlocked,
    TrainBlocked,
    MovewallBlocked,
}

/// What an entity does when hurt.
#[derive(Clone, Copy, PartialEq, Eq, Debug, Structural)]
pub enum Pain {
    Nil,
    Player,
}

/// What an entity does when it dies.
#[derive(Clone, Copy, PartialEq, Eq, Debug, Structural)]
pub enum Die {
    Nil,
    Player,
    GrenadeExplode,
    DoorKilled,
    ButtonKilled,
    TriggerKilled,
    ExploBoxDie,
}

/// How a brush follows the rotator that targets it.
#[derive(Clone, Copy, PartialEq, Eq, Debug, Structural)]
pub enum RotateType {
    SetOrigin,
    Rotate,
    Movewall,
}

/// Where a rotating brush is in its motion.
#[derive(Clone, Copy, PartialEq, Eq, Debug, Structural)]
pub enum RotPhase {
    Nil,
    Active,
    Inactive,
    SpeedingUp,
    SlowingDown,
    Closed,
    Open,
    Opening,
    Closing,
    Moving,
}

/// Positions of a door, plat or button.
pub const STATE_TOP: i32 = 0;
pub const STATE_BOTTOM: i32 = 1;
pub const STATE_UP: i32 = 2;
pub const STATE_DOWN: i32 = 3;

/// Animation cursors.
#[derive(Clone, Copy, Debug, PartialEq, Eq, Structural)]
pub struct AnimState {
    pub walkframe: i32,
    pub anim_end: i32,
    pub anim_after: Think,
    pub anim_base: i32,
    pub anim_wf_base: i32,
    pub anim_len: i32,
    pub anim_fire: i32,
    pub anim_muzzle: i32,
}

impl AnimState {
    pub open spec fn is_cleared(self) -> bool {
        &&& self.walkframe == 0
        &&& self.anim_end == 0
        &&& self.anim_after == Think::Nil
        &&& self.anim_base == 0
        &&& self.anim_wf_base == 0
        &&& self.anim_len == 0
        &&& self.anim_fire == 0
        &&& self.anim_muzzle == 0
    }

    pub fn cleared() -> (s: AnimState)
        ensures
            s.is_cleared(),
    {
        AnimState {
            walkframe: 0,
            anim_end: 0,
            anim_after: Think::Nil,
            anim_base: 0,
            anim_wf_base: 0,
            anim_len: 0,
            anim_fire: 0,
            anim_muzzle: 0,
        }
    }
}

/// What a moving brush works with. Positions and lengths are thousandths of a unit, `wait` and
/// `pausetime` milliseconds.
#[derive(Clone, Copy, Debug)]
pub struct MoverState {
    pub pos1: [i32; 3],
    pub pos2: [i32; 3],
    pub speed: i32,
    pub wait: i32,
    pub lip: i32,
    pub state: i32,
    pub dmg: i32,
    pub pausetime: i64,
}

impl MoverState {
    pub open spec fn is_cleared(self) -> bool {
        &&& self.pos1@ =~= seq![0i32, 0i32, 0i32]
        &&& self.pos2@ =~= seq![0i32, 0i32, 0i32]
        &&& self.speed == 0
        &&& self.wait == 0
        &&& self.lip == 0
        &&& self.state == 0
        &&& self.dmg == 0
        &&& self.pausetime == 0
    }

    pub fn cleared() -> (s: MoverState)
        ensures
            s.is_cleared(),
    {
        MoverState {
            pos1: [0, 0, 0],
            pos2: [0, 0, 0],
            speed: 0,
            wait: 0,
            lip: 0,
            state: 0,
            dmg: 0,
            pausetime: 0,
        }
    }
}

/// References to other entities, by number.
#[derive(Clone, Copy, Debug, PartialEq, Eq, Structural)]
pub struct CustomRefs {
    pub oldenemy: u32,
    pub trigger_field: u32,
    pub movetarget: u32,
}

impl CustomRefs {
    pub open spec fn is_cleared(self) -> bool {
        &&& self.oldenemy == 0
        &&& self.trigger_field == 0
        &&& self.movetarget == 0
    }

    pub fn cleared() -> (s: CustomRefs)
        ensures
            s.is_cleared(),
    {
        CustomRefs {
            oldenemy: 0,
            trigger_field: 0,
            movetarget: 0,
        }
    }
}

/// Timers of a fighter, in milliseconds. A powerup's `*_time` is its warning latch: one second until
/// the first warning.
#[derive(Clone, Copy, Debug, PartialEq, Eq, Structural)]
pub struct CombatState {
    pub attack_finished: i64,
    pub pain_finished: i64,
    pub super_damage_finished: i64,
    pub super_time: i64,
    pub invincible_finished: i64,
    pub invincible_sound: i64,
    pub invincible_time: i64,
    pub invisible_finished: i64,
    pub invisible_time: i64,
    pub invisible_sound: i64,
    pub rad_time: i64,
    pub radsuit_finished: i64,
    pub air_finished: i64,
    pub dmgtime: i64,
    pub swim_flag: i64,
    pub lift_time: i64,
    /// Vertical speeds in thousandths: while falling, and of the lift last ridden.
    pub jump_flag: i32,
    pub lift_vz: i32,
    pub air_jumped: bool,
    pub voided: bool,
}

impl CombatState {
    pub open spec fn is_cleared(self) -> bool {
        &&& self.attack_finished == 0
        &&& self.pain_finished == 0
        &&& self.super_damage_finished == 0
        &&& self.super_time == 0
        &&& self.invincible_finished == 0
        &&& self.invincible_sound == 0
        &&& self.invincible_time == 0
        &&& self.invisible_finished == 0
        &&& self.invisible_time == 0
        &&& self.invisible_sound == 0
        &&& self.rad_time == 0
        &&& self.radsuit_finished == 0
        &&& self.air_finished == 0
        &&& self.dmgtime == 0
        &&& self.swim_flag == 0
        &&& self.lift_time == 0
        &&& self.jump_flag == 0
        &&& self.lift_vz == 0
        &&& self.air_jumped == false
        &&& self.voided == false
    }

    pub fn cleared() -> (s: CombatState)
        ensures
            s.is_cleared(),
    {
        CombatState {
            attack_finished: 0,
            pain_finished: 0,
            super_damage_finished: 0,
            super_time: 0,
            invincible_finished: 0,
            invincible_sound: 0,
            invincible_time: 0,
            invisible_finished: 0,
            invisible_time: 0,
            invisible_sound: 0,
            rad_time: 0,
            radsuit_finished: 0,
            air_finished: 0,
            dmgtime: 0,
            swim_flag: 0,
            lift_time: 0,
            jump_flag: 0,
            lift_vz: 0,
            air_jumped: false,
            voided: false,
        }
    }
}

/// What a pickup holds. `ammo_code` numbers the ammo kind of an ammo box.
#[derive(Clone, Copy, Debug, PartialEq, Eq, Structural)]
pub struct ItemState {
    pub healamount: i32,
    pub healtype: i32,
    pub aflag: i32,
    pub ammo_code: i32,
}

impl ItemState {
    pub open spec fn is_cleared(self) -> bool {
        &&& self.healamount == 0
        &&& self.healtype == 0
        &&& self.aflag == 0
        &&& self.ammo_code == 0
    }

    pub fn cleared() -> (s: ItemState)
        ensures
            s.is_cleared(),
    {
        ItemState {
            healamount: 0,
            healtype: 0,
            aflag: 0,
            ammo_code: 0,
        }
    }
}

/// One entity: the fields shared with the engine, its string cells, and the state of the rules.
pub struct Entity {
    pub v: EntVars,
    pub string_refs: [u64; 11],
    /// Whether this slot is a live entity.
    pub in_use: bool,
    /// The cap that the engine holds the speed of a player to, in thousandths.
    pub maxspeed: i32,
    pub think: Think,
    pub think1: Think,
    pub touch: Touch,
    pub use_: Use,
    pub blocked: Blocked,
    pub th_pain: Pain,
    pub th_die: Die,
    pub classname: Option<String>,
    pub model: Option<String>,
    pub weaponmodel: Option<String>,
    pub target: Option<String>,
    pub targetname: Option<String>,
    pub killtarget: Option<String>,
    pub message: Option<String>,
    pub netname: Option<String>,
    /// The sound an item makes when taken, and the model it shows again with.
    pub noise: Option<Sound>,
    pub model_cstr: Option<Model>,
    pub noise1: Option<String>,
    pub noise2: Option<String>,
    pub noise3: Option<String>,
    pub noise4: Option<String>,
    pub deathtype: Option<String>,
    pub map: Option<String>,
    pub anim: AnimState,
    pub mover: MoverState,
    pub refs: CustomRefs,
    pub combat: CombatState,
    pub item: ItemState,
    pub bot: BotState,
}

impl Entity {
    /// A pristine slot: every field zero or unset.
    pub open spec fn is_cleared(self) -> bool {
        &&& self.v.is_cleared()
        &&& self.string_refs@ == Seq::new(11, |i: int| 0u64)
        &&& !self.in_use
        &&& self.maxspeed == 0
        &&& self.think == Think::Nil
        &&& self.think1 == Think::Nil
        &&& self.touch == Touch::Nil
        &&& self.use_ == Use::Nil
        &&& self.blocked == Blocked::Nil
        &&& self.th_pain == Pain::Nil
        &&& self.th_die == Die::Nil
        &&& self.classname is None
        &&& self.model is None
        &&& self.weaponmodel is None
        &&& self.target is None
        &&& self.targetname is None
        &&& self.killtarget is None
        &&& self.message is None
        &&& self.netname is None
        &&& self.noise is None
        &&& self.model_cstr is None
        &&& self.noise1 is None
        &&& self.noise2 is None
        &&& self.noise3 is None
        &&& self.noise4 is None
        &&& self.deathtype is None
        &&& self.map is None
        &&& self.anim.is_cleared()
        &&& self.mover.is_cleared()
        &&& self.refs.is_cleared()
        &&& self.combat.is_cleared()
        &&& self.item.is_cleared()
        &&& self.bot.is_blank()
    }

    pub fn cleared() -> (e: Entity)
        ensures
            e.is_cleared(),
    {
        let e = Entity {
            v: EntVars::cleared(),
            string_refs: [0, 0, 0, 0, 0, 0, 0, 0, 0, 0, 0],
            in_use: false,
            maxspeed: 0,
            think: Think::Nil,
            think1: Think::Nil,
            touch: Touch::Nil,
            use_: Use::Nil,
            blocked: Blocked::Nil,
            th_pain: Pain::Nil,
            th_die: Die::Nil,
            classname: None,
            model: None,
            weaponmodel: None,
            target: None,
            targetname: None,
            killtarget: None,
            message: None,
            netname: None,
            noise: None,
            model_cstr: None,
            noise1: None,
            noise2: None,
            noise3: None,
            noise4: None,
            deathtype: None,
            map: None,
            anim: AnimState::cleared(),
            mover: MoverState::cleared(),
            refs: CustomRefs::cleared(),
            combat: CombatState::cleared(),
            item: ItemState::cleared(),
            bot: BotState::blank(),
        };
        assert(e.string_refs@ =~= Seq::new(11, |i: int| 0u64));
        e
    }

    /// A freshly spawned entity: pristine and in use.
    pub open spec fn is_spawned(self) -> bool {
        (Entity { in_use: false, ..self }).is_cleared() && self.in_use
    }

    pub fn reset(&mut self)
        ensures
            final(self).is_spawned(),
    {
        *self = Entity::cleared();
        let ghost before = *self;
        self.in_use = true;
        assert((Entity { in_use: false, ..*self }) == before);
    }

    /// The class, if one is set.
    pub open spec fn class(self) -> Option<Seq<char>> {
        match self.classname {
            Some(c) => Some(c@),
            None => None,
        }
    }

    pub fn classname(&self) -> (r: Option<&str>)
        ensures
            match r {
                Some(c) => self.class() == Some(c@),
                None => self.class() is None,
            },
    {
        match &self.classname {
            Some(c) => Some(c.as_str()),
            None => None,
        }
    }

    /// Whether this entity is of class `name`.
    pub fn is_class(&self, name: &str) -> (r: bool)
        ensures
            r == (self.class() == Some(name@)),
    {
        match &self.classname {
            Some(c) => same_text(c.as_str(), name),
            None => false,
        }
    }

    /// The entity that `enemy` refers to.
    pub open spec fn spec_enemy(self) -> EntId {
        of_prog(self.v.enemy)
    }

    pub fn enemy(&self) -> (e: EntId)
        ensures
            e == self.spec_enemy(),
    {
        EntId::from_prog(self.v.enemy)
    }

    pub fn set_enemy(&mut self, t: EntId)
        ensures
            t.0 * ENTITY_STRIDE <= i32::MAX ==> final(self).spec_enemy() == t,
            *final(self) == (Entity { v: EntVars { enemy: prog_of(t), ..old(self).v }, ..*old(self) }),
    {
        self.v.enemy = t.to_prog();
        proof {
            if t.0 * ENTITY_STRIDE <= i32::MAX {
                prog_round_trip(t);
            }
        }
    }

    /// The entity that `owner` refers to.
    pub open spec fn spec_owner(self) -> EntId {
        of_prog(self.v.owner)
    }

    pub fn owner(&self) -> (e: EntId)
        ensures
            e == self.spec_owner(),
    {
        EntId::from_prog(self.v.owner)
    }

    pub fn set_owner(&mut self, t: EntId)
        ensures
            t.0 * ENTITY_STRIDE <= i32::MAX ==> final(self).spec_owner() == t,
            *final(self) == (Entity { v: EntVars { owner: prog_of(t), ..old(self).v }, ..*old(self) }),
    {
        self.v.owner = t.to_prog();
        proof {
            if t.0 * ENTITY_STRIDE <= i32::MAX {
                prog_round_trip(t);
            }
        }
    }

    /// The entity that `goalentity` refers to.
    pub open spec fn spec_goalentity(self) -> EntId {
        of_prog(self.v.goalentity)
    }

    pub fn goalentity(&self) -> (e: EntId)
        ensures
            e == self.spec_goalentity(),
    {
        EntId::from_prog(self.v.goalentity)
    }

    pub fn set_goalentity(&mut self, t: EntId)
        ensures
            t.0 * ENTITY_STRIDE <= i32::MAX ==> final(self).spec_goalentity() == t,
            *final(self) == (Entity { v: EntVars { goalentity: prog_of(t), ..old(self).v }, ..*old(self) }),
    {
        self.v.goalentity = t.to_prog();
        proof {
            if t.0 * ENTITY_STRIDE <= i32::MAX {
                prog_round_trip(t);
            }
        }
    }

    /// Set the `touch` behaviour together with the flag the engine looks at.
    pub fn set_touch(&mut self, t: Touch)
        ensures
            *final(self) == (Entity {
                touch: t,
                v: EntVars { touch: if t == Touch::Nil { 0 } else { 1 }, ..old(self).v },
                ..*old(self)
            }),
    {
        self.touch = t;
        self.v.touch = if t == Touch::Nil { 0 } else { 1 };
    }

    /// Set the `blocked` behaviour together with the flag the engine looks at.
    pub fn set_blocked(&mut self, t: Blocked)
        ensures
            *final(self) == (Entity {
                blocked: t,
                v: EntVars { blocked: if t == Blocked::Nil { 0 } else { 1 }, ..old(self).v },
                ..*old(self)
            }),
    {
        self.blocked = t;
        self.v.blocked = if t == Blocked::Nil { 0 } else { 1 };
    }

    /// The engine reports touches and blocks exactly where there is a behaviour for them.
    pub open spec fn gates_in_step(self) -> bool {
        &&& (self.v.touch != 0) == (self.touch != Touch::Nil)
        &&& (self.v.blocked != 0) == (self.blocked != Blocked::Nil)
    }
}

/// A spawned entity is in step with the engine, and setting either behaviour keeps it so.
pub proof fn gates_stay_in_step(e: Entity, t: Touch, b: Blocked)
    ensures
        e.is_spawned() ==> e.gates_in_step(),
        e.gates_in_step() ==> (Entity {
            touch: t,
            v: EntVars { touch: if t == Touch::Nil { 0 } else { 1 }, ..e.v },
            ..e
        }).gates_in_step(),
        e.gates_in_step() ==> (Entity {
            blocked: b,
            v: EntVars { blocked: if b == Blocked::Nil { 0 } else { 1 }, ..e.v },
            ..e
        }).gates_in_step(),
{
}

/// The entity array.
pub struct Entities {
    pub slots: Vec<Entity>,
}

impl View for Entities {
    type V = Seq<Entity>;

    open spec fn view(&self) -> Seq<Entity> {
        self.slots@
    }
}

impl Entities {
    /// `count` pristine slots.
    pub fn new(count: usize) -> (r: Entities)
        ensures
            r@.len() == count,
            forall|i: int| 0 <= i < count ==> (#[trigger] r@[i]).is_cleared(),
    {
        let mut slots: Vec<Entity> = Vec::new();
        let mut i: usize = 0;
        while i < count
            invariant
                i <= count,
                slots@.len() == i,
                forall|j: int| 0 <= j < i ==> (#[trigger] slots@[j]).is_cleared(),
            decreases count - i,
        {
            slots.push(Entity::cleared());
            i = i + 1;
        }
        Entities { slots }
    }
}

} // verus!
