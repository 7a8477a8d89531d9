//! Bit fields and discrete values of the entity fields shared with the engine.
//!
//! The engine keeps every field as a number. A flag field is read here as the `i32` it truncates
//! to; a discrete field is read as an enum, with its number on the side.
use vstd::prelude::*;

verus! {

/// Bitwise helpers for flag fields.
pub trait Bits: Sized {
    /// The bits both values have.
    spec fn shared(self, bits: i32) -> i32;

    /// Whether any of `bits` is set.
    fn has(self, bits: i32) -> (r: bool)
        ensures
            r == (self.shared(bits) != 0),
    ;

    /// Whether all of `bits` are set.
    fn has_all(self, bits: i32) -> (r: bool)
        ensures
            r == (self.shared(bits) == bits),
    ;

    /// This value with `bits` set.
    fn with(self, bits: i32) -> (r: Self)
        ensures
            forall|b: i32|
                #[trigger] r.shared(b) == (self.shared(b) | (bits & b)),
    ;

    /// This value with `bits` cleared.
    fn without(self, bits: i32) -> (r: Self)
        ensures
            forall|b: i32| #[trigger] r.shared(b) == (self.shared(b) & !bits),
    ;
}

impl Bits for i32 {
    open spec fn shared(self, bits: i32) -> i32 {
        self & bits
    }

    fn has(self, bits: i32) -> (r: bool) {
        self & bits != 0
    }

    fn has_all(self, bits: i32) -> (r: bool) {
        self & bits == bits
    }

    fn with(self, bits: i32) -> (r: i32)
        ensures
            r == self | bits,
    {
        assert forall|b: i32| #[trigger] (self | bits).shared(b) == (self.shared(b) | (bits & b)) by {
            assert((self | bits) & b == (self & b) | (bits & b)) by (bit_vector);
        }
        self | bits
    }

    fn without(self, bits: i32) -> (r: i32)
        ensures
            r == self & !bits,
    {
        assert forall|b: i32| #[trigger] (self & !bits).shared(b) == (self.shared(b) & !bits) by {
            assert((self & !bits) & b == (self & b) & !bits) by (bit_vector);
        }
        self & !bits
    }
}

/// Equality of a discrete-valued field with one of its values.
pub trait FieldEq: Sized {
    /// The number the field holds.
    spec fn number(self) -> int;

    /// Whether this field equals `value`.
    fn is(self, value: i32) -> (r: bool)
        ensures
            r == (self.number() == value),
    ;
}

impl FieldEq for i32 {
    open spec fn number(self) -> int {
        self as int
    }

    fn is(self, value: i32) -> (r: bool) {
        self == value
    }
}

/// Setting bits makes them all present, and leaves every bit outside them as it was.
pub proof fn with_sets_exactly(field: i32, bits: i32, other: i32)
    requires
        bits & other == 0,
    ensures
        (field | bits) & bits == bits,
        (field | bits) & other == field & other,
{
    assert((field | bits) & bits == bits) by (bit_vector);
    assert(bits & other == 0 ==> (field | bits) & other == field & other) by (bit_vector);
}

/// Clearing bits leaves none of them, and leaves every bit outside them as it was.
pub proof fn without_clears_exactly(field: i32, bits: i32, other: i32)
    requires
        bits & other == 0,
    ensures
        (field & !bits) & bits == 0,
        (field & !bits) & other == field & other,
{
    assert((field & !bits) & bits == 0) by (bit_vector);
    assert(bits & other == 0 ==> (field & !bits) & other == field & other) by (bit_vector);
}

/// The `.items` field: weapons, ammo kinds, armor, keys and powerups, one bit each.
pub struct Items {}

impl Items {
    pub const SHOTGUN: i32 = 1;
    pub const SUPER_SHOTGUN: i32 = 1 << 1;
    pub const NAILGUN: i32 = 1 << 2;
    pub const SUPER_NAILGUN: i32 = 1 << 3;
    pub const GRENADE_LAUNCHER: i32 = 1 << 4;
    pub const ROCKET_LAUNCHER: i32 = 1 << 5;
    pub const LIGHTNING: i32 = 1 << 6;
    pub const GRAPPLE: i32 = 1 << 7;
    pub const SHELLS: i32 = 1 << 8;
    pub const NAILS: i32 = 1 << 9;
    pub const ROCKETS: i32 = 1 << 10;
    pub const CELLS: i32 = 1 << 11;
    pub const AXE: i32 = 1 << 12;
    pub const ARMOR1: i32 = 1 << 13;
    pub const ARMOR2: i32 = 1 << 14;
    pub const ARMOR3: i32 = 1 << 15;
    pub const SUPERHEALTH: i32 = 1 << 16;
    pub const KEY1: i32 = 1 << 17;
    pub const KEY2: i32 = 1 << 18;
    pub const INVISIBILITY: i32 = 1 << 19;
    pub const INVULNERABILITY: i32 = 1 << 20;
    pub const SUIT: i32 = 1 << 21;
    pub const QUAD: i32 = 1 << 22;

    /// Every bit that has a meaning here.
    pub const KNOWN: i32 = 0x7fffff;

    /// The known bits of a field.
    pub fn from_field(v: i32) -> (r: i32)
        ensures
            r == v & Self::KNOWN,
    {
        v & Self::KNOWN
    }
}

/// The `.flags` field (`FL_*`).
pub struct Flags {}

impl Flags {
    pub const FLY: i32 = 1;
    pub const SWIM: i32 = 1 << 1;
    pub const CLIENT: i32 = 1 << 3;
    pub const INWATER: i32 = 1 << 4;
    pub const MONSTER: i32 = 1 << 5;
    pub const GODMODE: i32 = 1 << 6;
    pub const NOTARGET: i32 = 1 << 7;
    pub const ITEM: i32 = 1 << 8;
    pub const ONGROUND: i32 = 1 << 9;
    pub const PARTIALGROUND: i32 = 1 << 10;
    pub const WATERJUMP: i32 = 1 << 11;
    pub const JUMPRELEASED: i32 = 1 << 12;

    /// Every bit that has a meaning here.
    pub const KNOWN: i32 = 0x1ffb;

    /// The known bits of a field.
    pub fn from_field(v: i32) -> (r: i32)
        ensures
            r == v & Self::KNOWN,
    {
        v & Self::KNOWN
    }
}

/// The `.effects` field (`EF_*`).
pub struct Effects {}

impl Effects {
    pub const BRIGHTFIELD: i32 = 1;
    pub const MUZZLEFLASH: i32 = 1 << 1;
    pub const BRIGHTLIGHT: i32 = 1 << 2;
    pub const DIMLIGHT: i32 = 1 << 3;
    pub const FLAG1: i32 = 1 << 4;
    pub const FLAG2: i32 = 1 << 5;
    pub const BLUE: i32 = 1 << 6;
    pub const RED: i32 = 1 << 7;

    /// Every bit that has a meaning here.
    pub const KNOWN: i32 = 0xff;

    /// The known bits of a field.
    pub fn from_field(v: i32) -> (r: i32)
        ensures
            r == v & Self::KNOWN,
    {
        v & Self::KNOWN
    }
}

/// The `.spawnflags` bits that keep an entity out of a skill or out of deathmatch.
pub struct SpawnFilter {}

impl SpawnFilter {
    pub const NOT_EASY: i32 = 1 << 8;
    pub const NOT_MEDIUM: i32 = 1 << 9;
    pub const NOT_HARD: i32 = 1 << 10;
    pub const NOT_DEATHMATCH: i32 = 1 << 11;

    /// Every bit that has a meaning here.
    pub const KNOWN: i32 = 0xf00;

    /// The known bits of a field.
    pub fn from_field(v: i32) -> (r: i32)
        ensures
            r == v & Self::KNOWN,
    {
        v & Self::KNOWN
    }
}

/// `.spawnflags` of `func_door` and `func_door_secret`.
pub struct DoorFlags {}

impl DoorFlags {
    pub const START_OPEN: i32 = 1;
    pub const DONT_LINK: i32 = 1 << 2;
    pub const GOLD_KEY: i32 = 1 << 3;
    pub const SILVER_KEY: i32 = 1 << 4;
    pub const TOGGLE: i32 = 1 << 5;

    /// Every bit that has a meaning here.
    pub const KNOWN: i32 = 0x3d;

    /// The known bits of a field.
    pub fn from_field(v: i32) -> (r: i32)
        ensures
            r == v & Self::KNOWN,
    {
        v & Self::KNOWN
    }
}

/// `.spawnflags` of `func_plat`.
pub struct PlatFlags {}

impl PlatFlags {
    pub const LOW_TRIGGER: i32 = 1;

    /// Every bit that has a meaning here.
    pub const KNOWN: i32 = 0x1;

    /// The known bits of a field.
    pub fn from_field(v: i32) -> (r: i32)
        ensures
            r == v & Self::KNOWN,
    {
        v & Self::KNOWN
    }
}

/// `.spawnflags` of `trigger_teleport`.
pub struct TeleportFlags {}

impl TeleportFlags {
    pub const PLAYER_ONLY: i32 = 1;
    pub const SILENT: i32 = 1 << 1;

    /// Every bit that has a meaning here.
    pub const KNOWN: i32 = 0x3;

    /// The known bits of a field.
    pub fn from_field(v: i32) -> (r: i32)
        ensures
            r == v & Self::KNOWN,
    {
        v & Self::KNOWN
    }
}

/// `.spawnflags` shared by triggers; `trigger_multiple` and `trigger_counter` read the same bit.
pub struct TriggerFlags {}

impl TriggerFlags {
    pub const NOTOUCH: i32 = 1;
    pub const NOMESSAGE: i32 = 1;

    /// Every bit that has a meaning here.
    pub const KNOWN: i32 = 0x1;

    /// The known bits of a field.
    pub fn from_field(v: i32) -> (r: i32)
        ensures
            r == v & Self::KNOWN,
    {
        v & Self::KNOWN
    }
}

/// `.spawnflags` of `item_health`.
pub struct HealthFlags {}

impl HealthFlags {
    pub const ROTTEN: i32 = 1;
    pub const MEGA: i32 = 1 << 1;

    /// Every bit that has a meaning here.
    pub const KNOWN: i32 = 0x3;

    /// The known bits of a field.
    pub fn from_field(v: i32) -> (r: i32)
        ensures
            r == v & Self::KNOWN,
    {
        v & Self::KNOWN
    }
}

/// `.spawnflags` of an ammo box.
pub struct AmmoFlags {}

impl AmmoFlags {
    pub const BIG: i32 = 1;

    /// Every bit that has a meaning here.
    pub const KNOWN: i32 = 0x1;

    /// The known bits of a field.
    pub fn from_field(v: i32) -> (r: i32)
        ensures
            r == v & Self::KNOWN,
    {
        v & Self::KNOWN
    }
}

/// `.spawnflags` of `light`.
pub struct LightFlags {}

impl LightFlags {
    pub const START_OFF: i32 = 1;

    /// Every bit that has a meaning here.
    pub const KNOWN: i32 = 0x1;

    /// The known bits of a field.
    pub fn from_field(v: i32) -> (r: i32)
        ensures
            r == v & Self::KNOWN,
    {
        v & Self::KNOWN
    }
}

/// `.spawnflags` of `trigger_push`.
pub struct PushFlags {}

impl PushFlags {
    pub const ONCE: i32 = 1;

    /// Every bit that has a meaning here.
    pub const KNOWN: i32 = 0x1;

    /// The known bits of a field.
    pub fn from_field(v: i32) -> (r: i32)
        ensures
            r == v & Self::KNOWN,
    {
        v & Self::KNOWN
    }
}

/// `.spawnflags` of `func_rotate_entity`.
pub struct RotateEntityFlags {}

impl RotateEntityFlags {
    pub const TOGGLE: i32 = 1;
    pub const START_ON: i32 = 1 << 1;

    /// Every bit that has a meaning here.
    pub const KNOWN: i32 = 0x3;

    /// The known bits of a field.
    pub fn from_field(v: i32) -> (r: i32)
        ensures
            r == v & Self::KNOWN,
    {
        v & Self::KNOWN
    }
}

/// `.spawnflags` of `path_rotate`, one corner of a rotating train's path.
pub struct PathRotateFlags {}

impl PathRotateFlags {
    pub const ROTATION: i32 = 1;
    pub const ANGLES: i32 = 1 << 1;
    pub const STOP: i32 = 1 << 2;
    pub const NO_ROTATE: i32 = 1 << 3;
    pub const DAMAGE: i32 = 1 << 4;
    pub const MOVETIME: i32 = 1 << 5;
    pub const SET_DAMAGE: i32 = 1 << 6;

    /// Every bit that has a meaning here.
    pub const KNOWN: i32 = 0x7f;

    /// The known bits of a field.
    pub fn from_field(v: i32) -> (r: i32)
        ensures
            r == v & Self::KNOWN,
    {
        v & Self::KNOWN
    }
}

/// `.spawnflags` of `func_movewall`.
pub struct MovewallFlags {}

impl MovewallFlags {
    pub const VISIBLE: i32 = 1;
    pub const TOUCH: i32 = 1 << 1;
    pub const NONBLOCKING: i32 = 1 << 2;

    /// Every bit that has a meaning here.
    pub const KNOWN: i32 = 0x7;

    /// The known bits of a field.
    pub fn from_field(v: i32) -> (r: i32)
        ensures
            r == v & Self::KNOWN,
    {
        v & Self::KNOWN
    }
}

/// `.spawnflags` of `func_rotate_door`.
pub struct RotateDoorFlags {}

impl RotateDoorFlags {
    pub const STAYOPEN: i32 = 1;

    /// Every bit that has a meaning here.
    pub const KNOWN: i32 = 0x1;

    /// The known bits of a field.
    pub fn from_field(v: i32) -> (r: i32)
        ensures
            r == v & Self::KNOWN,
    {
        v & Self::KNOWN
    }
}

/// `.spawnflags` of `func_bob`.
pub struct FuncBobFlags {}

impl FuncBobFlags {
    pub const MG_NONSOLID: i32 = 1;
    pub const COLLISION: i32 = 1 << 1;
    pub const NONSOLID: i32 = 1 << 2;

    /// Every bit that has a meaning here.
    pub const KNOWN: i32 = 0x7;

    /// The known bits of a field.
    pub fn from_field(v: i32) -> (r: i32)
        ensures
            r == v & Self::KNOWN,
    {
        v & Self::KNOWN
    }
}

/// `.solid`: how an entity interacts with others.
#[derive(Clone, Copy, PartialEq, Eq, Debug, Structural)]
pub enum Solid {
    Not,
    Trigger,
    BBox,
    SlideBox,
    Bsp,
}

impl Solid {
    /// The number the engine uses for this value.
    pub open spec fn code(self) -> int {
        match self {
            Solid::Not => 0,
            Solid::Trigger => 1,
            Solid::BBox => 2,
            Solid::SlideBox => 3,
            Solid::Bsp => 4,
        }
    }

    pub fn as_i32(self) -> (r: i32)
        ensures
            r == self.code(),
    {
        match self {
            Solid::Not => 0,
            Solid::Trigger => 1,
            Solid::BBox => 2,
            Solid::SlideBox => 3,
            Solid::Bsp => 4,
        }
    }

    /// The value a field's number stands for, if any.
    pub fn from_i32(v: i32) -> (r: Option<Solid>)
        ensures
            forall|x: Solid| r == Some(x) <==> #[trigger] x.code() == v,
    {
        if v == 0 {
            Some(Solid::Not)
        } else if v == 1 {
            Some(Solid::Trigger)
        } else if v == 2 {
            Some(Solid::BBox)
        } else if v == 3 {
            Some(Solid::SlideBox)
        } else if v == 4 {
            Some(Solid::Bsp)
        } else {
            None
        }
    }
}

/// `.movetype`: how the engine moves an entity. `Nil` never moves.
#[derive(Clone, Copy, PartialEq, Eq, Debug, Structural)]
pub enum MoveType {
    Nil,
    AngleNoclip,
    AngleClip,
    Walk,
    Step,
    Fly,
    Toss,
    Push,
    Noclip,
    FlyMissile,
    Bounce,
}

impl MoveType {
    /// The number the engine uses for this value.
    pub open spec fn code(self) -> int {
        match self {
            MoveType::Nil => 0,
            MoveType::AngleNoclip => 1,
            MoveType::AngleClip => 2,
            MoveType::Walk => 3,
            MoveType::Step => 4,
            MoveType::Fly => 5,
            MoveType::Toss => 6,
            MoveType::Push => 7,
            MoveType::Noclip => 8,
            MoveType::FlyMissile => 9,
            MoveType::Bounce => 10,
        }
    }

    pub fn as_i32(self) -> (r: i32)
        ensures
            r == self.code(),
    {
        match self {
            MoveType::Nil => 0,
            MoveType::AngleNoclip => 1,
            MoveType::AngleClip => 2,
            MoveType::Walk => 3,
            MoveType::Step => 4,
            MoveType::Fly => 5,
            MoveType::Toss => 6,
            MoveType::Push => 7,
            MoveType::Noclip => 8,
            MoveType::FlyMissile => 9,
            MoveType::Bounce => 10,
        }
    }

    /// The value a field's number stands for, if any.
    pub fn from_i32(v: i32) -> (r: Option<MoveType>)
        ensures
            forall|x: MoveType| r == Some(x) <==> #[trigger] x.code() == v,
    {
        if v == 0 {
            Some(MoveType::Nil)
        } else if v == 1 {
            Some(MoveType::AngleNoclip)
        } else if v == 2 {
            Some(MoveType::AngleClip)
        } else if v == 3 {
            Some(MoveType::Walk)
        } else if v == 4 {
            Some(MoveType::Step)
        } else if v == 5 {
            Some(MoveType::Fly)
        } else if v == 6 {
            Some(MoveType::Toss)
        } else if v == 7 {
            Some(MoveType::Push)
        } else if v == 8 {
            Some(MoveType::Noclip)
        } else if v == 9 {
            Some(MoveType::FlyMissile)
        } else if v == 10 {
            Some(MoveType::Bounce)
        } else {
            None
        }
    }
}

/// `pointcontents` and `.watertype` values.
#[derive(Clone, Copy, PartialEq, Eq, Debug, Structural)]
pub enum Content {
    Empty,
    Solid,
    Water,
    Slime,
    Lava,
    Sky,
}

impl Content {
    /// The number the engine uses for this value.
    pub open spec fn code(self) -> int {
        match self {
            Content::Empty => -1,
            Content::Solid => -2,
            Content::Water => -3,
            Content::Slime => -4,
            Content::Lava => -5,
            Content::Sky => -6,
        }
    }

    pub fn as_i32(self) -> (r: i32)
        ensures
            r == self.code(),
    {
        match self {
            Content::Empty => -1,
            Content::Solid => -2,
            Content::Water => -3,
            Content::Slime => -4,
            Content::Lava => -5,
            Content::Sky => -6,
        }
    }

    /// The value a field's number stands for, if any.
    pub fn from_i32(v: i32) -> (r: Option<Content>)
        ensures
            forall|x: Content| r == Some(x) <==> #[trigger] x.code() == v,
    {
        if v == -1 {
            Some(Content::Empty)
        } else if v == -2 {
            Some(Content::Solid)
        } else if v == -3 {
            Some(Content::Water)
        } else if v == -4 {
            Some(Content::Slime)
        } else if v == -5 {
            Some(Content::Lava)
        } else if v == -6 {
            Some(Content::Sky)
        } else {
            None
        }
    }
}

/// `.deadflag`.
#[derive(Clone, Copy, PartialEq, Eq, Debug, Structural)]
pub enum DeadFlag {
    No,
    Dying,
    Dead,
    Respawnable,
}

impl DeadFlag {
    /// The number the engine uses for this value.
    pub open spec fn code(self) -> int {
        match self {
            DeadFlag::No => 0,
            DeadFlag::Dying => 1,
            DeadFlag::Dead => 2,
            DeadFlag::Respawnable => 3,
        }
    }

    pub fn as_i32(self) -> (r: i32)
        ensures
            r == self.code(),
    {
        match self {
            DeadFlag::No => 0,
            DeadFlag::Dying => 1,
            DeadFlag::Dead => 2,
            DeadFlag::Respawnable => 3,
        }
    }

    /// The value a field's number stands for, if any.
    pub fn from_i32(v: i32) -> (r: Option<DeadFlag>)
        ensures
            forall|x: DeadFlag| r == Some(x) <==> #[trigger] x.code() == v,
    {
        if v == 0 {
            Some(DeadFlag::No)
        } else if v == 1 {
            Some(DeadFlag::Dying)
        } else if v == 2 {
            Some(DeadFlag::Dead)
        } else if v == 3 {
            Some(DeadFlag::Respawnable)
        } else {
            None
        }
    }
}

/// `.takedamage`.
#[derive(Clone, Copy, PartialEq, Eq, Debug, Structural)]
pub enum TakeDamage {
    No,
    Yes,
    Aim,
}

impl TakeDamage {
    /// The number the engine uses for this value.
    pub open spec fn code(self) -> int {
        match self {
            TakeDamage::No => 0,
            TakeDamage::Yes => 1,
            TakeDamage::Aim => 2,
        }
    }

    pub fn as_i32(self) -> (r: i32)
        ensures
            r == self.code(),
    {
        match self {
            TakeDamage::No => 0,
            TakeDamage::Yes => 1,
            TakeDamage::Aim => 2,
        }
    }

    /// The value a field's number stands for, if any.
    pub fn from_i32(v: i32) -> (r: Option<TakeDamage>)
        ensures
            forall|x: TakeDamage| r == Some(x) <==> #[trigger] x.code() == v,
    {
        if v == 0 {
            Some(TakeDamage::No)
        } else if v == 1 {
            Some(TakeDamage::Yes)
        } else if v == 2 {
            Some(TakeDamage::Aim)
        } else {
            None
        }
    }
}

/// Message level of a broadcast or private print.
#[derive(Clone, Copy, PartialEq, Eq, Debug, Structural)]
pub enum PrintLevel {
    Low,
    Medium,
    High,
    Chat,
}

impl PrintLevel {
    /// The number the engine uses for this value.
    pub open spec fn code(self) -> int {
        match self {
            PrintLevel::Low => 0,
            PrintLevel::Medium => 1,
            PrintLevel::High => 2,
            PrintLevel::Chat => 3,
        }
    }

    pub fn as_i32(self) -> (r: i32)
        ensures
            r == self.code(),
    {
        match self {
            PrintLevel::Low => 0,
            PrintLevel::Medium => 1,
            PrintLevel::High => 2,
            PrintLevel::Chat => 3,
        }
    }

    /// The value a field's number stands for, if any.
    pub fn from_i32(v: i32) -> (r: Option<PrintLevel>)
        ensures
            forall|x: PrintLevel| r == Some(x) <==> #[trigger] x.code() == v,
    {
        if v == 0 {
            Some(PrintLevel::Low)
        } else if v == 1 {
            Some(PrintLevel::Medium)
        } else if v == 2 {
            Some(PrintLevel::High)
        } else if v == 3 {
            Some(PrintLevel::Chat)
        } else {
            None
        }
    }
}

/// Sound attenuation. `Nil` is heard everywhere.
#[derive(Clone, Copy, PartialEq, Eq, Debug, Structural)]
pub enum Attenuation {
    Nil,
    Norm,
    Idle,
    Static,
}

impl Attenuation {
    /// The number the engine uses for this value.
    pub open spec fn code(self) -> int {
        match self {
            Attenuation::Nil => 0,
            Attenuation::Norm => 1,
            Attenuation::Idle => 2,
            Attenuation::Static => 3,
        }
    }

    pub fn as_i32(self) -> (r: i32)
        ensures
            r == self.code(),
    {
        match self {
            Attenuation::Nil => 0,
            Attenuation::Norm => 1,
            Attenuation::Idle => 2,
            Attenuation::Static => 3,
        }
    }

    /// The value a field's number stands for, if any.
    pub fn from_i32(v: i32) -> (r: Option<Attenuation>)
        ensures
            forall|x: Attenuation| r == Some(x) <==> #[trigger] x.code() == v,
    {
        if v == 0 {
            Some(Attenuation::Nil)
        } else if v == 1 {
            Some(Attenuation::Norm)
        } else if v == 2 {
            Some(Attenuation::Idle)
        } else if v == 3 {
            Some(Attenuation::Static)
        } else {
            None
        }
    }
}

/// Sound channel.
#[derive(Clone, Copy, PartialEq, Eq, Debug, Structural)]
pub enum Channel {
    Auto,
    Weapon,
    Voice,
    Item,
    Body,
}

impl Channel {
    /// The number the engine uses for this value.
    pub open spec fn code(self) -> int {
        match self {
            Channel::Auto => 0,
            Channel::Weapon => 1,
            Channel::Voice => 2,
            Channel::Item => 3,
            Channel::Body => 4,
        }
    }

    pub fn as_i32(self) -> (r: i32)
        ensures
            r == self.code(),
    {
        match self {
            Channel::Auto => 0,
            Channel::Weapon => 1,
            Channel::Voice => 2,
            Channel::Item => 3,
            Channel::Body => 4,
        }
    }
}

/// Destination of a network write.
#[derive(Clone, Copy, PartialEq, Eq, Debug, Structural)]
pub enum MsgDest {
    One,
    All,
    Init,
    Multicast,
}

impl MsgDest {
    /// The number the engine uses for this value.
    pub open spec fn code(self) -> int {
        match self {
            MsgDest::One => 1,
            MsgDest::All => 2,
            MsgDest::Init => 3,
            MsgDest::Multicast => 4,
        }
    }

    pub fn as_i32(self) -> (r: i32)
        ensures
            r == self.code(),
    {
        match self {
            MsgDest::One => 1,
            MsgDest::All => 2,
            MsgDest::Init => 3,
            MsgDest::Multicast => 4,
        }
    }
}

/// Recipient set of a multicast.
#[derive(Clone, Copy, PartialEq, Eq, Debug, Structural)]
pub enum Multicast {
    All,
    Phs,
    Pvs,
    AllR,
    PhsR,
    PvsR,
}

impl Multicast {
    /// The number the engine uses for this value.
    pub open spec fn code(self) -> int {
        match self {
            Multicast::All => 0,
            Multicast::Phs => 1,
            Multicast::Pvs => 2,
            Multicast::AllR => 3,
            Multicast::PhsR => 4,
            Multicast::PvsR => 5,
        }
    }

    pub fn as_i32(self) -> (r: i32)
        ensures
            r == self.code(),
    {
        match self {
            Multicast::All => 0,
            Multicast::Phs => 1,
            Multicast::Pvs => 2,
            Multicast::AllR => 3,
            Multicast::PhsR => 4,
            Multicast::PvsR => 5,
        }
    }
}

/// Server-to-client message opcode (`svc_*`).
#[derive(Clone, Copy, PartialEq, Eq, Debug, Structural)]
pub enum Svc {
    UpdateFrags,
    TempEntity,
    SetPause,
    CenterPrint,
    KilledMonster,
    FoundSecret,
    Intermission,
    Finale,
    CdTrack,
    SellScreen,
    SmallKick,
    BigKick,
    MuzzleFlash,
}

impl Svc {
    /// The number the engine uses for this value.
    pub open spec fn code(self) -> int {
        match self {
            Svc::UpdateFrags => 14,
            Svc::TempEntity => 23,
            Svc::SetPause => 24,
            Svc::CenterPrint => 26,
            Svc::KilledMonster => 27,
            Svc::FoundSecret => 28,
            Svc::Intermission => 30,
            Svc::Finale => 31,
            Svc::CdTrack => 32,
            Svc::SellScreen => 33,
            Svc::SmallKick => 34,
            Svc::BigKick => 35,
            Svc::MuzzleFlash => 39,
        }
    }

    pub fn as_i32(self) -> (r: i32)
        ensures
            r == self.code(),
    {
        match self {
            Svc::UpdateFrags => 14,
            Svc::TempEntity => 23,
            Svc::SetPause => 24,
            Svc::CenterPrint => 26,
            Svc::KilledMonster => 27,
            Svc::FoundSecret => 28,
            Svc::Intermission => 30,
            Svc::Finale => 31,
            Svc::CdTrack => 32,
            Svc::SellScreen => 33,
            Svc::SmallKick => 34,
            Svc::BigKick => 35,
            Svc::MuzzleFlash => 39,
        }
    }
}

/// Temporary-entity effect.
#[derive(Clone, Copy, PartialEq, Eq, Debug, Structural)]
pub enum Te {
    Spike,
    SuperSpike,
    Gunshot,
    Explosion,
    TarExplosion,
    Lightning1,
    Lightning2,
    WizSpike,
    KnightSpike,
    Lightning3,
    LavaSplash,
    Teleport,
    Blood,
    LightningBlood,
}

impl Te {
    /// The number the engine uses for this value.
    pub open spec fn code(self) -> int {
        match self {
            Te::Spike => 0,
            Te::SuperSpike => 1,
            Te::Gunshot => 2,
            Te::Explosion => 3,
            Te::TarExplosion => 4,
            Te::Lightning1 => 5,
            Te::Lightning2 => 6,
            Te::WizSpike => 7,
            Te::KnightSpike => 8,
            Te::Lightning3 => 9,
            Te::LavaSplash => 10,
            Te::Teleport => 11,
            Te::Blood => 12,
            Te::LightningBlood => 13,
        }
    }

    pub fn as_i32(self) -> (r: i32)
        ensures
            r == self.code(),
    {
        match self {
            Te::Spike => 0,
            Te::SuperSpike => 1,
            Te::Gunshot => 2,
            Te::Explosion => 3,
            Te::TarExplosion => 4,
            Te::Lightning1 => 5,
            Te::Lightning2 => 6,
            Te::WizSpike => 7,
            Te::KnightSpike => 8,
            Te::Lightning3 => 9,
            Te::LavaSplash => 10,
            Te::Teleport => 11,
            Te::Blood => 12,
            Te::LightningBlood => 13,
        }
    }
}

/// The player hull: half width, floor and top of the bounding box, and eye height, in units.
pub const HULL_HALF_WIDTH: i32 = 16;
pub const HULL_BOTTOM: i32 = -24;
pub const HULL_TOP: i32 = 32;
pub const VIEW_HEIGHT: i32 = 22;

/// Button bits of a player command.
pub const BUTTON_ATTACK: i32 = 1;
pub const BUTTON_JUMP: i32 = 2;

/// The weapon a player holds.
#[derive(Clone, Copy, PartialEq, Eq, Debug, Structural)]
pub enum Weapon {
    Nil,
    Axe,
    Shotgun,
    SuperShotgun,
    Nailgun,
    SuperNailgun,
    GrenadeLauncher,
    RocketLauncher,
    Lightning,
    Grapple,
}

impl Weapon {
    /// The `Items` bit that owning this weapon sets; `Nil` sets none.
    pub open spec fn bit(self) -> i32 {
        match self {
            Weapon::Nil => 0,
            Weapon::Axe => Items::AXE,
            Weapon::Shotgun => Items::SHOTGUN,
            Weapon::SuperShotgun => Items::SUPER_SHOTGUN,
            Weapon::Nailgun => Items::NAILGUN,
            Weapon::SuperNailgun => Items::SUPER_NAILGUN,
            Weapon::GrenadeLauncher => Items::GRENADE_LAUNCHER,
            Weapon::RocketLauncher => Items::ROCKET_LAUNCHER,
            Weapon::Lightning => Items::LIGHTNING,
            Weapon::Grapple => Items::GRAPPLE,
        }
    }

    pub fn item(self) -> (r: i32)
        ensures
            r == self.bit(),
    {
        match self {
            Weapon::Nil => 0,
            Weapon::Axe => Items::AXE,
            Weapon::Shotgun => Items::SHOTGUN,
            Weapon::SuperShotgun => Items::SUPER_SHOTGUN,
            Weapon::Nailgun => Items::NAILGUN,
            Weapon::SuperNailgun => Items::SUPER_NAILGUN,
            Weapon::GrenadeLauncher => Items::GRENADE_LAUNCHER,
            Weapon::RocketLauncher => Items::ROCKET_LAUNCHER,
            Weapon::Lightning => Items::LIGHTNING,
            Weapon::Grapple => Items::GRAPPLE,
        }
    }

    /// The weapon whose item bit this is; anything else is none.
    pub open spec fn of_bit(bits: i32) -> Weapon {
        if bits == Items::AXE {
            Weapon::Axe
        } else if bits == Items::SHOTGUN {
            Weapon::Shotgun
        } else if bits == Items::SUPER_SHOTGUN {
            Weapon::SuperShotgun
        } else if bits == Items::NAILGUN {
            Weapon::Nailgun
        } else if bits == Items::SUPER_NAILGUN {
            Weapon::SuperNailgun
        } else if bits == Items::GRENADE_LAUNCHER {
            Weapon::GrenadeLauncher
        } else if bits == Items::ROCKET_LAUNCHER {
            Weapon::RocketLauncher
        } else if bits == Items::LIGHTNING {
            Weapon::Lightning
        } else if bits == Items::GRAPPLE {
            Weapon::Grapple
        } else {
            Weapon::Nil
        }
    }

    pub fn from_item(bits: i32) -> (r: Weapon)
        ensures
            r == Weapon::of_bit(bits),
    {
        if bits == Items::AXE {
            Weapon::Axe
        } else if bits == Items::SHOTGUN {
            Weapon::Shotgun
        } else if bits == Items::SUPER_SHOTGUN {
            Weapon::SuperShotgun
        } else if bits == Items::NAILGUN {
            Weapon::Nailgun
        } else if bits == Items::SUPER_NAILGUN {
            Weapon::SuperNailgun
        } else if bits == Items::GRENADE_LAUNCHER {
            Weapon::GrenadeLauncher
        } else if bits == Items::ROCKET_LAUNCHER {
            Weapon::RocketLauncher
        } else if bits == Items::LIGHTNING {
            Weapon::Lightning
        } else if bits == Items::GRAPPLE {
            Weapon::Grapple
        } else {
            Weapon::Nil
        }
    }
}

/// A weapon is found again from its item bit.
pub proof fn weapon_bits_round_trip(w: Weapon)
    ensures
        Weapon::of_bit(w.bit()) == w,
{
    assert(1i32 << 1i32 == 2 && 1i32 << 2i32 == 4 && 1i32 << 3i32 == 8 && 1i32 << 4i32 == 16 && 1i32 << 5i32 == 32
        && 1i32 << 6i32 == 64 && 1i32 << 7i32 == 128 && 1i32 << 12i32 == 4096) by (bit_vector);
}

/// The numbers that the bits of the engine's fields stand for.
pub proof fn bits_have_their_places()
    ensures
        Items::SHOTGUN == 1 && Items::SUPER_SHOTGUN == 2 && Items::NAILGUN == 4 && Items::SUPER_NAILGUN == 8,
        Items::GRENADE_LAUNCHER == 16 && Items::ROCKET_LAUNCHER == 32 && Items::LIGHTNING == 64 && Items::GRAPPLE == 128,
        Items::SHELLS == 256 && Items::NAILS == 512 && Items::ROCKETS == 1024 && Items::CELLS == 2048,
        Items::AXE == 4096 && Items::ARMOR1 == 8192 && Items::ARMOR2 == 16384 && Items::ARMOR3 == 32768,
        Items::SUPERHEALTH == 65536 && Items::KEY1 == 131072 && Items::KEY2 == 262144,
        Items::INVISIBILITY == 524288 && Items::INVULNERABILITY == 1048576 && Items::SUIT == 2097152,
        Items::QUAD == 4194304,
        Flags::CLIENT == 8 && Flags::INWATER == 16 && Flags::GODMODE == 64 && Flags::ITEM == 256 && Flags::ONGROUND == 512,
        Flags::WATERJUMP == 2048 && Flags::JUMPRELEASED == 4096,
        Effects::MUZZLEFLASH == 2 && Effects::DIMLIGHT == 8 && Effects::BLUE == 64 && Effects::RED == 128,
        SpawnFilter::NOT_EASY == 256 && SpawnFilter::NOT_MEDIUM == 512 && SpawnFilter::NOT_HARD == 1024,
        SpawnFilter::NOT_DEATHMATCH == 2048,
        DoorFlags::START_OPEN == 1 && DoorFlags::DONT_LINK == 4 && DoorFlags::GOLD_KEY == 8,
        DoorFlags::SILVER_KEY == 16 && DoorFlags::TOGGLE == 32,
        HealthFlags::ROTTEN == 1 && HealthFlags::MEGA == 2 && AmmoFlags::BIG == 1,
{
    assert(1i32 << 1 == 2 && 1i32 << 2 == 4 && 1i32 << 3 == 8 && 1i32 << 4 == 16 && 1i32 << 5 == 32 && 1i32 << 6 == 64
        && 1i32 << 7 == 128 && 1i32 << 8 == 256 && 1i32 << 9 == 512 && 1i32 << 10 == 1024 && 1i32 << 11 == 2048 && 1i32
        << 12 == 4096 && 1i32 << 13 == 8192 && 1i32 << 14 == 16384 && 1i32 << 15 == 32768 && 1i32 << 16 == 65536 && 1i32
        << 17 == 131072 && 1i32 << 18 == 262144 && 1i32 << 19 == 524288 && 1i32 << 20 == 1048576 && 1i32 << 21 == 2097152
        && 1i32 << 22 == 4194304) by (bit_vector);
}

/// The numbers that the engine knows an entity's state by.
pub proof fn states_have_their_numbers()
    ensures
        Solid::Not.code() == 0 && Solid::Trigger.code() == 1 && Solid::BBox.code() == 2 && Solid::SlideBox.code() == 3,
        Solid::Bsp.code() == 4,
        MoveType::Nil.code() == 0 && MoveType::Walk.code() == 3 && MoveType::Toss.code() == 6 && MoveType::Push.code() == 7,
        MoveType::Noclip.code() == 8 && MoveType::FlyMissile.code() == 9 && MoveType::Bounce.code() == 10,
        Content::Empty.code() == -1 && Content::Solid.code() == -2 && Content::Water.code() == -3,
        Content::Slime.code() == -4 && Content::Lava.code() == -5 && Content::Sky.code() == -6,
        DeadFlag::No.code() == 0 && DeadFlag::Dying.code() == 1 && DeadFlag::Dead.code() == 2,
        DeadFlag::Respawnable.code() == 3,
        TakeDamage::No.code() == 0 && TakeDamage::Yes.code() == 1 && TakeDamage::Aim.code() == 2,
        BUTTON_ATTACK == 1 && BUTTON_JUMP == 2,
{
}

/// Each weapon has the bit of its name.
pub proof fn weapons_have_their_bits()
    ensures
        Weapon::Axe.bit() == 4096 && Weapon::Shotgun.bit() == 1 && Weapon::SuperShotgun.bit() == 2,
        Weapon::Nailgun.bit() == 4 && Weapon::SuperNailgun.bit() == 8 && Weapon::GrenadeLauncher.bit() == 16,
        Weapon::RocketLauncher.bit() == 32 && Weapon::Lightning.bit() == 64 && Weapon::Grapple.bit() == 128,
        Weapon::Nil.bit() == 0,
{
    bits_have_their_places();
}

/// A player is thirty-two units wide, reaches from twenty-four below its middle to thirty-two above it,
/// and sees from twenty-two above.
pub proof fn players_have_their_size()
    ensures
        HULL_HALF_WIDTH == 16 && HULL_BOTTOM == -24 && HULL_TOP == 32 && VIEW_HEIGHT == 22,
{
}

} // verus!
