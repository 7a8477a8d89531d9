//! The part of the engine's shared memory layout that the rules depend on.
//!
//! The engine strides an array of entity records. Each record starts with the shared fields and is
//! followed by one eight-byte cell for every string field: a string field holds the byte offset of
//! its cell, counted from the start of the array, and the engine resolves the string through it.
use crate::defs::{DeadFlag, MoveType, Solid, TakeDamage, Weapon};
use vstd::prelude::*;

verus! {

/// The number of string fields, and so of string cells, of one entity record.
pub const STRING_REF_COUNT: usize = 11;

/// The cell of the first-person weapon model.
pub const STRING_REF_WEAPONMODEL: usize = 2;

/// The cell of the client's name.
pub const STRING_REF_NETNAME: usize = 3;

/// Bytes of the shared fields at the start of a record; the string cells follow at once.
pub const SHARED_FIELDS_SIZE: usize = 408;

/// Bytes from one entity record to the next.
pub const ENTITY_STRIDE: usize = 512;

/// Bytes of one string cell.
pub const STRING_CELL_SIZE: usize = 8;

/// The shared fields of an entity, as the whole numbers and values they stand for.
///
/// A string field holds the byte offset of its cell; zero leaves the string unset.
#[derive(Clone, Copy, Debug)]
pub struct EntVars {
    /// Model number; zero hides the entity.
    pub modelindex: i32,
    pub movetype: MoveType,
    pub solid: Solid,
    pub frame: i32,
    pub skin: i32,
    pub effects: i32,
    /// Bounding box, in thousandths of a unit.
    pub mins: [i32; 3],
    pub maxs: [i32; 3],
    /// Callback gates: the engine reports a touch or a block only where the field is nonzero.
    pub touch: i32,
    pub use_: i32,
    pub think: i32,
    pub blocked: i32,
    /// The pusher's own clock and the time of the next think, in milliseconds.
    pub ltime: u32,
    pub nextthink: i64,
    /// Entity references are byte offsets into the entity array.
    pub groundentity: i32,
    pub health: i32,
    pub frags: i32,
    pub weapon: Weapon,
    pub weaponframe: i32,
    pub currentammo: i32,
    pub ammo_shells: i32,
    pub ammo_nails: i32,
    pub ammo_rockets: i32,
    pub ammo_cells: i32,
    pub items: i32,
    pub takedamage: TakeDamage,
    pub deadflag: DeadFlag,
    pub button0: bool,
    pub button1: bool,
    pub button2: bool,
    pub impulse: i32,
    pub fixangle: bool,
    pub enemy: i32,
    pub flags: i32,
    pub team: i32,
    pub max_health: i32,
    /// Share of damage the armor absorbs, in thousandths.
    pub armortype: i32,
    pub armorvalue: i32,
    pub waterlevel: i32,
    pub watertype: i32,
    pub goalentity: i32,
    pub spawnflags: i32,
    pub dmg_take: i32,
    pub dmg_save: i32,
    pub dmg_inflictor: i32,
    pub owner: i32,
    pub sounds: i32,
    /// String fields, in cell order.
    pub classname: i32,
    pub model: i32,
    pub weaponmodel: i32,
    pub netname: i32,
    pub target: i32,
    pub targetname: i32,
    pub message: i32,
    pub noise: i32,
    pub noise1: i32,
    pub noise2: i32,
    pub noise3: i32,
}

impl EntVars {
    /// The string fields in cell order.
    pub open spec fn string_fields(self) -> Seq<i32> {
        seq![
            self.classname,
            self.model,
            self.weaponmodel,
            self.netname,
            self.target,
            self.targetname,
            self.message,
            self.noise,
            self.noise1,
            self.noise2,
            self.noise3,
        ]
    }

    /// These fields with every string field set to its cell as `cells` gives it.
    pub open spec fn with_string_fields(self, cells: Seq<i32>) -> EntVars {
        EntVars {
            classname: cells[0],
            model: cells[1],
            weaponmodel: cells[2],
            netname: cells[3],
            target: cells[4],
            targetname: cells[5],
            message: cells[6],
            noise: cells[7],
            noise1: cells[8],
            noise2: cells[9],
            noise3: cells[10],
            ..self
        }
    }

    /// What a freshly cleared record holds: zero everywhere.
    pub open spec fn is_cleared(self) -> bool {
        &&& self.modelindex == 0
        &&& self.movetype == MoveType::Nil
        &&& self.solid == Solid::Not
        &&& self.frame == 0
        &&& self.skin == 0
        &&& self.effects == 0
        &&& self.mins@ =~= seq![0i32, 0i32, 0i32]
        &&& self.maxs@ =~= seq![0i32, 0i32, 0i32]
        &&& self.touch == 0
        &&& self.use_ == 0
        &&& self.think == 0
        &&& self.blocked == 0
        &&& self.ltime == 0
        &&& self.nextthink == 0
        &&& self.groundentity == 0
        &&& self.health == 0
        &&& self.frags == 0
        &&& self.weapon == Weapon::Nil
        &&& self.weaponframe == 0
        &&& self.currentammo == 0
        &&& self.ammo_shells == 0
        &&& self.ammo_nails == 0
        &&& self.ammo_rockets == 0
        &&& self.ammo_cells == 0
        &&& self.items == 0
        &&& self.takedamage == TakeDamage::No
        &&& self.deadflag == DeadFlag::No
        &&& self.button0 == false
        &&& self.button1 == false
        &&& self.button2 == false
        &&& self.impulse == 0
        &&& self.fixangle == false
        &&& self.enemy == 0
        &&& self.flags == 0
        &&& self.team == 0
        &&& self.max_health == 0
        &&& self.armortype == 0
        &&& self.armorvalue == 0
        &&& self.waterlevel == 0
        &&& self.watertype == 0
        &&& self.goalentity == 0
        &&& self.spawnflags == 0
        &&& self.dmg_take == 0
        &&& self.dmg_save == 0
        &&& self.dmg_inflictor == 0
        &&& self.owner == 0
        &&& self.sounds == 0
        &&& self.classname == 0
        &&& self.model == 0
        &&& self.weaponmodel == 0
        &&& self.netname == 0
        &&& self.target == 0
        &&& self.targetname == 0
        &&& self.message == 0
        &&& self.noise == 0
        &&& self.noise1 == 0
        &&& self.noise2 == 0
        &&& self.noise3 == 0
    }

    pub fn cleared() -> (v: EntVars)
        ensures
            v.is_cleared(),
    {
        EntVars {
            modelindex: 0,
            movetype: MoveType::Nil,
            solid: Solid::Not,
            frame: 0,
            skin: 0,
            effects: 0,
            mins: [0, 0, 0],
            maxs: [0, 0, 0],
            touch: 0,
            use_: 0,
            think: 0,
            blocked: 0,
            ltime: 0,
            nextthink: 0,
            groundentity: 0,
            health: 0,
            frags: 0,
            weapon: Weapon::Nil,
            weaponframe: 0,
            currentammo: 0,
            ammo_shells: 0,
            ammo_nails: 0,
            ammo_rockets: 0,
            ammo_cells: 0,
            items: 0,
            takedamage: TakeDamage::No,
            deadflag: DeadFlag::No,
            button0: false,
            button1: false,
            button2: false,
            impulse: 0,
            fixangle: false,
            enemy: 0,
            flags: 0,
            team: 0,
            max_health: 0,
            armortype: 0,
            armorvalue: 0,
            waterlevel: 0,
            watertype: 0,
            goalentity: 0,
            spawnflags: 0,
            dmg_take: 0,
            dmg_save: 0,
            dmg_inflictor: 0,
            owner: 0,
            sounds: 0,
            classname: 0,
            model: 0,
            weaponmodel: 0,
            netname: 0,
            target: 0,
            targetname: 0,
            message: 0,
            noise: 0,
            noise1: 0,
            noise2: 0,
            noise3: 0,
        }
    }

    /// Point each string field at its cell: field `i` receives what `slot` gives for `i`, and no
    /// other field changes.
    pub fn link_string_refs(&mut self, slot: impl Fn(usize) -> i32)
        requires
            forall|i: usize| i < STRING_REF_COUNT ==> call_requires(slot, (i,)),
        ensures
            final(self).string_fields().len() == STRING_REF_COUNT,
            forall|i: usize|
                i < STRING_REF_COUNT ==> call_ensures(
                    slot,
                    (i,),
                    #[trigger] final(self).string_fields()[i as int],
                ),
            *final(self) == old(self).with_string_fields(final(self).string_fields()),
    {
        self.classname = slot(0);
        self.model = slot(1);
        self.weaponmodel = slot(2);
        self.netname = slot(3);
        self.target = slot(4);
        self.targetname = slot(5);
        self.message = slot(6);
        self.noise = slot(7);
        self.noise1 = slot(8);
        self.noise2 = slot(9);
        self.noise3 = slot(10);
        assert forall|i: usize| i < STRING_REF_COUNT implies call_ensures(
            slot,
            (i,),
            #[trigger] self.string_fields()[i as int],
        ) by {
            assert(i == 0 || i == 1 || i == 2 || i == 3 || i == 4 || i == 5 || i == 6 || i == 7 || i == 8
                || i == 9 || i == 10);
        }
    }
}

/// How the engine's entity-string parser reads a registered extra field.
#[derive(Clone, Copy, PartialEq, Eq, Debug, Structural)]
pub enum FieldType {
    Int,
    Float,
    LString,
    Vector,
    AngleHack,
    Ignore,
}

impl FieldType {
    pub open spec fn code(self) -> i32 {
        match self {
            FieldType::Int => 0,
            FieldType::Float => 1,
            FieldType::LString => 2,
            FieldType::Vector => 3,
            FieldType::AngleHack => 4,
            FieldType::Ignore => 5,
        }
    }

    pub fn as_i32(self) -> (r: i32)
        ensures
            r == self.code(),
    {
        match self {
            FieldType::Int => 0,
            FieldType::Float => 1,
            FieldType::LString => 2,
            FieldType::Vector => 3,
            FieldType::AngleHack => 4,
            FieldType::Ignore => 5,
        }
    }
}

/// One row of the extra-field table handed to the engine. A row without a name ends the table.
pub struct Field {
    pub name: Option<&'static str>,
    pub ofs: i32,
    pub type_: i32,
}

impl Field {
    /// The row that ends the table.
    pub fn terminator() -> (f: Field)
        ensures
            f.name is None,
            f.ofs == 0,
            f.type_ == 0,
    {
        Field { name: None, ofs: 0, type_: 0 }
    }

    /// Declare an extra field by name, byte offset from the start of the record, and type.
    pub fn new(name: &'static str, ofs: i32, ty: FieldType) -> (f: Field)
        ensures
            f.name == Some(name),
            f.ofs == ofs,
            f.type_ == ty.code(),
    {
        Field { name: Some(name), ofs, type_: ty.as_i32() }
    }
}

} // verus!
