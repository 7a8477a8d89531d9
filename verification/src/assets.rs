//! Sounds and models: what can be used has been announced to the engine beforehand.
//!
//! A handle names either a registered asset, which is announced when the world spawns, or one that
//! was interned at run time, which is announced when it is first seen.
use crate::text::same_text;
use vstd::prelude::*;

verus! {

/// A sound that can be played.
#[allow(non_camel_case_types)]
#[derive(Clone, Copy, PartialEq, Eq, Debug, Structural)]
pub enum Sound {
    AMBIENCE_BUZZ1,
    AMBIENCE_FIRE1,
    AMBIENCE_FL_HUM1,
    AMBIENCE_HUM1,
    AMBIENCE_WINDFLY,
    BOSS1_SIGHT1,
    BUTTONS_AIRBUT1,
    BUTTONS_SWITCH02,
    BUTTONS_SWITCH04,
    BUTTONS_SWITCH21,
    DEMON_DLAND2,
    DOORS_BASETRY,
    DOORS_BASEUSE,
    DOORS_DDOOR1,
    DOORS_DDOOR2,
    DOORS_DOORMV1,
    DOORS_DRCLOS4,
    DOORS_HYDRO1,
    DOORS_HYDRO2,
    DOORS_MEDTRY,
    DOORS_MEDUSE,
    DOORS_RUNETRY,
    DOORS_RUNEUSE,
    DOORS_STNDR1,
    DOORS_STNDR2,
    ITEMS_ARMOR1,
    ITEMS_DAMAGE,
    ITEMS_DAMAGE2,
    ITEMS_DAMAGE3,
    ITEMS_HEALTH1,
    ITEMS_INV1,
    ITEMS_INV2,
    ITEMS_INV3,
    ITEMS_ITEMBK2,
    ITEMS_PROTECT,
    ITEMS_PROTECT2,
    ITEMS_PROTECT3,
    ITEMS_R_ITEM1,
    ITEMS_R_ITEM2,
    ITEMS_SUIT,
    ITEMS_SUIT2,
    MISC_H2OHIT1,
    MISC_NULL,
    MISC_OUTWATER,
    MISC_POWER,
    MISC_R_TELE1,
    MISC_R_TELE2,
    MISC_R_TELE3,
    MISC_R_TELE4,
    MISC_R_TELE5,
    MISC_SECRET,
    MISC_TALK,
    MISC_TRIGGER1,
    MISC_WATER1,
    MISC_WATER2,
    PLATS_MEDPLAT1,
    PLATS_MEDPLAT2,
    PLATS_PLAT1,
    PLATS_PLAT2,
    PLATS_TRAIN1,
    PLATS_TRAIN2,
    PLAYER_AXHIT1,
    PLAYER_AXHIT2,
    PLAYER_DEATH1,
    PLAYER_DEATH2,
    PLAYER_DEATH3,
    PLAYER_DEATH4,
    PLAYER_DEATH5,
    PLAYER_DROWN1,
    PLAYER_DROWN2,
    PLAYER_GASP1,
    PLAYER_GASP2,
    PLAYER_GIB,
    PLAYER_H2ODEATH,
    PLAYER_H2OJUMP,
    PLAYER_INH2O,
    PLAYER_INLAVA,
    PLAYER_LAND,
    PLAYER_LAND2,
    PLAYER_LBURN1,
    PLAYER_LBURN2,
    PLAYER_PAIN1,
    PLAYER_PAIN2,
    PLAYER_PAIN3,
    PLAYER_PAIN4,
    PLAYER_PAIN5,
    PLAYER_PAIN6,
    PLAYER_PLYRJMP8,
    PLAYER_SLIMBRN2,
    PLAYER_TELEDTH1,
    PLAYER_TORNOFF2,
    PLAYER_UDEATH,
    WEAPONS_AX1,
    WEAPONS_BOUNCE,
    WEAPONS_GRENADE,
    WEAPONS_GUNCOCK,
    WEAPONS_LHIT,
    WEAPONS_LOCK4,
    WEAPONS_LSTART,
    WEAPONS_PKUP,
    WEAPONS_R_EXP3,
    WEAPONS_RIC1,
    WEAPONS_RIC2,
    WEAPONS_RIC3,
    WEAPONS_ROCKET1I,
    WEAPONS_SGUN1,
    WEAPONS_SHOTGN2,
    WEAPONS_SPIKE2,
    WEAPONS_TINK1,
    /// One interned at run time, by its number.
    Interned(usize),
}

/// How many sounds are registered.
pub const SOUND_COUNT: usize = 109;

impl Sound {
    /// Whether this is a registered sound.
    pub open spec fn registered(self) -> bool {
        self !is Interned
    }

    /// The place of a registered sound in the announcement order.
    pub open spec fn number(self) -> int {
        match self {
            Sound::AMBIENCE_BUZZ1 => 0,
            Sound::AMBIENCE_FIRE1 => 1,
            Sound::AMBIENCE_FL_HUM1 => 2,
            Sound::AMBIENCE_HUM1 => 3,
            Sound::AMBIENCE_WINDFLY => 4,
            Sound::BOSS1_SIGHT1 => 5,
            Sound::BUTTONS_AIRBUT1 => 6,
            Sound::BUTTONS_SWITCH02 => 7,
            Sound::BUTTONS_SWITCH04 => 8,
            Sound::BUTTONS_SWITCH21 => 9,
            Sound::DEMON_DLAND2 => 10,
            Sound::DOORS_BASETRY => 11,
            Sound::DOORS_BASEUSE => 12,
            Sound::DOORS_DDOOR1 => 13,
            Sound::DOORS_DDOOR2 => 14,
            Sound::DOORS_DOORMV1 => 15,
            Sound::DOORS_DRCLOS4 => 16,
            Sound::DOORS_HYDRO1 => 17,
            Sound::DOORS_HYDRO2 => 18,
            Sound::DOORS_MEDTRY => 19,
            Sound::DOORS_MEDUSE => 20,
            Sound::DOORS_RUNETRY => 21,
            Sound::DOORS_RUNEUSE => 22,
            Sound::DOORS_STNDR1 => 23,
            Sound::DOORS_STNDR2 => 24,
            Sound::ITEMS_ARMOR1 => 25,
            Sound::ITEMS_DAMAGE => 26,
            Sound::ITEMS_DAMAGE2 => 27,
            Sound::ITEMS_DAMAGE3 => 28,
            Sound::ITEMS_HEALTH1 => 29,
            Sound::ITEMS_INV1 => 30,
            Sound::ITEMS_INV2 => 31,
            Sound::ITEMS_INV3 => 32,
            Sound::ITEMS_ITEMBK2 => 33,
            Sound::ITEMS_PROTECT => 34,
            Sound::ITEMS_PROTECT2 => 35,
            Sound::ITEMS_PROTECT3 => 36,
            Sound::ITEMS_R_ITEM1 => 37,
            Sound::ITEMS_R_ITEM2 => 38,
            Sound::ITEMS_SUIT => 39,
            Sound::ITEMS_SUIT2 => 40,
            Sound::MISC_H2OHIT1 => 41,
            Sound::MISC_NULL => 42,
            Sound::MISC_OUTWATER => 43,
            Sound::MISC_POWER => 44,
            Sound::MISC_R_TELE1 => 45,
            Sound::MISC_R_TELE2 => 46,
            Sound::MISC_R_TELE3 => 47,
            Sound::MISC_R_TELE4 => 48,
            Sound::MISC_R_TELE5 => 49,
            Sound::MISC_SECRET => 50,
            Sound::MISC_TALK => 51,
            Sound::MISC_TRIGGER1 => 52,
            Sound::MISC_WATER1 => 53,
            Sound::MISC_WATER2 => 54,
            Sound::PLATS_MEDPLAT1 => 55,
            Sound::PLATS_MEDPLAT2 => 56,
            Sound::PLATS_PLAT1 => 57,
            Sound::PLATS_PLAT2 => 58,
            Sound::PLATS_TRAIN1 => 59,
            Sound::PLATS_TRAIN2 => 60,
            Sound::PLAYER_AXHIT1 => 61,
            Sound::PLAYER_AXHIT2 => 62,
            Sound::PLAYER_DEATH1 => 63,
            Sound::PLAYER_DEATH2 => 64,
            Sound::PLAYER_DEATH3 => 65,
            Sound::PLAYER_DEATH4 => 66,
            Sound::PLAYER_DEATH5 => 67,
            Sound::PLAYER_DROWN1 => 68,
            Sound::PLAYER_DROWN2 => 69,
            Sound::PLAYER_GASP1 => 70,
            Sound::PLAYER_GASP2 => 71,
            Sound::PLAYER_GIB => 72,
            Sound::PLAYER_H2ODEATH => 73,
            Sound::PLAYER_H2OJUMP => 74,
            Sound::PLAYER_INH2O => 75,
            Sound::PLAYER_INLAVA => 76,
            Sound::PLAYER_LAND => 77,
            Sound::PLAYER_LAND2 => 78,
            Sound::PLAYER_LBURN1 => 79,
            Sound::PLAYER_LBURN2 => 80,
            Sound::PLAYER_PAIN1 => 81,
            Sound::PLAYER_PAIN2 => 82,
            Sound::PLAYER_PAIN3 => 83,
            Sound::PLAYER_PAIN4 => 84,
            Sound::PLAYER_PAIN5 => 85,
            Sound::PLAYER_PAIN6 => 86,
            Sound::PLAYER_PLYRJMP8 => 87,
            Sound::PLAYER_SLIMBRN2 => 88,
            Sound::PLAYER_TELEDTH1 => 89,
            Sound::PLAYER_TORNOFF2 => 90,
            Sound::PLAYER_UDEATH => 91,
            Sound::WEAPONS_AX1 => 92,
            Sound::WEAPONS_BOUNCE => 93,
            Sound::WEAPONS_GRENADE => 94,
            Sound::WEAPONS_GUNCOCK => 95,
            Sound::WEAPONS_LHIT => 96,
            Sound::WEAPONS_LOCK4 => 97,
            Sound::WEAPONS_LSTART => 98,
            Sound::WEAPONS_PKUP => 99,
            Sound::WEAPONS_R_EXP3 => 100,
            Sound::WEAPONS_RIC1 => 101,
            Sound::WEAPONS_RIC2 => 102,
            Sound::WEAPONS_RIC3 => 103,
            Sound::WEAPONS_ROCKET1I => 104,
            Sound::WEAPONS_SGUN1 => 105,
            Sound::WEAPONS_SHOTGN2 => 106,
            Sound::WEAPONS_SPIKE2 => 107,
            Sound::WEAPONS_TINK1 => 108,
            Sound::Interned(_) => -1,
        }
    }

    /// The path of a registered sound.
    pub open spec fn wire_path(self) -> Option<Seq<char>> {
        match self {
            Sound::AMBIENCE_BUZZ1 => Some("ambience/buzz1.wav"@),
            Sound::AMBIENCE_FIRE1 => Some("ambience/fire1.wav"@),
            Sound::AMBIENCE_FL_HUM1 => Some("ambience/fl_hum1.wav"@),
            Sound::AMBIENCE_HUM1 => Some("ambience/hum1.wav"@),
            Sound::AMBIENCE_WINDFLY => Some("ambience/windfly.wav"@),
            Sound::BOSS1_SIGHT1 => Some("boss1/sight1.wav"@),
            Sound::BUTTONS_AIRBUT1 => Some("buttons/airbut1.wav"@),
            Sound::BUTTONS_SWITCH02 => Some("buttons/switch02.wav"@),
            Sound::BUTTONS_SWITCH04 => Some("buttons/switch04.wav"@),
            Sound::BUTTONS_SWITCH21 => Some("buttons/switch21.wav"@),
            Sound::DEMON_DLAND2 => Some("demon/dland2.wav"@),
            Sound::DOORS_BASETRY => Some("doors/basetry.wav"@),
            Sound::DOORS_BASEUSE => Some("doors/baseuse.wav"@),
            Sound::DOORS_DDOOR1 => Some("doors/ddoor1.wav"@),
            Sound::DOORS_DDOOR2 => Some("doors/ddoor2.wav"@),
            Sound::DOORS_DOORMV1 => Some("doors/doormv1.wav"@),
            Sound::DOORS_DRCLOS4 => Some("doors/drclos4.wav"@),
            Sound::DOORS_HYDRO1 => Some("doors/hydro1.wav"@),
            Sound::DOORS_HYDRO2 => Some("doors/hydro2.wav"@),
            Sound::DOORS_MEDTRY => Some("doors/medtry.wav"@),
            Sound::DOORS_MEDUSE => Some("doors/meduse.wav"@),
            Sound::DOORS_RUNETRY => Some("doors/runetry.wav"@),
            Sound::DOORS_RUNEUSE => Some("doors/runeuse.wav"@),
            Sound::DOORS_STNDR1 => Some("doors/stndr1.wav"@),
            Sound::DOORS_STNDR2 => Some("doors/stndr2.wav"@),
            Sound::ITEMS_ARMOR1 => Some("items/armor1.wav"@),
            Sound::ITEMS_DAMAGE => Some("items/damage.wav"@),
            Sound::ITEMS_DAMAGE2 => Some("items/damage2.wav"@),
            Sound::ITEMS_DAMAGE3 => Some("items/damage3.wav"@),
            Sound::ITEMS_HEALTH1 => Some("items/health1.wav"@),
            Sound::ITEMS_INV1 => Some("items/inv1.wav"@),
            Sound::ITEMS_INV2 => Some("items/inv2.wav"@),
            Sound::ITEMS_INV3 => Some("items/inv3.wav"@),
            Sound::ITEMS_ITEMBK2 => Some("items/itembk2.wav"@),
            Sound::ITEMS_PROTECT => Some("items/protect.wav"@),
            Sound::ITEMS_PROTECT2 => Some("items/protect2.wav"@),
            Sound::ITEMS_PROTECT3 => Some("items/protect3.wav"@),
            Sound::ITEMS_R_ITEM1 => Some("items/r_item1.wav"@),
            Sound::ITEMS_R_ITEM2 => Some("items/r_item2.wav"@),
            Sound::ITEMS_SUIT => Some("items/suit.wav"@),
            Sound::ITEMS_SUIT2 => Some("items/suit2.wav"@),
            Sound::MISC_H2OHIT1 => Some("misc/h2ohit1.wav"@),
            Sound::MISC_NULL => Some("misc/null.wav"@),
            Sound::MISC_OUTWATER => Some("misc/outwater.wav"@),
            Sound::MISC_POWER => Some("misc/power.wav"@),
            Sound::MISC_R_TELE1 => Some("misc/r_tele1.wav"@),
            Sound::MISC_R_TELE2 => Some("misc/r_tele2.wav"@),
            Sound::MISC_R_TELE3 => Some("misc/r_tele3.wav"@),
            Sound::MISC_R_TELE4 => Some("misc/r_tele4.wav"@),
            Sound::MISC_R_TELE5 => Some("misc/r_tele5.wav"@),
            Sound::MISC_SECRET => Some("misc/secret.wav"@),
            Sound::MISC_TALK => Some("misc/talk.wav"@),
            Sound::MISC_TRIGGER1 => Some("misc/trigger1.wav"@),
            Sound::MISC_WATER1 => Some("misc/water1.wav"@),
            Sound::MISC_WATER2 => Some("misc/water2.wav"@),
            Sound::PLATS_MEDPLAT1 => Some("plats/medplat1.wav"@),
            Sound::PLATS_MEDPLAT2 => Some("plats/medplat2.wav"@),
            Sound::PLATS_PLAT1 => Some("plats/plat1.wav"@),
            Sound::PLATS_PLAT2 => Some("plats/plat2.wav"@),
            Sound::PLATS_TRAIN1 => Some("plats/train1.wav"@),
            Sound::PLATS_TRAIN2 => Some("plats/train2.wav"@),
            Sound::PLAYER_AXHIT1 => Some("player/axhit1.wav"@),
            Sound::PLAYER_AXHIT2 => Some("player/axhit2.wav"@),
            Sound::PLAYER_DEATH1 => Some("player/death1.wav"@),
            Sound::PLAYER_DEATH2 => Some("player/death2.wav"@),
            Sound::PLAYER_DEATH3 => Some("player/death3.wav"@),
            Sound::PLAYER_DEATH4 => Some("player/death4.wav"@),
            Sound::PLAYER_DEATH5 => Some("player/death5.wav"@),
            Sound::PLAYER_DROWN1 => Some("player/drown1.wav"@),
            Sound::PLAYER_DROWN2 => Some("player/drown2.wav"@),
            Sound::PLAYER_GASP1 => Some("player/gasp1.wav"@),
            Sound::PLAYER_GASP2 => Some("player/gasp2.wav"@),
            Sound::PLAYER_GIB => Some("player/gib.wav"@),
            Sound::PLAYER_H2ODEATH => Some("player/h2odeath.wav"@),
            Sound::PLAYER_H2OJUMP => Some("player/h2ojump.wav"@),
            Sound::PLAYER_INH2O => Some("player/inh2o.wav"@),
            Sound::PLAYER_INLAVA => Some("player/inlava.wav"@),
            Sound::PLAYER_LAND => Some("player/land.wav"@),
            Sound::PLAYER_LAND2 => Some("player/land2.wav"@),
            Sound::PLAYER_LBURN1 => Some("player/lburn1.wav"@),
            Sound::PLAYER_LBURN2 => Some("player/lburn2.wav"@),
            Sound::PLAYER_PAIN1 => Some("player/pain1.wav"@),
            Sound::PLAYER_PAIN2 => Some("player/pain2.wav"@),
            Sound::PLAYER_PAIN3 => Some("player/pain3.wav"@),
            Sound::PLAYER_PAIN4 => Some("player/pain4.wav"@),
            Sound::PLAYER_PAIN5 => Some("player/pain5.wav"@),
            Sound::PLAYER_PAIN6 => Some("player/pain6.wav"@),
            Sound::PLAYER_PLYRJMP8 => Some("player/plyrjmp8.wav"@),
            Sound::PLAYER_SLIMBRN2 => Some("player/slimbrn2.wav"@),
            Sound::PLAYER_TELEDTH1 => Some("player/teledth1.wav"@),
            Sound::PLAYER_TORNOFF2 => Some("player/tornoff2.wav"@),
            Sound::PLAYER_UDEATH => Some("player/udeath.wav"@),
            Sound::WEAPONS_AX1 => Some("weapons/ax1.wav"@),
            Sound::WEAPONS_BOUNCE => Some("weapons/bounce.wav"@),
            Sound::WEAPONS_GRENADE => Some("weapons/grenade.wav"@),
            Sound::WEAPONS_GUNCOCK => Some("weapons/guncock.wav"@),
            Sound::WEAPONS_LHIT => Some("weapons/lhit.wav"@),
            Sound::WEAPONS_LOCK4 => Some("weapons/lock4.wav"@),
            Sound::WEAPONS_LSTART => Some("weapons/lstart.wav"@),
            Sound::WEAPONS_PKUP => Some("weapons/pkup.wav"@),
            Sound::WEAPONS_R_EXP3 => Some("weapons/r_exp3.wav"@),
            Sound::WEAPONS_RIC1 => Some("weapons/ric1.wav"@),
            Sound::WEAPONS_RIC2 => Some("weapons/ric2.wav"@),
            Sound::WEAPONS_RIC3 => Some("weapons/ric3.wav"@),
            Sound::WEAPONS_ROCKET1I => Some("weapons/rocket1i.wav"@),
            Sound::WEAPONS_SGUN1 => Some("weapons/sgun1.wav"@),
            Sound::WEAPONS_SHOTGN2 => Some("weapons/shotgn2.wav"@),
            Sound::WEAPONS_SPIKE2 => Some("weapons/spike2.wav"@),
            Sound::WEAPONS_TINK1 => Some("weapons/tink1.wav"@),
            Sound::Interned(_) => None,
        }
    }

    pub fn path(self) -> (r: Option<&'static str>)
        ensures
            match r {
                Some(p) => self.wire_path() == Some(p@),
                None => self.wire_path() is None,
            },
    {
        match self {
            Sound::AMBIENCE_BUZZ1 => Some("ambience/buzz1.wav"),
            Sound::AMBIENCE_FIRE1 => Some("ambience/fire1.wav"),
            Sound::AMBIENCE_FL_HUM1 => Some("ambience/fl_hum1.wav"),
            Sound::AMBIENCE_HUM1 => Some("ambience/hum1.wav"),
            Sound::AMBIENCE_WINDFLY => Some("ambience/windfly.wav"),
            Sound::BOSS1_SIGHT1 => Some("boss1/sight1.wav"),
            Sound::BUTTONS_AIRBUT1 => Some("buttons/airbut1.wav"),
            Sound::BUTTONS_SWITCH02 => Some("buttons/switch02.wav"),
            Sound::BUTTONS_SWITCH04 => Some("buttons/switch04.wav"),
            Sound::BUTTONS_SWITCH21 => Some("buttons/switch21.wav"),
            Sound::DEMON_DLAND2 => Some("demon/dland2.wav"),
            Sound::DOORS_BASETRY => Some("doors/basetry.wav"),
            Sound::DOORS_BASEUSE => Some("doors/baseuse.wav"),
            Sound::DOORS_DDOOR1 => Some("doors/ddoor1.wav"),
            Sound::DOORS_DDOOR2 => Some("doors/ddoor2.wav"),
            Sound::DOORS_DOORMV1 => Some("doors/doormv1.wav"),
            Sound::DOORS_DRCLOS4 => Some("doors/drclos4.wav"),
            Sound::DOORS_HYDRO1 => Some("doors/hydro1.wav"),
            Sound::DOORS_HYDRO2 => Some("doors/hydro2.wav"),
            Sound::DOORS_MEDTRY => Some("doors/medtry.wav"),
            Sound::DOORS_MEDUSE => Some("doors/meduse.wav"),
            Sound::DOORS_RUNETRY => Some("doors/runetry.wav"),
            Sound::DOORS_RUNEUSE => Some("doors/runeuse.wav"),
            Sound::DOORS_STNDR1 => Some("doors/stndr1.wav"),
            Sound::DOORS_STNDR2 => Some("doors/stndr2.wav"),
            Sound::ITEMS_ARMOR1 => Some("items/armor1.wav"),
            Sound::ITEMS_DAMAGE => Some("items/damage.wav"),
            Sound::ITEMS_DAMAGE2 => Some("items/damage2.wav"),
            Sound::ITEMS_DAMAGE3 => Some("items/damage3.wav"),
            Sound::ITEMS_HEALTH1 => Some("items/health1.wav"),
            Sound::ITEMS_INV1 => Some("items/inv1.wav"),
            Sound::ITEMS_INV2 => Some("items/inv2.wav"),
            Sound::ITEMS_INV3 => Some("items/inv3.wav"),
            Sound::ITEMS_ITEMBK2 => Some("items/itembk2.wav"),
            Sound::ITEMS_PROTECT => Some("items/protect.wav"),
            Sound::ITEMS_PROTECT2 => Some("items/protect2.wav"),
            Sound::ITEMS_PROTECT3 => Some("items/protect3.wav"),
            Sound::ITEMS_R_ITEM1 => Some("items/r_item1.wav"),
            Sound::ITEMS_R_ITEM2 => Some("items/r_item2.wav"),
            Sound::ITEMS_SUIT => Some("items/suit.wav"),
            Sound::ITEMS_SUIT2 => Some("items/suit2.wav"),
            Sound::MISC_H2OHIT1 => Some("misc/h2ohit1.wav"),
            Sound::MISC_NULL => Some("misc/null.wav"),
            Sound::MISC_OUTWATER => Some("misc/outwater.wav"),
            Sound::MISC_POWER => Some("misc/power.wav"),
            Sound::MISC_R_TELE1 => Some("misc/r_tele1.wav"),
            Sound::MISC_R_TELE2 => Some("misc/r_tele2.wav"),
            Sound::MISC_R_TELE3 => Some("misc/r_tele3.wav"),
            Sound::MISC_R_TELE4 => Some("misc/r_tele4.wav"),
            Sound::MISC_R_TELE5 => Some("misc/r_tele5.wav"),
            Sound::MISC_SECRET => Some("misc/secret.wav"),
            Sound::MISC_TALK => Some("misc/talk.wav"),
            Sound::MISC_TRIGGER1 => Some("misc/trigger1.wav"),
            Sound::MISC_WATER1 => Some("misc/water1.wav"),
            Sound::MISC_WATER2 => Some("misc/water2.wav"),
            Sound::PLATS_MEDPLAT1 => Some("plats/medplat1.wav"),
            Sound::PLATS_MEDPLAT2 => Some("plats/medplat2.wav"),
            Sound::PLATS_PLAT1 => Some("plats/plat1.wav"),
            Sound::PLATS_PLAT2 => Some("plats/plat2.wav"),
            Sound::PLATS_TRAIN1 => Some("plats/train1.wav"),
            Sound::PLATS_TRAIN2 => Some("plats/train2.wav"),
            Sound::PLAYER_AXHIT1 => Some("player/axhit1.wav"),
            Sound::PLAYER_AXHIT2 => Some("player/axhit2.wav"),
            Sound::PLAYER_DEATH1 => Some("player/death1.wav"),
            Sound::PLAYER_DEATH2 => Some("player/death2.wav"),
            Sound::PLAYER_DEATH3 => Some("player/death3.wav"),
            Sound::PLAYER_DEATH4 => Some("player/death4.wav"),
            Sound::PLAYER_DEATH5 => Some("player/death5.wav"),
            Sound::PLAYER_DROWN1 => Some("player/drown1.wav"),
            Sound::PLAYER_DROWN2 => Some("player/drown2.wav"),
            Sound::PLAYER_GASP1 => Some("player/gasp1.wav"),
            Sound::PLAYER_GASP2 => Some("player/gasp2.wav"),
            Sound::PLAYER_GIB => Some("player/gib.wav"),
            Sound::PLAYER_H2ODEATH => Some("player/h2odeath.wav"),
            Sound::PLAYER_H2OJUMP => Some("player/h2ojump.wav"),
            Sound::PLAYER_INH2O => Some("player/inh2o.wav"),
            Sound::PLAYER_INLAVA => Some("player/inlava.wav"),
            Sound::PLAYER_LAND => Some("player/land.wav"),
            Sound::PLAYER_LAND2 => Some("player/land2.wav"),
            Sound::PLAYER_LBURN1 => Some("player/lburn1.wav"),
            Sound::PLAYER_LBURN2 => Some("player/lburn2.wav"),
            Sound::PLAYER_PAIN1 => Some("player/pain1.wav"),
            Sound::PLAYER_PAIN2 => Some("player/pain2.wav"),
            Sound::PLAYER_PAIN3 => Some("player/pain3.wav"),
            Sound::PLAYER_PAIN4 => Some("player/pain4.wav"),
            Sound::PLAYER_PAIN5 => Some("player/pain5.wav"),
            Sound::PLAYER_PAIN6 => Some("player/pain6.wav"),
            Sound::PLAYER_PLYRJMP8 => Some("player/plyrjmp8.wav"),
            Sound::PLAYER_SLIMBRN2 => Some("player/slimbrn2.wav"),
            Sound::PLAYER_TELEDTH1 => Some("player/teledth1.wav"),
            Sound::PLAYER_TORNOFF2 => Some("player/tornoff2.wav"),
            Sound::PLAYER_UDEATH => Some("player/udeath.wav"),
            Sound::WEAPONS_AX1 => Some("weapons/ax1.wav"),
            Sound::WEAPONS_BOUNCE => Some("weapons/bounce.wav"),
            Sound::WEAPONS_GRENADE => Some("weapons/grenade.wav"),
            Sound::WEAPONS_GUNCOCK => Some("weapons/guncock.wav"),
            Sound::WEAPONS_LHIT => Some("weapons/lhit.wav"),
            Sound::WEAPONS_LOCK4 => Some("weapons/lock4.wav"),
            Sound::WEAPONS_LSTART => Some("weapons/lstart.wav"),
            Sound::WEAPONS_PKUP => Some("weapons/pkup.wav"),
            Sound::WEAPONS_R_EXP3 => Some("weapons/r_exp3.wav"),
            Sound::WEAPONS_RIC1 => Some("weapons/ric1.wav"),
            Sound::WEAPONS_RIC2 => Some("weapons/ric2.wav"),
            Sound::WEAPONS_RIC3 => Some("weapons/ric3.wav"),
            Sound::WEAPONS_ROCKET1I => Some("weapons/rocket1i.wav"),
            Sound::WEAPONS_SGUN1 => Some("weapons/sgun1.wav"),
            Sound::WEAPONS_SHOTGN2 => Some("weapons/shotgn2.wav"),
            Sound::WEAPONS_SPIKE2 => Some("weapons/spike2.wav"),
            Sound::WEAPONS_TINK1 => Some("weapons/tink1.wav"),
            Sound::Interned(_) => None,
        }
    }

    /// The registered sound at a place in the announcement order.
    pub open spec fn nth(i: int) -> Sound {

        if i == 0 {
            Sound::AMBIENCE_BUZZ1
        } else if i == 1 {
            Sound::AMBIENCE_FIRE1
        } else if i == 2 {
            Sound::AMBIENCE_FL_HUM1
        } else if i == 3 {
            Sound::AMBIENCE_HUM1
        } else if i == 4 {
            Sound::AMBIENCE_WINDFLY
        } else if i == 5 {
            Sound::BOSS1_SIGHT1
        } else if i == 6 {
            Sound::BUTTONS_AIRBUT1
        } else if i == 7 {
            Sound::BUTTONS_SWITCH02
        } else if i == 8 {
            Sound::BUTTONS_SWITCH04
        } else if i == 9 {
            Sound::BUTTONS_SWITCH21
        } else if i == 10 {
            Sound::DEMON_DLAND2
        } else if i == 11 {
            Sound::DOORS_BASETRY
        } else if i == 12 {
            Sound::DOORS_BASEUSE
        } else if i == 13 {
            Sound::DOORS_DDOOR1
        } else if i == 14 {
            Sound::DOORS_DDOOR2
        } else if i == 15 {
            Sound::DOORS_DOORMV1
        } else if i == 16 {
            Sound::DOORS_DRCLOS4
        } else if i == 17 {
            Sound::DOORS_HYDRO1
        } else if i == 18 {
            Sound::DOORS_HYDRO2
        } else if i == 19 {
            Sound::DOORS_MEDTRY
        } else if i == 20 {
            Sound::DOORS_MEDUSE
        } else if i == 21 {
            Sound::DOORS_RUNETRY
        } else if i == 22 {
            Sound::DOORS_RUNEUSE
        } else if i == 23 {
            Sound::DOORS_STNDR1
        } else if i == 24 {
            Sound::DOORS_STNDR2
        } else if i == 25 {
            Sound::ITEMS_ARMOR1
        } else if i == 26 {
            Sound::ITEMS_DAMAGE
        } else if i == 27 {
            Sound::ITEMS_DAMAGE2
        } else if i == 28 {
            Sound::ITEMS_DAMAGE3
        } else if i == 29 {
            Sound::ITEMS_HEALTH1
        } else if i == 30 {
            Sound::ITEMS_INV1
        } else if i == 31 {
            Sound::ITEMS_INV2
        } else if i == 32 {
            Sound::ITEMS_INV3
        } else if i == 33 {
            Sound::ITEMS_ITEMBK2
        } else if i == 34 {
            Sound::ITEMS_PROTECT
        } else if i == 35 {
            Sound::ITEMS_PROTECT2
        } else if i == 36 {
            Sound::ITEMS_PROTECT3
        } else if i == 37 {
            Sound::ITEMS_R_ITEM1
        } else if i == 38 {
            Sound::ITEMS_R_ITEM2
        } else if i == 39 {
            Sound::ITEMS_SUIT
        } else if i == 40 {
            Sound::ITEMS_SUIT2
        } else if i == 41 {
            Sound::MISC_H2OHIT1
        } else if i == 42 {
            Sound::MISC_NULL
        } else if i == 43 {
            Sound::MISC_OUTWATER
        } else if i == 44 {
            Sound::MISC_POWER
        } else if i == 45 {
            Sound::MISC_R_TELE1
        } else if i == 46 {
            Sound::MISC_R_TELE2
        } else if i == 47 {
            Sound::MISC_R_TELE3
        } else if i == 48 {
            Sound::MISC_R_TELE4
        } else if i == 49 {
            Sound::MISC_R_TELE5
        } else if i == 50 {
            Sound::MISC_SECRET
        } else if i == 51 {
            Sound::MISC_TALK
        } else if i == 52 {
            Sound::MISC_TRIGGER1
        } else if i == 53 {
            Sound::MISC_WATER1
        } else if i == 54 {
            Sound::MISC_WATER2
        } else if i == 55 {
            Sound::PLATS_MEDPLAT1
        } else if i == 56 {
            Sound::PLATS_MEDPLAT2
        } else if i == 57 {
            Sound::PLATS_PLAT1
        } else if i == 58 {
            Sound::PLATS_PLAT2
        } else if i == 59 {
            Sound::PLATS_TRAIN1
        } else if i == 60 {
            Sound::PLATS_TRAIN2
        } else if i == 61 {
            Sound::PLAYER_AXHIT1
        } else if i == 62 {
            Sound::PLAYER_AXHIT2
        } else if i == 63 {
            Sound::PLAYER_DEATH1
        } else if i == 64 {
            Sound::PLAYER_DEATH2
        } else if i == 65 {
            Sound::PLAYER_DEATH3
        } else if i == 66 {
            Sound::PLAYER_DEATH4
        } else if i == 67 {
            Sound::PLAYER_DEATH5
        } else if i == 68 {
            Sound::PLAYER_DROWN1
        } else if i == 69 {
            Sound::PLAYER_DROWN2
        } else if i == 70 {
            Sound::PLAYER_GASP1
        } else if i == 71 {
            Sound::PLAYER_GASP2
        } else if i == 72 {
            Sound::PLAYER_GIB
        } else if i == 73 {
            Sound::PLAYER_H2ODEATH
        } else if i == 74 {
            Sound::PLAYER_H2OJUMP
        } else if i == 75 {
            Sound::PLAYER_INH2O
        } else if i == 76 {
            Sound::PLAYER_INLAVA
        } else if i == 77 {
            Sound::PLAYER_LAND
        } else if i == 78 {
            Sound::PLAYER_LAND2
        } else if i == 79 {
            Sound::PLAYER_LBURN1
        } else if i == 80 {
            Sound::PLAYER_LBURN2
        } else if i == 81 {
            Sound::PLAYER_PAIN1
        } else if i == 82 {
            Sound::PLAYER_PAIN2
        } else if i == 83 {
            Sound::PLAYER_PAIN3
        } else if i == 84 {
            Sound::PLAYER_PAIN4
        } else if i == 85 {
            Sound::PLAYER_PAIN5
        } else if i == 86 {
            Sound::PLAYER_PAIN6
        } else if i == 87 {
            Sound::PLAYER_PLYRJMP8
        } else if i == 88 {
            Sound::PLAYER_SLIMBRN2
        } else if i == 89 {
            Sound::PLAYER_TELEDTH1
        } else if i == 90 {
            Sound::PLAYER_TORNOFF2
        } else if i == 91 {
            Sound::PLAYER_UDEATH
        } else if i == 92 {
            Sound::WEAPONS_AX1
        } else if i == 93 {
            Sound::WEAPONS_BOUNCE
        } else if i == 94 {
            Sound::WEAPONS_GRENADE
        } else if i == 95 {
            Sound::WEAPONS_GUNCOCK
        } else if i == 96 {
            Sound::WEAPONS_LHIT
        } else if i == 97 {
            Sound::WEAPONS_LOCK4
        } else if i == 98 {
            Sound::WEAPONS_LSTART
        } else if i == 99 {
            Sound::WEAPONS_PKUP
        } else if i == 100 {
            Sound::WEAPONS_R_EXP3
        } else if i == 101 {
            Sound::WEAPONS_RIC1
        } else if i == 102 {
            Sound::WEAPONS_RIC2
        } else if i == 103 {
            Sound::WEAPONS_RIC3
        } else if i == 104 {
            Sound::WEAPONS_ROCKET1I
        } else if i == 105 {
            Sound::WEAPONS_SGUN1
        } else if i == 106 {
            Sound::WEAPONS_SHOTGN2
        } else if i == 107 {
            Sound::WEAPONS_SPIKE2
        } else {
            Sound::WEAPONS_TINK1
        }
    }

    fn announce(i: usize) -> (r: Sound)
        ensures
            r == Sound::nth(i as int),
    {
        match i {
            0 => Sound::AMBIENCE_BUZZ1,
            1 => Sound::AMBIENCE_FIRE1,
            2 => Sound::AMBIENCE_FL_HUM1,
            3 => Sound::AMBIENCE_HUM1,
            4 => Sound::AMBIENCE_WINDFLY,
            5 => Sound::BOSS1_SIGHT1,
            6 => Sound::BUTTONS_AIRBUT1,
            7 => Sound::BUTTONS_SWITCH02,
            8 => Sound::BUTTONS_SWITCH04,
            9 => Sound::BUTTONS_SWITCH21,
            10 => Sound::DEMON_DLAND2,
            11 => Sound::DOORS_BASETRY,
            12 => Sound::DOORS_BASEUSE,
            13 => Sound::DOORS_DDOOR1,
            14 => Sound::DOORS_DDOOR2,
            15 => Sound::DOORS_DOORMV1,
            16 => Sound::DOORS_DRCLOS4,
            17 => Sound::DOORS_HYDRO1,
            18 => Sound::DOORS_HYDRO2,
            19 => Sound::DOORS_MEDTRY,
            20 => Sound::DOORS_MEDUSE,
            21 => Sound::DOORS_RUNETRY,
            22 => Sound::DOORS_RUNEUSE,
            23 => Sound::DOORS_STNDR1,
            24 => Sound::DOORS_STNDR2,
            25 => Sound::ITEMS_ARMOR1,
            26 => Sound::ITEMS_DAMAGE,
            27 => Sound::ITEMS_DAMAGE2,
            28 => Sound::ITEMS_DAMAGE3,
            29 => Sound::ITEMS_HEALTH1,
            30 => Sound::ITEMS_INV1,
            31 => Sound::ITEMS_INV2,
            32 => Sound::ITEMS_INV3,
            33 => Sound::ITEMS_ITEMBK2,
            34 => Sound::ITEMS_PROTECT,
            35 => Sound::ITEMS_PROTECT2,
            36 => Sound::ITEMS_PROTECT3,
            37 => Sound::ITEMS_R_ITEM1,
            38 => Sound::ITEMS_R_ITEM2,
            39 => Sound::ITEMS_SUIT,
            40 => Sound::ITEMS_SUIT2,
            41 => Sound::MISC_H2OHIT1,
            42 => Sound::MISC_NULL,
            43 => Sound::MISC_OUTWATER,
            44 => Sound::MISC_POWER,
            45 => Sound::MISC_R_TELE1,
            46 => Sound::MISC_R_TELE2,
            47 => Sound::MISC_R_TELE3,
            48 => Sound::MISC_R_TELE4,
            49 => Sound::MISC_R_TELE5,
            50 => Sound::MISC_SECRET,
            51 => Sound::MISC_TALK,
            52 => Sound::MISC_TRIGGER1,
            53 => Sound::MISC_WATER1,
            54 => Sound::MISC_WATER2,
            55 => Sound::PLATS_MEDPLAT1,
            56 => Sound::PLATS_MEDPLAT2,
            57 => Sound::PLATS_PLAT1,
            58 => Sound::PLATS_PLAT2,
            59 => Sound::PLATS_TRAIN1,
            60 => Sound::PLATS_TRAIN2,
            61 => Sound::PLAYER_AXHIT1,
            62 => Sound::PLAYER_AXHIT2,
            63 => Sound::PLAYER_DEATH1,
            64 => Sound::PLAYER_DEATH2,
            65 => Sound::PLAYER_DEATH3,
            66 => Sound::PLAYER_DEATH4,
            67 => Sound::PLAYER_DEATH5,
            68 => Sound::PLAYER_DROWN1,
            69 => Sound::PLAYER_DROWN2,
            70 => Sound::PLAYER_GASP1,
            71 => Sound::PLAYER_GASP2,
            72 => Sound::PLAYER_GIB,
            73 => Sound::PLAYER_H2ODEATH,
            74 => Sound::PLAYER_H2OJUMP,
            75 => Sound::PLAYER_INH2O,
            76 => Sound::PLAYER_INLAVA,
            77 => Sound::PLAYER_LAND,
            78 => Sound::PLAYER_LAND2,
            79 => Sound::PLAYER_LBURN1,
            80 => Sound::PLAYER_LBURN2,
            81 => Sound::PLAYER_PAIN1,
            82 => Sound::PLAYER_PAIN2,
            83 => Sound::PLAYER_PAIN3,
            84 => Sound::PLAYER_PAIN4,
            85 => Sound::PLAYER_PAIN5,
            86 => Sound::PLAYER_PAIN6,
            87 => Sound::PLAYER_PLYRJMP8,
            88 => Sound::PLAYER_SLIMBRN2,
            89 => Sound::PLAYER_TELEDTH1,
            90 => Sound::PLAYER_TORNOFF2,
            91 => Sound::PLAYER_UDEATH,
            92 => Sound::WEAPONS_AX1,
            93 => Sound::WEAPONS_BOUNCE,
            94 => Sound::WEAPONS_GRENADE,
            95 => Sound::WEAPONS_GUNCOCK,
            96 => Sound::WEAPONS_LHIT,
            97 => Sound::WEAPONS_LOCK4,
            98 => Sound::WEAPONS_LSTART,
            99 => Sound::WEAPONS_PKUP,
            100 => Sound::WEAPONS_R_EXP3,
            101 => Sound::WEAPONS_RIC1,
            102 => Sound::WEAPONS_RIC2,
            103 => Sound::WEAPONS_RIC3,
            104 => Sound::WEAPONS_ROCKET1I,
            105 => Sound::WEAPONS_SGUN1,
            106 => Sound::WEAPONS_SHOTGN2,
            107 => Sound::WEAPONS_SPIKE2,
            _ => Sound::WEAPONS_TINK1,
        }
    }
}

/// Every registered sound, in the order it is announced to the engine.
pub fn precache_sounds() -> (r: Vec<Sound>)
    ensures
        r@ == Seq::new(SOUND_COUNT as nat, |i: int| Sound::nth(i)),
{
    let mut r: Vec<Sound> = Vec::new();
    let mut i: usize = 0;
    while i < SOUND_COUNT
        invariant
            i <= SOUND_COUNT,
            r@ == Seq::new(i as nat, |k: int| Sound::nth(k)),
        decreases SOUND_COUNT - i,
    {
        r.push(Sound::announce(i));
        i = i + 1;
        assert(r@ =~= Seq::new(i as nat, |k: int| Sound::nth(k)));
    }
    r
}

/// Every registered sound is announced to the engine: a missing announcement cannot be written.
pub proof fn every_sound_is_announced(a: Sound)
    requires
        a.registered(),
    ensures
        0 <= a.number() < SOUND_COUNT,
        Sound::nth(a.number()) == a,
        a.wire_path() is Some,
{
}

/// A model that can be shown.
#[allow(non_camel_case_types)]
#[derive(Clone, Copy, PartialEq, Eq, Debug, Structural)]
pub enum Model {
    MAPS_B_BATT0,
    MAPS_B_BATT1,
    MAPS_B_BH10,
    MAPS_B_BH100,
    MAPS_B_BH25,
    MAPS_B_EXBOX2,
    MAPS_B_EXPLOB,
    MAPS_B_NAIL0,
    MAPS_B_NAIL1,
    MAPS_B_ROCK0,
    MAPS_B_ROCK1,
    MAPS_B_SHELL0,
    MAPS_B_SHELL1,
    PROGS_ARMOR,
    PROGS_BACKPACK,
    PROGS_BOLT,
    PROGS_BOLT2,
    PROGS_BOLT3,
    PROGS_EYES,
    PROGS_FLAME,
    PROGS_FLAME2,
    PROGS_G_LIGHT,
    PROGS_G_NAIL,
    PROGS_G_NAIL2,
    PROGS_G_ROCK,
    PROGS_G_ROCK2,
    PROGS_G_SHOT,
    PROGS_GIB1,
    PROGS_GIB2,
    PROGS_GIB3,
    PROGS_GRENADE,
    PROGS_H_PLAYER,
    PROGS_INVISIBL,
    PROGS_INVULNER,
    PROGS_LAVABALL,
    PROGS_MISSILE,
    PROGS_PLAYER,
    PROGS_QUADDAMA,
    PROGS_S_BUBBLE,
    PROGS_S_EXPLOD,
    PROGS_S_LIGHT,
    PROGS_S_SPIKE,
    PROGS_SPIKE,
    PROGS_SUIT,
    PROGS_V_AXE,
    PROGS_V_LIGHT,
    PROGS_V_NAIL,
    PROGS_V_NAIL2,
    PROGS_V_ROCK,
    PROGS_V_ROCK2,
    PROGS_V_SHOT,
    PROGS_V_SHOT2,
    PROGS_V_STAR,
    PROGS_ZOM_GIB,
    /// One interned at run time, by its number.
    Interned(usize),
}

/// How many models are registered.
pub const MODEL_COUNT: usize = 54;

impl Model {
    /// Whether this is a registered model.
    pub open spec fn registered(self) -> bool {
        self !is Interned
    }

    /// The place of a registered model in the announcement order.
    pub open spec fn number(self) -> int {
        match self {
            Model::MAPS_B_BATT0 => 0,
            Model::MAPS_B_BATT1 => 1,
            Model::MAPS_B_BH10 => 2,
            Model::MAPS_B_BH100 => 3,
            Model::MAPS_B_BH25 => 4,
            Model::MAPS_B_EXBOX2 => 5,
            Model::MAPS_B_EXPLOB => 6,
            Model::MAPS_B_NAIL0 => 7,
            Model::MAPS_B_NAIL1 => 8,
            Model::MAPS_B_ROCK0 => 9,
            Model::MAPS_B_ROCK1 => 10,
            Model::MAPS_B_SHELL0 => 11,
            Model::MAPS_B_SHELL1 => 12,
            Model::PROGS_ARMOR => 13,
            Model::PROGS_BACKPACK => 14,
            Model::PROGS_BOLT => 15,
            Model::PROGS_BOLT2 => 16,
            Model::PROGS_BOLT3 => 17,
            Model::PROGS_EYES => 18,
            Model::PROGS_FLAME => 19,
            Model::PROGS_FLAME2 => 20,
            Model::PROGS_G_LIGHT => 21,
            Model::PROGS_G_NAIL => 22,
            Model::PROGS_G_NAIL2 => 23,
            Model::PROGS_G_ROCK => 24,
            Model::PROGS_G_ROCK2 => 25,
            Model::PROGS_G_SHOT => 26,
            Model::PROGS_GIB1 => 27,
            Model::PROGS_GIB2 => 28,
            Model::PROGS_GIB3 => 29,
            Model::PROGS_GRENADE => 30,
            Model::PROGS_H_PLAYER => 31,
            Model::PROGS_INVISIBL => 32,
            Model::PROGS_INVULNER => 33,
            Model::PROGS_LAVABALL => 34,
            Model::PROGS_MISSILE => 35,
            Model::PROGS_PLAYER => 36,
            Model::PROGS_QUADDAMA => 37,
            Model::PROGS_S_BUBBLE => 38,
            Model::PROGS_S_EXPLOD => 39,
            Model::PROGS_S_LIGHT => 40,
            Model::PROGS_S_SPIKE => 41,
            Model::PROGS_SPIKE => 42,
            Model::PROGS_SUIT => 43,
            Model::PROGS_V_AXE => 44,
            Model::PROGS_V_LIGHT => 45,
            Model::PROGS_V_NAIL => 46,
            Model::PROGS_V_NAIL2 => 47,
            Model::PROGS_V_ROCK => 48,
            Model::PROGS_V_ROCK2 => 49,
            Model::PROGS_V_SHOT => 50,
            Model::PROGS_V_SHOT2 => 51,
            Model::PROGS_V_STAR => 52,
            Model::PROGS_ZOM_GIB => 53,
            Model::Interned(_) => -1,
        }
    }

    /// The path of a registered model.
    pub open spec fn wire_path(self) -> Option<Seq<char>> {
        match self {
            Model::MAPS_B_BATT0 => Some("maps/b_batt0.bsp"@),
            Model::MAPS_B_BATT1 => Some("maps/b_batt1.bsp"@),
            Model::MAPS_B_BH10 => Some("maps/b_bh10.bsp"@),
            Model::MAPS_B_BH100 => Some("maps/b_bh100.bsp"@),
            Model::MAPS_B_BH25 => Some("maps/b_bh25.bsp"@),
            Model::MAPS_B_EXBOX2 => Some("maps/b_exbox2.bsp"@),
            Model::MAPS_B_EXPLOB => Some("maps/b_explob.bsp"@),
            Model::MAPS_B_NAIL0 => Some("maps/b_nail0.bsp"@),
            Model::MAPS_B_NAIL1 => Some("maps/b_nail1.bsp"@),
            Model::MAPS_B_ROCK0 => Some("maps/b_rock0.bsp"@),
            Model::MAPS_B_ROCK1 => Some("maps/b_rock1.bsp"@),
            Model::MAPS_B_SHELL0 => Some("maps/b_shell0.bsp"@),
            Model::MAPS_B_SHELL1 => Some("maps/b_shell1.bsp"@),
            Model::PROGS_ARMOR => Some("progs/armor.mdl"@),
            Model::PROGS_BACKPACK => Some("progs/backpack.mdl"@),
            Model::PROGS_BOLT => Some("progs/bolt.mdl"@),
            Model::PROGS_BOLT2 => Some("progs/bolt2.mdl"@),
            Model::PROGS_BOLT3 => Some("progs/bolt3.mdl"@),
            Model::PROGS_EYES => Some("progs/eyes.mdl"@),
            Model::PROGS_FLAME => Some("progs/flame.mdl"@),
            Model::PROGS_FLAME2 => Some("progs/flame2.mdl"@),
            Model::PROGS_G_LIGHT => Some("progs/g_light.mdl"@),
            Model::PROGS_G_NAIL => Some("progs/g_nail.mdl"@),
            Model::PROGS_G_NAIL2 => Some("progs/g_nail2.mdl"@),
            Model::PROGS_G_ROCK => Some("progs/g_rock.mdl"@),
            Model::PROGS_G_ROCK2 => Some("progs/g_rock2.mdl"@),
            Model::PROGS_G_SHOT => Some("progs/g_shot.mdl"@),
            Model::PROGS_GIB1 => Some("progs/gib1.mdl"@),
            Model::PROGS_GIB2 => Some("progs/gib2.mdl"@),
            Model::PROGS_GIB3 => Some("progs/gib3.mdl"@),
            Model::PROGS_GRENADE => Some("progs/grenade.mdl"@),
            Model::PROGS_H_PLAYER => Some("progs/h_player.mdl"@),
            Model::PROGS_INVISIBL => Some("progs/invisibl.mdl"@),
            Model::PROGS_INVULNER => Some("progs/invulner.mdl"@),
            Model::PROGS_LAVABALL => Some("progs/lavaball.mdl"@),
            Model::PROGS_MISSILE => Some("progs/missile.mdl"@),
            Model::PROGS_PLAYER => Some("progs/player.mdl"@),
            Model::PROGS_QUADDAMA => Some("progs/quaddama.mdl"@),
            Model::PROGS_S_BUBBLE => Some("progs/s_bubble.spr"@),
            Model::PROGS_S_EXPLOD => Some("progs/s_explod.spr"@),
            Model::PROGS_S_LIGHT => Some("progs/s_light.spr"@),
            Model::PROGS_S_SPIKE => Some("progs/s_spike.mdl"@),
            Model::PROGS_SPIKE => Some("progs/spike.mdl"@),
            Model::PROGS_SUIT => Some("progs/suit.mdl"@),
            Model::PROGS_V_AXE => Some("progs/v_axe.mdl"@),
            Model::PROGS_V_LIGHT => Some("progs/v_light.mdl"@),
            Model::PROGS_V_NAIL => Some("progs/v_nail.mdl"@),
            Model::PROGS_V_NAIL2 => Some("progs/v_nail2.mdl"@),
            Model::PROGS_V_ROCK => Some("progs/v_rock.mdl"@),
            Model::PROGS_V_ROCK2 => Some("progs/v_rock2.mdl"@),
            Model::PROGS_V_SHOT => Some("progs/v_shot.mdl"@),
            Model::PROGS_V_SHOT2 => Some("progs/v_shot2.mdl"@),
            Model::PROGS_V_STAR => Some("progs/v_star.mdl"@),
            Model::PROGS_ZOM_GIB => Some("progs/zom_gib.mdl"@),
            Model::Interned(_) => None,
        }
    }

    pub fn path(self) -> (r: Option<&'static str>)
        ensures
            match r {
                Some(p) => self.wire_path() == Some(p@),
                None => self.wire_path() is None,
            },
    {
        match self {
            Model::MAPS_B_BATT0 => Some("maps/b_batt0.bsp"),
            Model::MAPS_B_BATT1 => Some("maps/b_batt1.bsp"),
            Model::MAPS_B_BH10 => Some("maps/b_bh10.bsp"),
            Model::MAPS_B_BH100 => Some("maps/b_bh100.bsp"),
            Model::MAPS_B_BH25 => Some("maps/b_bh25.bsp"),
            Model::MAPS_B_EXBOX2 => Some("maps/b_exbox2.bsp"),
            Model::MAPS_B_EXPLOB => Some("maps/b_explob.bsp"),
            Model::MAPS_B_NAIL0 => Some("maps/b_nail0.bsp"),
            Model::MAPS_B_NAIL1 => Some("maps/b_nail1.bsp"),
            Model::MAPS_B_ROCK0 => Some("maps/b_rock0.bsp"),
            Model::MAPS_B_ROCK1 => Some("maps/b_rock1.bsp"),
            Model::MAPS_B_SHELL0 => Some("maps/b_shell0.bsp"),
            Model::MAPS_B_SHELL1 => Some("maps/b_shell1.bsp"),
            Model::PROGS_ARMOR => Some("progs/armor.mdl"),
            Model::PROGS_BACKPACK => Some("progs/backpack.mdl"),
            Model::PROGS_BOLT => Some("progs/bolt.mdl"),
            Model::PROGS_BOLT2 => Some("progs/bolt2.mdl"),
            Model::PROGS_BOLT3 => Some("progs/bolt3.mdl"),
            Model::PROGS_EYES => Some("progs/eyes.mdl"),
            Model::PROGS_FLAME => Some("progs/flame.mdl"),
            Model::PROGS_FLAME2 => Some("progs/flame2.mdl"),
            Model::PROGS_G_LIGHT => Some("progs/g_light.mdl"),
            Model::PROGS_G_NAIL => Some("progs/g_nail.mdl"),
            Model::PROGS_G_NAIL2 => Some("progs/g_nail2.mdl"),
            Model::PROGS_G_ROCK => Some("progs/g_rock.mdl"),
            Model::PROGS_G_ROCK2 => Some("progs/g_rock2.mdl"),
            Model::PROGS_G_SHOT => Some("progs/g_shot.mdl"),
            Model::PROGS_GIB1 => Some("progs/gib1.mdl"),
            Model::PROGS_GIB2 => Some("progs/gib2.mdl"),
            Model::PROGS_GIB3 => Some("progs/gib3.mdl"),
            Model::PROGS_GRENADE => Some("progs/grenade.mdl"),
            Model::PROGS_H_PLAYER => Some("progs/h_player.mdl"),
            Model::PROGS_INVISIBL => Some("progs/invisibl.mdl"),
            Model::PROGS_INVULNER => Some("progs/invulner.mdl"),
            Model::PROGS_LAVABALL => Some("progs/lavaball.mdl"),
            Model::PROGS_MISSILE => Some("progs/missile.mdl"),
            Model::PROGS_PLAYER => Some("progs/player.mdl"),
            Model::PROGS_QUADDAMA => Some("progs/quaddama.mdl"),
            Model::PROGS_S_BUBBLE => Some("progs/s_bubble.spr"),
            Model::PROGS_S_EXPLOD => Some("progs/s_explod.spr"),
            Model::PROGS_S_LIGHT => Some("progs/s_light.spr"),
            Model::PROGS_S_SPIKE => Some("progs/s_spike.mdl"),
            Model::PROGS_SPIKE => Some("progs/spike.mdl"),
            Model::PROGS_SUIT => Some("progs/suit.mdl"),
            Model::PROGS_V_AXE => Some("progs/v_axe.mdl"),
            Model::PROGS_V_LIGHT => Some("progs/v_light.mdl"),
            Model::PROGS_V_NAIL => Some("progs/v_nail.mdl"),
            Model::PROGS_V_NAIL2 => Some("progs/v_nail2.mdl"),
            Model::PROGS_V_ROCK => Some("progs/v_rock.mdl"),
            Model::PROGS_V_ROCK2 => Some("progs/v_rock2.mdl"),
            Model::PROGS_V_SHOT => Some("progs/v_shot.mdl"),
            Model::PROGS_V_SHOT2 => Some("progs/v_shot2.mdl"),
            Model::PROGS_V_STAR => Some("progs/v_star.mdl"),
            Model::PROGS_ZOM_GIB => Some("progs/zom_gib.mdl"),
            Model::Interned(_) => None,
        }
    }

    /// The registered model at a place in the announcement order.
    pub open spec fn nth(i: int) -> Model {

        if i == 0 {
            Model::MAPS_B_BATT0
        } else if i == 1 {
            Model::MAPS_B_BATT1
        } else if i == 2 {
            Model::MAPS_B_BH10
        } else if i == 3 {
            Model::MAPS_B_BH100
        } else if i == 4 {
            Model::MAPS_B_BH25
        } else if i == 5 {
            Model::MAPS_B_EXBOX2
        } else if i == 6 {
            Model::MAPS_B_EXPLOB
        } else if i == 7 {
            Model::MAPS_B_NAIL0
        } else if i == 8 {
            Model::MAPS_B_NAIL1
        } else if i == 9 {
            Model::MAPS_B_ROCK0
        } else if i == 10 {
            Model::MAPS_B_ROCK1
        } else if i == 11 {
            Model::MAPS_B_SHELL0
        } else if i == 12 {
            Model::MAPS_B_SHELL1
        } else if i == 13 {
            Model::PROGS_ARMOR
        } else if i == 14 {
            Model::PROGS_BACKPACK
        } else if i == 15 {
            Model::PROGS_BOLT
        } else if i == 16 {
            Model::PROGS_BOLT2
        } else if i == 17 {
            Model::PROGS_BOLT3
        } else if i == 18 {
            Model::PROGS_EYES
        } else if i == 19 {
            Model::PROGS_FLAME
        } else if i == 20 {
            Model::PROGS_FLAME2
        } else if i == 21 {
            Model::PROGS_G_LIGHT
        } else if i == 22 {
            Model::PROGS_G_NAIL
        } else if i == 23 {
            Model::PROGS_G_NAIL2
        } else if i == 24 {
            Model::PROGS_G_ROCK
        } else if i == 25 {
            Model::PROGS_G_ROCK2
        } else if i == 26 {
            Model::PROGS_G_SHOT
        } else if i == 27 {
            Model::PROGS_GIB1
        } else if i == 28 {
            Model::PROGS_GIB2
        } else if i == 29 {
            Model::PROGS_GIB3
        } else if i == 30 {
            Model::PROGS_GRENADE
        } else if i == 31 {
            Model::PROGS_H_PLAYER
        } else if i == 32 {
            Model::PROGS_INVISIBL
        } else if i == 33 {
            Model::PROGS_INVULNER
        } else if i == 34 {
            Model::PROGS_LAVABALL
        } else if i == 35 {
            Model::PROGS_MISSILE
        } else if i == 36 {
            Model::PROGS_PLAYER
        } else if i == 37 {
            Model::PROGS_QUADDAMA
        } else if i == 38 {
            Model::PROGS_S_BUBBLE
        } else if i == 39 {
            Model::PROGS_S_EXPLOD
        } else if i == 40 {
            Model::PROGS_S_LIGHT
        } else if i == 41 {
            Model::PROGS_S_SPIKE
        } else if i == 42 {
            Model::PROGS_SPIKE
        } else if i == 43 {
            Model::PROGS_SUIT
        } else if i == 44 {
            Model::PROGS_V_AXE
        } else if i == 45 {
            Model::PROGS_V_LIGHT
        } else if i == 46 {
            Model::PROGS_V_NAIL
        } else if i == 47 {
            Model::PROGS_V_NAIL2
        } else if i == 48 {
            Model::PROGS_V_ROCK
        } else if i == 49 {
            Model::PROGS_V_ROCK2
        } else if i == 50 {
            Model::PROGS_V_SHOT
        } else if i == 51 {
            Model::PROGS_V_SHOT2
        } else if i == 52 {
            Model::PROGS_V_STAR
        } else {
            Model::PROGS_ZOM_GIB
        }
    }

    fn announce(i: usize) -> (r: Model)
        ensures
            r == Model::nth(i as int),
    {
        match i {
            0 => Model::MAPS_B_BATT0,
            1 => Model::MAPS_B_BATT1,
            2 => Model::MAPS_B_BH10,
            3 => Model::MAPS_B_BH100,
            4 => Model::MAPS_B_BH25,
            5 => Model::MAPS_B_EXBOX2,
            6 => Model::MAPS_B_EXPLOB,
            7 => Model::MAPS_B_NAIL0,
            8 => Model::MAPS_B_NAIL1,
            9 => Model::MAPS_B_ROCK0,
            10 => Model::MAPS_B_ROCK1,
            11 => Model::MAPS_B_SHELL0,
            12 => Model::MAPS_B_SHELL1,
            13 => Model::PROGS_ARMOR,
            14 => Model::PROGS_BACKPACK,
            15 => Model::PROGS_BOLT,
            16 => Model::PROGS_BOLT2,
            17 => Model::PROGS_BOLT3,
            18 => Model::PROGS_EYES,
            19 => Model::PROGS_FLAME,
            20 => Model::PROGS_FLAME2,
            21 => Model::PROGS_G_LIGHT,
            22 => Model::PROGS_G_NAIL,
            23 => Model::PROGS_G_NAIL2,
            24 => Model::PROGS_G_ROCK,
            25 => Model::PROGS_G_ROCK2,
            26 => Model::PROGS_G_SHOT,
            27 => Model::PROGS_GIB1,
            28 => Model::PROGS_GIB2,
            29 => Model::PROGS_GIB3,
            30 => Model::PROGS_GRENADE,
            31 => Model::PROGS_H_PLAYER,
            32 => Model::PROGS_INVISIBL,
            33 => Model::PROGS_INVULNER,
            34 => Model::PROGS_LAVABALL,
            35 => Model::PROGS_MISSILE,
            36 => Model::PROGS_PLAYER,
            37 => Model::PROGS_QUADDAMA,
            38 => Model::PROGS_S_BUBBLE,
            39 => Model::PROGS_S_EXPLOD,
            40 => Model::PROGS_S_LIGHT,
            41 => Model::PROGS_S_SPIKE,
            42 => Model::PROGS_SPIKE,
            43 => Model::PROGS_SUIT,
            44 => Model::PROGS_V_AXE,
            45 => Model::PROGS_V_LIGHT,
            46 => Model::PROGS_V_NAIL,
            47 => Model::PROGS_V_NAIL2,
            48 => Model::PROGS_V_ROCK,
            49 => Model::PROGS_V_ROCK2,
            50 => Model::PROGS_V_SHOT,
            51 => Model::PROGS_V_SHOT2,
            52 => Model::PROGS_V_STAR,
            _ => Model::PROGS_ZOM_GIB,
        }
    }
}

/// Every registered model, in the order it is announced to the engine.
pub fn precache_models() -> (r: Vec<Model>)
    ensures
        r@ == Seq::new(MODEL_COUNT as nat, |i: int| Model::nth(i)),
{
    let mut r: Vec<Model> = Vec::new();
    let mut i: usize = 0;
    while i < MODEL_COUNT
        invariant
            i <= MODEL_COUNT,
            r@ == Seq::new(i as nat, |k: int| Model::nth(k)),
        decreases MODEL_COUNT - i,
    {
        r.push(Model::announce(i));
        i = i + 1;
        assert(r@ =~= Seq::new(i as nat, |k: int| Model::nth(k)));
    }
    r
}

/// Every registered model is announced to the engine: a missing announcement cannot be written.
pub proof fn every_model_is_announced(a: Model)
    requires
        a.registered(),
    ensures
        0 <= a.number() < MODEL_COUNT,
        Model::nth(a.number()) == a,
        a.wire_path() is Some,
{
}

/// The paths interned at run time, each once.
pub struct DynAssets {
    pub sounds: Vec<String>,
    pub models: Vec<String>,
}

/// The texts of a list of strings.
pub open spec fn texts(v: Seq<String>) -> Seq<Seq<char>> {
    Seq::new(v.len(), |i: int| v[i]@)
}

/// Interning `path` in `before` yields `after` and handle `index`, and `fresh` tells whether the
/// path was seen for the first time.
pub open spec fn interned(
    before: Seq<Seq<char>>,
    path: Seq<char>,
    after: Seq<Seq<char>>,
    index: int,
    fresh: bool,
) -> bool {
    if fresh {
        !before.contains(path) && after == before.push(path) && index == before.len()
    } else {
        after == before && 0 <= index < before.len() && before[index] == path
    }
}

/// The number of `path` in `table`, adding it at the end where it is new.
fn intern(table: &mut Vec<String>, path: &str) -> (r: (usize, bool))
    requires
        texts(old(table)@).no_duplicates(),
    ensures
        interned(texts(old(table)@), path@, texts(final(table)@), r.0 as int, r.1),
        texts(final(table)@).no_duplicates(),
{
    let mut i: usize = 0;
    while i < table.len()
        invariant
            i <= table@.len(),
            *table == *old(table),
            texts(old(table)@).no_duplicates(),
            forall|j: int| 0 <= j < i ==> (#[trigger] table@[j])@ != path@,
        decreases table.len() - i,
    {
        if same_text(table[i].as_str(), path) {
            assert(texts(table@)[i as int] == path@);
            return (i, false);
        }
        i = i + 1;
    }
    let at: usize = table.len();
    assert forall|j: int| 0 <= j < texts(table@).len() implies texts(table@)[j] != path@ by {
        assert(table@[j]@ != path@);
    }
    table.push(path.to_owned());
    assert(texts(table@) =~= texts(old(table)@).push(path@));
    (at, true)
}

impl DynAssets {
    /// No path is held twice.
    pub open spec fn wf(self) -> bool {
        texts(self.sounds@).no_duplicates() && texts(self.models@).no_duplicates()
    }

    pub fn new() -> (d: DynAssets)
        ensures
            d.wf(),
            d.sounds@.len() == 0,
            d.models@.len() == 0,
    {
        DynAssets { sounds: Vec::new(), models: Vec::new() }
    }

    /// The handle of a sound given by its path. The second result tells whether the path is new, so
    /// that the engine must be told of it now.
    pub fn sound(&mut self, path: &str) -> (r: (Sound, bool))
        requires
            old(self).wf(),
        ensures
            final(self).wf(),
            final(self).models == old(self).models,
            r.0 matches Sound::Interned(i) && interned(
                texts(old(self).sounds@),
                path@,
                texts(final(self).sounds@),
                i as int,
                r.1,
            ),
    {
        let (i, fresh): (usize, bool) = intern(&mut self.sounds, path);
        (Sound::Interned(i), fresh)
    }

    /// The handle of a model given by its path, and whether the path is new.
    pub fn model(&mut self, path: &str) -> (r: (Model, bool))
        requires
            old(self).wf(),
        ensures
            final(self).wf(),
            final(self).sounds == old(self).sounds,
            r.0 matches Model::Interned(i) && interned(
                texts(old(self).models@),
                path@,
                texts(final(self).models@),
                i as int,
                r.1,
            ),
    {
        let (i, fresh): (usize, bool) = intern(&mut self.models, path);
        (Model::Interned(i), fresh)
    }
}

/// A path is announced once: interning it again finds the handle it got the first time.
pub proof fn interning_is_idempotent(
    before: Seq<Seq<char>>,
    path: Seq<char>,
    mid: Seq<Seq<char>>,
    first: int,
    first_fresh: bool,
    after: Seq<Seq<char>>,
    second: int,
    second_fresh: bool,
)
    requires
        before.no_duplicates(),
        interned(before, path, mid, first, first_fresh),
        interned(mid, path, after, second, second_fresh),
    ensures
        first == second,
        !second_fresh,
        after == mid,
{
    assert(mid[first] == path);
    assert(mid.contains(path));
    if first_fresh {
        assert(mid.no_duplicates());
    }
}

/// A handle keeps naming the path it was given for, whatever is interned later.
pub proof fn handles_are_stable(
    before: Seq<Seq<char>>,
    path: Seq<char>,
    after: Seq<Seq<char>>,
    index: int,
    fresh: bool,
    held: int,
)
    requires
        interned(before, path, after, index, fresh),
        0 <= held < before.len(),
    ensures
        after[held] == before[held],
{
}

} // verus!
