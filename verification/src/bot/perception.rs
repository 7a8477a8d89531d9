//! What stands between the target a mode names and what a bot knows of it: seen in the view cone for a
//! reaction beat, heard firing nearby, or felt. Awareness lasts a while without contact.
//!
//! Angles are thousandths of a degree, skill thousandths of a step, times milliseconds.
use crate::bot::state::BotState;
use crate::entity::{EntId, Entity};
use crate::game::GameState;
use crate::num::{after, bounded, since};
use vstd::prelude::*;

verus! {

/// How long a target stays known without contact.
pub const MEMORY: i64 = 5000;

/// Range within which gunfire is heard.
pub const HEAR_RADIUS: u32 = 1000000;

/// No reaction is faster than this.
pub const REACTION_FLOOR: i64 = 50;

/// A view cone of everything.
pub const FULL_CIRCLE: i64 = 360000;

/// What a bot knows about a named target.
#[derive(Clone, Copy, PartialEq, Eq, Debug, Structural)]
pub enum Awareness {
    Unaware,
    /// Known, but out of sight: hunt where it was last seen.
    Known,
    Visible,
}

/// The view cone: the base, wider with skill, up to the full circle; zero or less switches the cone
/// off.
pub open spec fn cone(fov: int, skill: int) -> int {
    if fov <= 0 {
        0
    } else if fov + 4 * skill <= FULL_CIRCLE {
        fov + 4 * skill
    } else {
        FULL_CIRCLE as int
    }
}

pub fn effective_fov(fov: i64, skill: u32) -> (r: i64)
    ensures
        r == cone(fov as int, skill as int),
{
    if fov <= 0 {
        return 0;
    }
    let wide: i128 = fov as i128 + 4 * skill as i128;
    if wide <= FULL_CIRCLE as i128 {
        wide as i64
    } else {
        FULL_CIRCLE
    }
}

/// The time a target must be seen before the bot reacts: the base, shorter with skill, down to a
/// floor; zero or less is instant.
pub open spec fn reaction(base: int, skill: int) -> int {
    let shortened = base * (8000 - skill) / 8000;
    if base <= 0 {
        0
    } else if shortened >= REACTION_FLOOR {
        shortened
    } else {
        REACTION_FLOOR as int
    }
}

pub fn reaction_time(base: i64, skill: u32) -> (r: i64)
    ensures
        r == reaction(base as int, skill as int),
{
    if base <= 0 {
        return 0;
    }
    if skill > 8000 {
        assert(base * (8000 - skill) <= 0) by (nonlinear_arith)
            requires
                base > 0,
                skill > 8000,
        ;
        return REACTION_FLOOR;
    }
    assert(0 <= base * (8000 - skill) <= base * 8000) by (nonlinear_arith)
        requires
            base > 0,
            0 <= skill <= 8000,
    ;
    let shortened: i128 = base as i128 * (8000 - skill as i128) / 8000;
    if shortened >= REACTION_FLOOR as i128 {
        shortened as i64
    } else {
        REACTION_FLOOR
    }
}

/// The share of a line, in thousandths, past which it counts as clear.
pub const CLEAR_FRACTION: u32 = 950;

/// What a bot's senses say about its target this frame.
#[derive(Clone, Copy, PartialEq, Eq, Debug, Structural)]
pub struct Senses {
    /// Whether a line from eye to eye ended at the target, and the share of it that was clear, in
    /// thousandths.
    pub hit: bool,
    pub fraction: u32,
    /// The view cone, and the angle of the target off its axis.
    pub fov: i64,
    pub off_axis: u32,
    /// The distance, and when the target may fire again.
    pub dist: u32,
    pub attack_finished: i64,
    pub reaction: i64,
    pub now: i64,
}

impl Senses {
    /// A clear line to the target.
    pub open spec fn los(self) -> bool {
        self.hit || self.fraction > CLEAR_FRACTION
    }

    /// Inside the view cone, where there is one.
    pub open spec fn in_fov(self) -> bool {
        self.fov <= 0 || 2 * self.off_axis <= self.fov
    }

    /// Firing within earshot.
    pub open spec fn heard(self) -> bool {
        self.dist < HEAR_RADIUS && self.attack_finished > self.now
    }

    pub fn has_los(&self) -> (r: bool)
        ensures
            r == self.los(),
    {
        self.hit || self.fraction > CLEAR_FRACTION
    }

    pub fn can_see(&self) -> (r: bool)
        ensures
            r == (self.los() && self.in_fov()),
    {
        self.has_los() && (self.fov <= 0 || 2 * (self.off_axis as i64) <= self.fov)
    }

    pub fn can_hear(&self) -> (r: bool)
        ensures
            r == self.heard(),
    {
        self.dist < HEAR_RADIUS && self.attack_finished > self.now
    }
}

/// The perception clocks after a frame.
pub open spec fn perceived(b: BotState, enemy: u32, s: Senses) -> BotState {
    let sees = s.los() && s.in_fov();
    let since = if b.percept_ent != enemy {
        s.now
    } else {
        b.percept_since
    };
    let noticed = if sees {
        s.now - since >= s.reaction
    } else {
        s.heard()
    };
    BotState {
        vis_since: if !s.los() {
            0
        } else if b.vis_since == 0 || b.percept_ent != enemy {
            s.now
        } else {
            b.vis_since
        },
        percept_ent: if sees {
            enemy
        } else if b.percept_ent == enemy {
            0
        } else {
            b.percept_ent
        },
        percept_since: if sees {
            since
        } else {
            b.percept_since
        },
        known_enemy: if noticed {
            enemy
        } else {
            b.known_enemy
        },
        known_until: if noticed {
            bounded(s.now + MEMORY)
        } else {
            b.known_until
        },
        ..b
    }
}

/// What the bot knows, given its clocks.
pub open spec fn knows(b: BotState, enemy: u32, s: Senses) -> Awareness {
    if !(b.known_enemy == enemy && s.now < b.known_until) {
        Awareness::Unaware
    } else if s.los() {
        Awareness::Visible
    } else {
        Awareness::Known
    }
}

/// Advance the clocks for one frame. The flag says whether the target's place is to be remembered.
pub fn perceive(bot: &mut BotState, enemy: u32, s: &Senses) -> (r: (Awareness, bool))
    ensures
        *final(bot) == perceived(*old(bot), enemy, *s),
        r.0 == knows(*final(bot), enemy, *s),
        r.1 == ((s.los() && s.in_fov()) || s.heard()),
{
    let los: bool = s.has_los();
    let can_see: bool = s.can_see();
    let heard: bool = s.can_hear();
    let same_target: bool = bot.percept_ent == enemy;
    if los {
        if bot.vis_since == 0 || !same_target {
            bot.vis_since = s.now;
        }
    } else {
        bot.vis_since = 0;
    }
    if can_see {
        if bot.percept_ent != enemy {
            bot.percept_ent = enemy;
            bot.percept_since = s.now;
        }
        if since(s.now, bot.percept_since) >= s.reaction as i128 {
            bot.known_enemy = enemy;
            bot.known_until = after(s.now, MEMORY);
        }
    } else {
        if bot.percept_ent == enemy {
            bot.percept_ent = 0;
        }
        if heard {
            bot.known_enemy = enemy;
            bot.known_until = after(s.now, MEMORY);
        }
    }
    let known: bool = bot.known_enemy == enemy && s.now < bot.known_until;
    let awareness = if !known {
        Awareness::Unaware
    } else if los {
        Awareness::Visible
    } else {
        Awareness::Known
    };
    (awareness, can_see || heard)
}

/// A bot that has just felt an attacker: it knows of it, seen or not.
pub open spec fn alarmed(b: BotState, attacker: u32, now: i64) -> BotState {
    BotState { known_enemy: attacker, known_until: bounded(now + MEMORY), ..b }
}

/// The "felt" channel: damage makes the attacker known.
pub fn feel(bot: &mut BotState, attacker: u32, now: i64)
    ensures
        *final(bot) == alarmed(*old(bot), attacker, now),
{
    bot.known_enemy = attacker;
    bot.known_until = after(now, MEMORY);
}

/// Whether a hurt target takes note of its attacker: a bot does of any other player.
pub open spec fn feels(targ: Entity, attacker: Entity, own: bool) -> bool {
    targ.bot.is_bot && !own && attacker.class() == Some("player"@)
}

/// The entities once a hurt target has taken note of its attacker.
#[verifier::opaque]
pub open spec fn alerted(ents: Seq<Entity>, targ: EntId, attacker: EntId, now: i64) -> Seq<Entity> {
    let t = ents[targ.0 as int];
    if feels(t, ents[attacker.0 as int], targ == attacker) {
        ents.update(targ.0 as int, Entity { bot: alarmed(t.bot, attacker.0, now), ..t })
    } else {
        ents
    }
}

impl GameState {
    /// A target is hurt: where it is a bot and another player did it, it knows who at once.
    pub fn felt(&mut self, targ: EntId, attacker: EntId, now: i64)
        requires
            old(self).holds(targ),
            old(self).holds(attacker),
        ensures
            final(self).entities@ == alerted(old(self).entities@, targ, attacker, now),
            *final(self) == (GameState { entities: final(self).entities, ..*old(self) }),
            feels(old(self).at(targ), old(self).at(attacker), targ == attacker) ==> final(self).at(targ).bot == alarmed(
                old(self).at(targ).bot,
                attacker.0,
                now,
            ),
            !feels(old(self).at(targ), old(self).at(attacker), targ == attacker) ==> *final(self) == *old(self),
    {
        reveal(alerted);
        if self.entities.slots[targ.0 as usize].bot.is_bot && targ != attacker
            && self.entities.slots[attacker.0 as usize].is_class("player") {
            feel(&mut self.entities.slots[targ.0 as usize].bot, attacker.0, now);
            assert(self.entities@ =~= alerted(old(self).entities@, targ, attacker, now));
        }
    }
}

/// A bot that is hurt knows its attacker in the very frame, whatever it sees or hears.
pub proof fn a_felt_attacker_is_known(b: BotState, attacker: u32, s: Senses)
    requires
        s.now < i64::MAX,
    ensures
        knows(perceived(alarmed(b, attacker, s.now), attacker, s), attacker, s) != Awareness::Unaware,
{
}

/// Without contact a known target is forgotten exactly when the memory runs out.
pub proof fn memory_fades(b: BotState, enemy: u32, s: Senses)
    requires
        !s.los(),
        !s.heard(),
        b.known_enemy == enemy,
    ensures
        knows(perceived(b, enemy, s), enemy, s) == if s.now < b.known_until {
            Awareness::Known
        } else {
            Awareness::Unaware
        },
{
}

/// A stranger that is neither heard nor felt is not acted on before the reaction beat is over.
pub proof fn no_instant_reaction(b: BotState, enemy: u32, s: Senses)
    requires
        b.known_enemy != enemy,
        b.percept_ent != enemy,
        s.reaction > 0,
        !(s.heard() && !(s.los() && s.in_fov())),
    ensures
        knows(perceived(b, enemy, s), enemy, s) == Awareness::Unaware,
{
}

/// A target seen for the whole reaction beat is known from then on.
pub proof fn a_watched_target_becomes_known(b: BotState, enemy: u32, s: Senses)
    requires
        s.los(),
        s.in_fov(),
        b.percept_ent == enemy,
        s.now - b.percept_since >= s.reaction,
        s.now < i64::MAX,
    ensures
        knows(perceived(b, enemy, s), enemy, s) == Awareness::Visible,
{
}

/// More skill never narrows the view nor slows the reaction.
pub proof fn skill_sharpens_the_senses(fov: int, base: int, less: int, more: int)
    requires
        0 <= less <= more <= 7000,
    ensures
        cone(fov, less) <= cone(fov, more),
        reaction(base, more) <= reaction(base, less),
{
    if base > 0 {
        assert(base * (8000 - more) / 8000 <= base * (8000 - less) / 8000) by (nonlinear_arith)
            requires
                base > 0,
                0 <= less <= more <= 7000,
        ;
    }
}

// --- what the senses promise ---
/// The view cone widens by four degrees for each step of skill up to the full circle; a width of
/// nothing sees all round.
pub proof fn cones_widen_with_skill(fov: int, skill: int)
    requires
        0 <= skill <= 7_000,
    ensures
        fov <= 0 ==> cone(fov, skill) == 0,
        fov > 0 && fov + 4 * skill <= 360_000 ==> cone(fov, skill) == fov + 4 * skill,
        fov > 0 && fov + 4 * skill > 360_000 ==> cone(fov, skill) == 360_000,
        fov == 90_000 ==> cone(fov, 7_000) == 118_000,
{
}

/// A reaction shortens with skill, by an eighth for each step, but not below a twentieth of a second.
pub proof fn reactions_shorten_with_skill(base: int, skill: int)
    requires
        0 <= skill <= 7_000,
    ensures
        base <= 0 ==> reaction(base, skill) == 0,
        base > 0 ==> reaction(base, skill) >= 50,
        base >= 50 ==> reaction(base, 0) == base,
        base >= 50 ==> reaction(base, skill) <= base,
        base >= 400 ==> 8_000 * reaction(base, skill) <= base * (8_000 - skill) < 8_000 * (reaction(base, skill) + 1),
        base == 800 ==> reaction(base, 4_000) == 400,
{
    let p = base * (8000 - skill);
    assert(base > 0 ==> p <= base * 8000) by (nonlinear_arith)
        requires
            p == base * (8000 - skill),
            skill >= 0,
    ;
    assert(base >= 400 ==> p >= 400_000) by (nonlinear_arith)
        requires
            p == base * (8000 - skill),
            skill <= 7000,
    ;
}

/// A target is in sight where the line to it ends at it or is clear for ninety-five hundredths; in view
/// within half the cone on either side; heard where it fires within a thousand units.
pub proof fn senses_have_their_reach(s: Senses)
    ensures
        s.los() <==> s.hit || s.fraction > 950,
        s.in_fov() <==> s.fov <= 0 || s.off_axis + s.off_axis <= s.fov,
        s.heard() <==> s.dist < 1_000_000 && s.attack_finished > s.now,
{
}

/// A target in sight and in view is noticed once it was watched for a reaction; one out of it is
/// noticed when it is heard; what was noticed is remembered for five seconds.
pub proof fn targets_are_noticed(b: BotState, enemy: u32, s: Senses)
    requires
        0 <= s.now <= i64::MAX - 5_000,
    ensures
        ({
            let p = perceived(b, enemy, s);
            let sees = s.los() && s.in_fov();
            let since = if b.percept_ent == enemy {
                b.percept_since
            } else {
                s.now
            };
            let noticed = (sees && s.now - since >= s.reaction) || (!sees && s.heard());
            &&& noticed ==> p.known_enemy == enemy && p.known_until == s.now + 5_000
            &&& !noticed ==> p.known_enemy == b.known_enemy && p.known_until == b.known_until
            &&& sees ==> p.percept_ent == enemy && p.percept_since == since
            &&& !sees && b.percept_ent == enemy ==> p.percept_ent == 0
            &&& !sees && b.percept_ent != enemy ==> p.percept_ent == b.percept_ent
            &&& !s.los() ==> p.vis_since == 0
            &&& s.los() && b.vis_since != 0 && b.percept_ent == enemy ==> p.vis_since == b.vis_since
            &&& s.los() && (b.vis_since == 0 || b.percept_ent != enemy) ==> p.vis_since == s.now
            &&& p.enemy_seen_time == b.enemy_seen_time && p.goal_item == b.goal_item
        }),
{
}

/// What is known of an enemy is known until its time is over.
pub proof fn knowledge_lasts(b: BotState, enemy: u32, s: Senses)
    ensures
        ({
            let k = knows(b, enemy, s);
            let known = b.known_enemy == enemy && s.now < b.known_until;
            &&& k == Awareness::Unaware <==> !known
            &&& k == Awareness::Visible <==> known && s.los()
            &&& k == Awareness::Known <==> known && !s.los()
        }),
{
}

/// A bot that is hurt by another player knows of it for five seconds; nobody else is told.
pub proof fn the_hurt_know_who_did_it(ents: Seq<Entity>, targ: EntId, attacker: EntId, now: i64, i: int)
    requires
        targ.0 < ents.len(),
        0 <= now <= i64::MAX - 5_000,
        0 <= i < ents.len(),
    ensures
        ({
            let after = alerted(ents, targ, attacker, now);
            let told = ents[targ.0 as int].bot.is_bot && targ != attacker && ents[attacker.0 as int].class() == Some(
                "player"@,
            );
            &&& after.len() == ents.len()
            &&& i == targ.0 && told ==> after[i].bot.known_enemy == attacker.0 && after[i].bot.known_until == now + 5_000
            &&& i != targ.0 || !told ==> after[i] == ents[i]
            &&& after[i].v == ents[i].v && after[i].combat == ents[i].combat
        }),
{
    reveal(alerted);
}

} // verus!
