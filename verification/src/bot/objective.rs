//! What a bot pursues this frame: the mode's intent, weighed against what the bot has perceived and
//! the item it is fetching.
use crate::bot::hook::GOAL_AVOID_TIME;
use crate::bot::perception::{knows, perceive, perceived, Awareness, Senses};
use crate::bot::state::{marked, BotState, HookPhase, RjPhase};
use crate::num::{after, bounded, since};
use vstd::prelude::*;

verus! {

/// Least time between choices of an item to fetch.
pub const GOAL_SELECT_INTERVAL: i64 = 1500;

/// How long an ordinary item is pursued before it is given up.
pub const GOAL_GIVEUP_TIME: i64 = 10000;

/// How long a wander destination is kept, and how near it counts as reached.
pub const WANDER_TIME: i64 = 5000;

pub const WANDER_REACH: u32 = 64000;

/// Where a move leads.
#[derive(Clone, Copy, PartialEq, Eq, Debug, Structural)]
pub enum MoveTo {
    /// A stroll, for a bot without a seat in the match.
    Wander,
    /// The nearest human.
    Human,
    /// A place the mode named.
    Place,
}

/// What the mode, or an override of it, asks of the bot.
#[derive(Clone, Copy, PartialEq, Eq, Debug, Structural)]
pub enum Intent {
    Nil,
    Fight(u32),
    Move(MoveTo),
    /// Walk to a place with the eyes on someone.
    Spectate(u32),
}

/// Where the bot is headed.
#[derive(Clone, Copy, PartialEq, Eq, Debug, Structural)]
pub enum Target {
    /// The post from which an item is watched.
    Vigil,
    Item,
    Enemy(u32),
    /// Where the enemy was last seen.
    LastSeen,
    Wander,
    Human,
    Place,
    /// A random reachable place.
    Roam,
}

/// The resolved objective.
#[derive(Clone, Copy, PartialEq, Eq, Debug, Structural)]
pub struct Objective {
    pub enemy: Option<u32>,
    /// Fetching an item.
    pub chasing: bool,
    /// Stop short of the destination.
    pub polite: bool,
    pub target: Target,
    /// The cell of the item, where one is the target.
    pub item_cell: Option<u32>,
    /// Whom to keep the eyes on.
    pub watch: Option<u32>,
}

/// The intent for a bot: without a seat it strolls, a pacifist server makes it follow people, and
/// otherwise the mode decides.
pub open spec fn asked(benched: bool, pacifist: bool, human: bool, mode: Intent) -> Intent {
    if benched {
        Intent::Move(MoveTo::Wander)
    } else if pacifist {
        if human {
            Intent::Move(MoveTo::Human)
        } else {
            Intent::Nil
        }
    } else {
        mode
    }
}

/// Choose the intent. The flag says whether the bot tails people by order.
pub fn choose_intent(benched: bool, pacifist: bool, human: bool, mode: Intent) -> (r: (Intent, bool))
    ensures
        r.0 == asked(benched, pacifist, human, mode),
        r.1 == (pacifist && !benched),
{
    if benched {
        (Intent::Move(MoveTo::Wander), false)
    } else if pacifist {
        if human {
            (Intent::Move(MoveTo::Human), true)
        } else {
            (Intent::Nil, true)
        }
    } else {
        (mode, false)
    }
}

/// The intent once perception had its say: a target the bot is unaware of is no target.
pub open spec fn acted_on(intent: Intent, a: Awareness) -> Intent {
    match intent {
        Intent::Fight(_) if a == Awareness::Unaware => Intent::Nil,
        _ => intent,
    }
}

/// The state after perception: a fight advances the clocks, anything else ends the sight clock.
pub open spec fn looked(b: BotState, intent: Intent, s: Senses) -> BotState {
    match intent {
        Intent::Fight(enemy) => perceived(b, enemy, s),
        _ => BotState { vis_since: 0, ..b },
    }
}

pub open spec fn awareness_of(b: BotState, intent: Intent, s: Senses) -> Awareness {
    match intent {
        Intent::Fight(enemy) => knows(looked(b, intent, s), enemy, s),
        _ => Awareness::Unaware,
    }
}

pub open spec fn chosen_target(intent: Intent, chasing: bool, vigil: bool, hunting: bool, human: bool) -> Target {
    let item = if vigil {
        Target::Vigil
    } else {
        Target::Item
    };
    match intent {
        Intent::Fight(enemy) => if chasing {
            item
        } else if hunting {
            Target::LastSeen
        } else {
            Target::Enemy(enemy)
        },
        Intent::Move(MoveTo::Wander) => Target::Wander,
        Intent::Move(MoveTo::Human) => Target::Human,
        Intent::Move(MoveTo::Place) => Target::Place,
        Intent::Spectate(_) => Target::Place,
        Intent::Nil => if chasing {
            item
        } else if human {
            Target::Human
        } else {
            Target::Roam
        },
    }
}

/// The objective of an intent. A bot that tails a human by order stops short of it as one does that
/// has nothing better to do.
pub open spec fn resolved(
    b: BotState,
    intent: Intent,
    tailing: bool,
    vigil: bool,
    hunting: bool,
    human: bool,
) -> Objective {
    let chasing = b.goal_item != 0;
    let target = chosen_target(intent, chasing, vigil, hunting, human);
    Objective {
        enemy: match intent {
            Intent::Fight(en) => Some(en),
            _ => None,
        },
        chasing,
        polite: tailing || (intent == Intent::Nil && !chasing),
        target,
        item_cell: if target == Target::Item {
            Some(b.goal_item_cell)
        } else {
            None
        },
        watch: match intent {
            Intent::Spectate(who) => Some(who),
            _ => None,
        },
    }
}

/// The state after the goal watchdog: an item chased for longer than `leash`, outside a gate
/// errand, is dropped and left alone for a while.
pub open spec fn leashed(b: BotState, leash: i64, now: i64, after: BotState) -> bool {
    if b.goal_item != 0 && b.gate is None && now - b.goal_started > leash {
        &&& after == (BotState { goal_item: 0, goal_select_time: now, avoid_items: after.avoid_items, ..b })
        &&& marked(b.avoid_items@, b.goal_item, bounded(now + GOAL_AVOID_TIME), after.avoid_items@)
    } else {
        after == b
    }
}

impl BotState {
    /// A hook without a grapple and a rocket jump without a rocket are over. The flag says whether
    /// a hook that is out must be recalled.
    pub fn settle_traversals(&mut self, has_grapple: bool, hook_out: bool, has_rl: bool, rockets: i32) -> (reset: bool)
        ensures
            ({
                let unhook = old(self).hook_phase != HookPhase::Idle && !has_grapple;
                let unjump = old(self).rj_phase != RjPhase::Idle && (!has_rl || rockets < 1);
                &&& reset == (unhook && hook_out)
                &&& *final(self) == (BotState {
                    hook_phase: if unhook {
                        HookPhase::Idle
                    } else {
                        old(self).hook_phase
                    },
                    hook_fails: if unhook {
                        0
                    } else {
                        old(self).hook_fails
                    },
                    rj_phase: if unjump {
                        RjPhase::Idle
                    } else {
                        old(self).rj_phase
                    },
                    rj_fails: if unjump {
                        0
                    } else {
                        old(self).rj_fails
                    },
                    ..*old(self)
                })
            }),
    {
        let mut reset: bool = false;
        if self.hook_phase != HookPhase::Idle && !has_grapple {
            reset = hook_out;
            self.hook_phase = HookPhase::Idle;
            self.hook_fails = 0;
        }
        if self.rj_phase != RjPhase::Idle && (!has_rl || rockets < 1) {
            self.rj_phase = RjPhase::Idle;
            self.rj_fails = 0;
        }
        reset
    }

    /// Hold the intent against what the bot perceives. The flags say whether to hunt the place the
    /// enemy was last seen at, and whether to remember where it is now.
    pub fn weigh_intent(&mut self, intent: Intent, s: &Senses) -> (r: (Intent, bool, bool))
        ensures
            *final(self) == looked(*old(self), intent, *s),
            r.0 == acted_on(intent, awareness_of(*old(self), intent, *s)),
            r.1 == (awareness_of(*old(self), intent, *s) == Awareness::Known),
            r.2 == (intent is Fight && ((s.los() && s.in_fov()) || s.heard())),
    {
        match intent {
            Intent::Fight(enemy) => {
                let (awareness, remember) = perceive(self, enemy, s);
                match awareness {
                    Awareness::Unaware => (Intent::Nil, false, remember),
                    Awareness::Known => (intent, true, remember),
                    Awareness::Visible => (intent, false, remember),
                }
            },
            _ => {
                self.vis_since = 0;
                (intent, false, false)
            },
        }
    }

    /// Whether to choose an item now: idle, or greedy in a fight, not holding one for a teammate,
    /// and no sooner than the interval allows.
    pub fn goal_due(&self, holding: bool, idle: bool, greedy: bool, now: i64) -> (r: bool)
        ensures
            r == chooses(*self, holding, idle, greedy, now),
            r == (!holding && (idle || greedy) && now >= self.goal_select_time),
    {
        !holding && (idle || greedy) && now >= self.goal_select_time
    }

    /// Take the choice of an item and its cell; none clears the goal. A new item restarts the
    /// watchdog.
    pub fn take_goal(&mut self, pick: Option<(u32, u32)>, now: i64)
        ensures
            *final(self) == goal_taken(*old(self), pick, now),
            ({
                let (item, cell) = match pick {
                    Some(p) => p,
                    None => (0u32, 0u32),
                };
                *final(self) == (BotState {
                    goal_started: if item != old(self).goal_item {
                        now
                    } else {
                        old(self).goal_started
                    },
                    goal_item: item,
                    goal_item_cell: cell,
                    goal_select_time: bounded(now + GOAL_SELECT_INTERVAL),
                    ..*old(self)
                })
            }),
    {
        let (item, cell): (u32, u32) = match pick {
            Some(p) => p,
            None => (0, 0),
        };
        if item != self.goal_item {
            self.goal_started = now;
        }
        self.goal_item = item;
        self.goal_item_cell = cell;
        self.goal_select_time = after(now, GOAL_SELECT_INTERVAL);
    }

    /// Drop a goal that is no longer worth it, or that the intent supersedes.
    pub fn settle_goal(&mut self, holding: bool, idle: bool, greedy: bool, valid: bool, now: i64)
        ensures
            *final(self) == goal_settled(*old(self), holding, idle, greedy, valid, now),
            ({
                let stale = !holding && (idle || greedy) && old(self).goal_item != 0 && !valid;
                let moved_on = !holding && !idle && !greedy;
                *final(self) == (BotState {
                    goal_item: if stale || moved_on {
                        0
                    } else {
                        old(self).goal_item
                    },
                    goal_select_time: if stale {
                        now
                    } else {
                        old(self).goal_select_time
                    },
                    ..*old(self)
                })
            }),
    {
        if holding {
            return;
        }
        if idle || greedy {
            if self.goal_item != 0 && !valid {
                self.goal_item = 0;
                self.goal_select_time = now;
            }
        } else {
            self.goal_item = 0;
        }
    }

    /// Settle on where to go, and let go of an item that was chased for too long.
    pub fn resolve_objective(
        &mut self,
        intent: Intent,
        tailing: bool,
        vigil: bool,
        hunting: bool,
        human: bool,
        leash: i64,
        now: i64,
    ) -> (r: Objective)
        ensures
            r == resolved(*old(self), intent, tailing, vigil, hunting, human),
            leashed(*old(self), leash, now, *final(self)),
    {
        let chasing: bool = self.goal_item != 0;
        let idle: bool = match intent {
            Intent::Nil => true,
            _ => false,
        };
        let item = if vigil {
            Target::Vigil
        } else {
            Target::Item
        };
        let target = match intent {
            Intent::Fight(enemy) => if chasing {
                item
            } else if hunting {
                Target::LastSeen
            } else {
                Target::Enemy(enemy)
            },
            Intent::Move(MoveTo::Wander) => Target::Wander,
            Intent::Move(MoveTo::Human) => Target::Human,
            Intent::Move(MoveTo::Place) => Target::Place,
            Intent::Spectate(_) => Target::Place,
            Intent::Nil => if chasing {
                item
            } else if human {
                Target::Human
            } else {
                Target::Roam
            },
        };
        let item_cell: Option<u32> = match target {
            Target::Item => Some(self.goal_item_cell),
            _ => None,
        };
        if chasing && self.gate.is_none() && since(now, self.goal_started) > leash as i128 {
            let given_up: u32 = self.goal_item;
            self.mark_avoid(given_up, after(now, GOAL_AVOID_TIME));
            self.goal_item = 0;
            self.goal_select_time = now;
        }
        Objective {
            enemy: match intent {
                Intent::Fight(en) => Some(en),
                _ => None,
            },
            chasing,
            polite: tailing || (idle && !chasing),
            target,
            item_cell,
            watch: match intent {
                Intent::Spectate(who) => Some(who),
                _ => None,
            },
        }
    }

    /// Whether a new wander destination is needed: there is none, it was reached, or it is old. The
    /// distance is the horizontal one to the destination, where there is one.
    pub fn roam_due(&self, dist: Option<u32>, now: i64) -> (r: bool)
        ensures
            r == roams(*self, dist, now),
            r == !(dist matches Some(d) && d >= WANDER_REACH && now < self.wander_time),
    {
        match dist {
            Some(d) => !(d >= WANDER_REACH && now < self.wander_time),
            None => true,
        }
    }

    /// Take a wander destination: the cell that a random fraction of 2^24 falls on. On a map without
    /// cells the bot stays.
    pub fn roam_target(&mut self, fraction: u32, cells: u32, now: i64) -> (r: Option<u32>)
        requires
            fraction < 0x100_0000,
        ensures
            cells == 0 ==> r is None && *final(self) == *old(self),
            cells > 0 ==> r == Some((fraction * cells / 0x100_0000) as u32) && fraction * cells / 0x100_0000 < cells
                && *final(self) == (BotState { wander_time: bounded(now + WANDER_TIME), ..*old(self) }),
    {
        if cells == 0 {
            return None;
        }
        self.wander_time = after(now, WANDER_TIME);
        assert(fraction * cells < 0x100_0000 * cells) by (nonlinear_arith)
            requires
                fraction < 0x100_0000,
                cells > 0,
        ;
        assert(0 <= fraction * cells) by (nonlinear_arith);
        let scaled: u64 = fraction as u64 * cells as u64;
        Some((scaled / 0x100_0000) as u32)
    }
}

/// A bot fights only what it knows of.
pub proof fn no_fight_without_awareness(b: BotState, intent: Intent, s: Senses)
    requires
        acted_on(intent, awareness_of(b, intent, s)) is Fight,
    ensures
        awareness_of(b, intent, s) != Awareness::Unaware,
{
}

/// A bot never beelines to the live place of an enemy it cannot see.
pub proof fn unseen_enemies_are_hunted_where_last_seen(
    b: BotState,
    intent: Intent,
    s: Senses,
    vigil: bool,
    human: bool,
    chasing: bool,
    enemy: u32,
)
    requires
        !s.los(),
    ensures
        ({
            let a = awareness_of(b, intent, s);
            chosen_target(acted_on(intent, a), chasing, vigil, a == Awareness::Known, human) != Target::Enemy(enemy)
        }),
{
}

/// Following is polite, an errand is not: a bot stops short only where it tails or roams.
pub proof fn politeness_is_for_company(
    b: BotState,
    intent: Intent,
    vigil: bool,
    hunting: bool,
    human: bool,
)
    ensures
        ({
            let o = resolved(b, intent, false, vigil, hunting, human);
            o.polite ==> (o.target == Target::Human || o.target == Target::Roam) && o.enemy is None && !o.chasing
        }),
{
}

// --- what an objective promises ---
/// Who has no seat wanders; who does not fight follows a person or is left alone; the rest do as the
/// mode says.
pub proof fn modes_decide_for_those_who_play(benched: bool, pacifist: bool, human: bool, mode: Intent)
    ensures
        benched ==> asked(benched, pacifist, human, mode) == Intent::Move(MoveTo::Wander),
        !benched && pacifist && human ==> asked(benched, pacifist, human, mode) == Intent::Move(MoveTo::Human),
        !benched && pacifist && !human ==> asked(benched, pacifist, human, mode) == Intent::Nil,
        !benched && !pacifist ==> asked(benched, pacifist, human, mode) == mode,
{
}

/// A fight is dropped exactly where the bot knows nothing of the enemy; nothing else is.
pub proof fn unaware_bots_do_not_fight(intent: Intent, a: Awareness)
    ensures
        intent is Fight && a == Awareness::Unaware ==> acted_on(intent, a) == Intent::Nil,
        !(intent is Fight) || a != Awareness::Unaware ==> acted_on(intent, a) == intent,
{
}

/// Only the one who is fought is looked for; else the sight of the last one is forgotten.
pub proof fn eyes_are_on_the_enemy(b: BotState, intent: Intent, s: Senses)
    ensures
        intent matches Intent::Fight(enemy) ==> looked(b, intent, s) == perceived(b, enemy, s) && awareness_of(b, intent, s)
            == knows(perceived(b, enemy, s), enemy, s),
        !(intent is Fight) ==> looked(b, intent, s) == (BotState { vis_since: 0, ..b }) && awareness_of(b, intent, s)
            == Awareness::Unaware,
{
}

/// An item on the way comes before the fight and before idling, and its post before the item; an enemy
/// out of sight is hunted where it was last seen; who idles follows a person, or roams.
pub proof fn items_come_before_fights(intent: Intent, chasing: bool, vigil: bool, hunting: bool, human: bool)
    ensures
        ({
            let t = chosen_target(intent, chasing, vigil, hunting, human);
            let free = intent is Fight || intent == Intent::Nil;
            &&& free && chasing && vigil ==> t == Target::Vigil
            &&& free && chasing && !vigil ==> t == Target::Item
            &&& intent is Fight && !chasing && !hunting ==> t == Target::Enemy(intent->Fight_0)
            &&& intent is Fight && !chasing && hunting ==> t == Target::LastSeen
            &&& intent == Intent::Nil && !chasing && human ==> t == Target::Human
            &&& intent == Intent::Nil && !chasing && !human ==> t == Target::Roam
            &&& intent == Intent::Move(MoveTo::Wander) ==> t == Target::Wander
            &&& intent == Intent::Move(MoveTo::Human) ==> t == Target::Human
            &&& intent == Intent::Move(MoveTo::Place) || intent is Spectate ==> t == Target::Place
        }),
{
}

/// What the rest of the frame is told: whom to fight, what is fetched and where it lies, whom to watch,
/// and whether to keep a distance.
pub proof fn objectives_are_told(b: BotState, intent: Intent, tailing: bool, vigil: bool, hunting: bool, human: bool)
    ensures
        ({
            let o = resolved(b, intent, tailing, vigil, hunting, human);
            &&& o.chasing <==> b.goal_item != 0
            &&& o.target == chosen_target(intent, b.goal_item != 0, vigil, hunting, human)
            &&& intent is Fight ==> o.enemy == Some(intent->Fight_0)
            &&& !(intent is Fight) ==> o.enemy is None
            &&& intent is Spectate ==> o.watch == Some(intent->Spectate_0)
            &&& !(intent is Spectate) ==> o.watch is None
            &&& o.target == Target::Item ==> o.item_cell == Some(b.goal_item_cell)
            &&& o.target != Target::Item ==> o.item_cell is None
            &&& o.polite <==> tailing || (intent == Intent::Nil && b.goal_item == 0)
        }),
{
}

/// An item that is not reached within its leash is given up, and avoided for twelve seconds; an errand
/// at a gate stops the clock.
pub proof fn goals_have_a_leash(b: BotState, leash: i64, now: i64, after: BotState)
    requires
        leashed(b, leash, now, after),
        0 <= now <= i64::MAX - 12_000,
    ensures
        ({
            let late = b.goal_item != 0 && b.gate is None && now - b.goal_started > leash;
            &&& late ==> after.goal_item == 0 && after.goal_select_time == now && marked(
                b.avoid_items@,
                b.goal_item,
                (now + 12_000) as i64,
                after.avoid_items@,
            )
            &&& !late ==> after == b
        }),
{
}

/// The measures of a goal: one is chosen at most every second and a half and given up after ten; a
/// stroll lasts five seconds, or until sixty-four units before its end.
pub proof fn goals_have_their_measures()
    ensures
        GOAL_SELECT_INTERVAL == 1_500 && GOAL_GIVEUP_TIME == 10_000,
        WANDER_TIME == 5_000 && WANDER_REACH == 64_000,
{
}

/// Whether an item is chosen now.
pub open spec fn chooses(b: BotState, holding: bool, idle: bool, greedy: bool, now: i64) -> bool {
    !holding && (idle || greedy) && now >= b.goal_select_time
}

/// The state after a choice.
pub open spec fn goal_taken(b: BotState, pick: Option<(u32, u32)>, now: i64) -> BotState {
    let (item, cell) = match pick {
        Some(p) => p,
        None => (0u32, 0u32),
    };
    BotState {
        goal_started: if item != b.goal_item {
            now
        } else {
            b.goal_started
        },
        goal_item: item,
        goal_item_cell: cell,
        goal_select_time: bounded(now + GOAL_SELECT_INTERVAL),
        ..b
    }
}

/// The state after a goal was looked at again.
pub open spec fn goal_settled(b: BotState, holding: bool, idle: bool, greedy: bool, valid: bool, now: i64) -> BotState {
    let stale = !holding && (idle || greedy) && b.goal_item != 0 && !valid;
    let moved_on = !holding && !idle && !greedy;
    BotState {
        goal_item: if stale || moved_on {
            0
        } else {
            b.goal_item
        },
        goal_select_time: if stale {
            now
        } else {
            b.goal_select_time
        },
        ..b
    }
}

/// Whether a new stroll is due.
pub open spec fn roams(b: BotState, dist: Option<u32>, now: i64) -> bool {
    !(dist matches Some(d) && d >= WANDER_REACH && now < b.wander_time)
}

/// An item is chosen by the idle and the greedy, a second and a half apart, and by nobody who holds one
/// for another; the clock of a goal starts over only for another item.
pub proof fn goals_are_chosen_in_turn(b: BotState, holding: bool, idle: bool, greedy: bool, item: u32, cell: u32, now: i64)
    requires
        0 <= now <= i64::MAX - 1_500,
    ensures
        chooses(b, holding, idle, greedy, now) <==> !holding && (idle || greedy) && b.goal_select_time <= now,
        ({
            let t = goal_taken(b, Some((item, cell)), now);
            &&& t.goal_item == item && t.goal_item_cell == cell && t.goal_select_time == now + 1_500
            &&& item == b.goal_item ==> t.goal_started == b.goal_started
            &&& item != b.goal_item ==> t.goal_started == now
            &&& goal_taken(b, None, now).goal_item == 0
            &&& !chooses(t, holding, idle, greedy, now)
        }),
{
}

/// A goal is kept while it is worth it. One that is not is dropped and another chosen at once; one that
/// the intent supersedes is dropped; one that is held for a teammate stays.
pub proof fn goals_are_kept_while_worth_it(b: BotState, holding: bool, idle: bool, greedy: bool, valid: bool, now: i64)
    ensures
        ({
            let s = goal_settled(b, holding, idle, greedy, valid, now);
            &&& holding ==> s == b
            &&& !holding && !idle && !greedy ==> s.goal_item == 0 && s.goal_select_time == b.goal_select_time
            &&& !holding && (idle || greedy) && valid ==> s == b
            &&& !holding && (idle || greedy) && !valid && b.goal_item != 0 ==> s.goal_item == 0 && s.goal_select_time == now
            &&& s.route == b.route && s.goal_started == b.goal_started
        }),
{
}

/// A stroll goes on until sixty-four units before its end, or until its time is over.
pub proof fn strolls_have_an_end(b: BotState, d: u32, now: i64)
    ensures
        roams(b, None, now),
        roams(b, Some(d), now) <==> d < 64_000 || now >= b.wander_time,
{
}

} // verus!
