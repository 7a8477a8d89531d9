//! The game as a whole: the entity array, the level's rules, and what each engine command does.
use crate::abi::{EntVars, ENTITY_STRIDE, SHARED_FIELDS_SIZE, STRING_CELL_SIZE, STRING_REF_COUNT, STRING_REF_WEAPONMODEL};
use crate::defs::Solid;
use crate::entity::{CombatState, EntId, Entities, Entity, Think};
use crate::game_command::GameCommand;
use vstd::prelude::*;

verus! {

/// The engine's limit on entities.
pub const MAX_EDICTS: usize = 2048;

/// The version of the engine interface this module speaks.
pub const GAME_API_VERSION: i32 = 16;

/// State of the generator before a seed is known.
pub const DEFAULT_SEED: u32 = 0x2545_f491;

/// Rules of the running level.
#[derive(Clone, Copy, PartialEq, Eq, Debug, Structural)]
pub struct Level {
    pub framecount: i32,
    pub deathmatch: i32,
    pub teamplay: i32,
    pub timelimit: i32,
    pub fraglimit: i32,
    pub skill: i32,
    /// Model numbers of the player and of the eyes an invisible player shows.
    pub modelindex_player: i32,
    pub modelindex_eyes: i32,
    /// Theme of the map: medieval, runic or base.
    pub worldtype: i32,
}

pub struct GameState {
    pub entities: Entities,
    pub level: Level,
    /// The engine's current entity and the other party of a callback, as byte offsets.
    pub self_: i32,
    pub other: i32,
    /// Who set off a target, who dealt damage, and with what.
    pub activator: EntId,
    pub damage_attacker: EntId,
    pub damage_inflictor: EntId,
    pub intermission_running: bool,
    pub intermission_exit_time: i64,
    /// State of the random generator.
    pub rng: u32,
}

/// What an engine command asks for.
#[derive(Clone, Copy, PartialEq, Eq, Debug, Structural)]
pub enum GameAction {
    /// Nothing further.
    Nothing,
    /// Start up, with this seed.
    Init(i32),
    LoadEntities,
    /// Begin a frame: one that runs bots alone, or one of the whole server.
    StartFrame(bool),
    ClientConnect(EntId),
    PutClientInServer(EntId),
    ClientDisconnect(EntId),
    PlayerPreThink(EntId),
    PlayerPostThink(EntId),
    SpectatorConnect(EntId),
    PutSpectatorInServer(EntId),
    SpectatorDisconnect(EntId),
    SpectatorThink(EntId),
    SetNewParms,
    SetChangeParms(EntId),
    RunThink(EntId),
    RunTouch(EntId, EntId),
    RunBlocked(EntId, EntId),
    ClientCommand(EntId),
}

/// What the engine is told in return: a number, or whatever the action yields.
#[derive(Clone, Copy, PartialEq, Eq, Debug, Structural)]
pub enum Answer {
    Number(i32),
    OfAction,
}

/// Whether a command of a client is played by someone who only watches.
pub open spec fn is_spectator(arg0: i32) -> bool {
    arg0 != 0
}

/// The action of a command whose current entity is `this` and whose other party is `other`.
pub open spec fn action_of(cmd: GameCommand, arg0: i32, arg1: i32, this: EntId, other: EntId) -> GameAction {
    match cmd {
        GameCommand::Init => GameAction::Init(arg1),
        GameCommand::LoadEntities => GameAction::LoadEntities,
        GameCommand::StartFrame => GameAction::StartFrame(arg1 != 0),
        GameCommand::ClientConnect => if is_spectator(arg0) {
            GameAction::SpectatorConnect(this)
        } else {
            GameAction::ClientConnect(this)
        },
        GameCommand::PutClientInServer => if is_spectator(arg0) {
            GameAction::PutSpectatorInServer(this)
        } else {
            GameAction::PutClientInServer(this)
        },
        GameCommand::ClientDisconnect => if is_spectator(arg0) {
            GameAction::SpectatorDisconnect(this)
        } else {
            GameAction::ClientDisconnect(this)
        },
        GameCommand::ClientPreThink => if is_spectator(arg0) {
            GameAction::Nothing
        } else {
            GameAction::PlayerPreThink(this)
        },
        GameCommand::ClientPostThink => if is_spectator(arg0) {
            GameAction::SpectatorThink(this)
        } else {
            GameAction::PlayerPostThink(this)
        },
        GameCommand::SetNewParams => GameAction::SetNewParms,
        GameCommand::SetChangeParams => GameAction::SetChangeParms(this),
        GameCommand::EdictThink => GameAction::RunThink(this),
        GameCommand::EdictTouch => GameAction::RunTouch(this, other),
        GameCommand::EdictBlocked => GameAction::RunBlocked(this, other),
        GameCommand::ClientCommand => GameAction::ClientCommand(this),
        _ => GameAction::Nothing,
    }
}

/// What the engine is told for a command.
pub open spec fn answer_of(cmd: GameCommand) -> Answer {
    match cmd {
        GameCommand::Init | GameCommand::LoadEntities | GameCommand::ClientCommand => Answer::OfAction,
        GameCommand::Shutdown | GameCommand::ClearEdict | GameCommand::ClientUserInfoChanged
        | GameCommand::ConsoleCommand | GameCommand::PausedTic => Answer::Number(0),
        _ => Answer::Number(1),
    }
}

/// The entity that a byte offset refers to.
pub open spec fn entity_at(prog: i32) -> EntId {
    EntId(((prog as int / ENTITY_STRIDE as int) % 0x1_0000_0000) as u32)
}

/// The byte offset, in the whole array, of string cell `i` of entity `id`.
pub open spec fn string_cell(id: int, i: int) -> int {
    id * ENTITY_STRIDE + SHARED_FIELDS_SIZE + i * STRING_CELL_SIZE
}

/// `after` is `before` with its string cells emptied and every string field pointing at its cell.
pub open spec fn strings_linked(before: Entity, after: Entity, id: int) -> bool {
    &&& after.string_refs@ == Seq::new(STRING_REF_COUNT as nat, |i: int| 0u64)
    &&& after.v.string_fields().len() == STRING_REF_COUNT
    &&& forall|i: int|
        0 <= i < STRING_REF_COUNT ==> #[trigger] after.v.string_fields()[i] == string_cell(id, i)
    &&& after == (Entity {
        string_refs: after.string_refs,
        v: before.v.with_string_fields(after.v.string_fields()),
        ..before
    })
}

/// Every entity whose cells' offsets fit in 32 bits.
pub open spec fn linkable(id: EntId, count: nat) -> bool {
    id.0 < count && string_cell(id.0 as int, STRING_REF_COUNT as int) <= i32::MAX
}

/// One step of the random generator.
pub open spec fn xorshift(x: u32) -> u32 {
    let a: u32 = x ^ (x << 13u32);
    let b: u32 = a ^ (a >> 17u32);
    b ^ (b << 5u32)
}

/// The number a generator draws next, as a fraction of 2^24.
pub open spec fn drawn(rng: u32) -> u32 {
    xorshift(rng) >> 8u32
}

impl GameState {
    pub open spec fn this(self) -> EntId {
        entity_at(self.self_)
    }

    pub fn new() -> (g: GameState)
        ensures
            g.entities@.len() == MAX_EDICTS,
            forall|i: int| 0 <= i < MAX_EDICTS ==> (#[trigger] g.entities@[i]).is_cleared(),
            g.level == (Level {
                framecount: 0,
                deathmatch: 0,
                teamplay: 0,
                timelimit: 0,
                fraglimit: 0,
                skill: 0,
                modelindex_player: 0,
                modelindex_eyes: 0,
                worldtype: 0,
            }),
            g.self_ == 0,
            g.other == 0,
            g.activator.0 == 0,
            g.damage_attacker.0 == 0,
            g.damage_inflictor.0 == 0,
            !g.intermission_running,
            g.intermission_exit_time == 0,
            g.rng == DEFAULT_SEED,
    {
        GameState {
            entities: Entities::new(MAX_EDICTS),
            level: Level {
                framecount: 0,
                deathmatch: 0,
                teamplay: 0,
                timelimit: 0,
                fraglimit: 0,
                skill: 0,
                modelindex_player: 0,
                modelindex_eyes: 0,
                worldtype: 0,
            },
            self_: 0,
            other: 0,
            activator: EntId(0),
            damage_attacker: EntId(0),
            damage_inflictor: EntId(0),
            intermission_running: false,
            intermission_exit_time: 0,
            rng: DEFAULT_SEED,
        }
    }

    /// Decide what an engine command asks for and what the engine is told. Clearing an entity is
    /// done at once: its string fields are linked anew.
    pub fn dispatch(&mut self, cmd: GameCommand, arg0: i32, arg1: i32) -> (r: (GameAction, Answer))
        requires
            cmd == GameCommand::ClearEdict ==> linkable(old(self).this(), old(self).entities@.len()),
        ensures
            r.0 == action_of(cmd, arg0, arg1, old(self).this(), entity_at(old(self).other)),
            r.1 == answer_of(cmd),
            cmd != GameCommand::ClearEdict ==> *final(self) == *old(self),
            cmd == GameCommand::ClearEdict ==> {
                let id = old(self).this().0 as int;
                &&& *final(self) == (GameState { entities: final(self).entities, ..*old(self) })
                &&& final(self).entities@ == old(self).entities@.update(id, final(self).entities@[id])
                &&& strings_linked(old(self).entities@[id], final(self).entities@[id], id)
            },
    {
        let this: EntId = EntId::from_prog(self.self_);
        let spectator: bool = arg0 != 0;
        match cmd {
            GameCommand::Init => (GameAction::Init(arg1), Answer::OfAction),
            GameCommand::LoadEntities => (GameAction::LoadEntities, Answer::OfAction),
            GameCommand::StartFrame => (GameAction::StartFrame(arg1 != 0), Answer::Number(1)),
            GameCommand::Shutdown => (GameAction::Nothing, Answer::Number(0)),
            GameCommand::ClientConnect if !spectator => (GameAction::ClientConnect(this), Answer::Number(1)),
            GameCommand::PutClientInServer if !spectator => {
                (GameAction::PutClientInServer(this), Answer::Number(1))
            },
            GameCommand::ClientDisconnect if !spectator => {
                (GameAction::ClientDisconnect(this), Answer::Number(1))
            },
            GameCommand::ClientPreThink if !spectator => (GameAction::PlayerPreThink(this), Answer::Number(1)),
            GameCommand::ClientPostThink if !spectator => (GameAction::PlayerPostThink(this), Answer::Number(1)),
            GameCommand::SetNewParams => (GameAction::SetNewParms, Answer::Number(1)),
            GameCommand::SetChangeParams => (GameAction::SetChangeParms(this), Answer::Number(1)),
            GameCommand::EdictThink => (GameAction::RunThink(this), Answer::Number(1)),
            GameCommand::EdictTouch => {
                let other: EntId = EntId::from_prog(self.other);
                (GameAction::RunTouch(this, other), Answer::Number(1))
            },
            GameCommand::EdictBlocked => {
                let other: EntId = EntId::from_prog(self.other);
                (GameAction::RunBlocked(this, other), Answer::Number(1))
            },
            GameCommand::ClientConnect => (GameAction::SpectatorConnect(this), Answer::Number(1)),
            GameCommand::PutClientInServer => (GameAction::PutSpectatorInServer(this), Answer::Number(1)),
            GameCommand::ClientDisconnect => (GameAction::SpectatorDisconnect(this), Answer::Number(1)),
            GameCommand::ClientPostThink => (GameAction::SpectatorThink(this), Answer::Number(1)),
            GameCommand::ClientPreThink | GameCommand::ClientThink => (GameAction::Nothing, Answer::Number(1)),
            GameCommand::ClientCommand => (GameAction::ClientCommand(this), Answer::OfAction),
            GameCommand::ClientSay => (GameAction::Nothing, Answer::Number(1)),
            GameCommand::ClearEdict => {
                self.setup_string_refs(this);
                (GameAction::Nothing, Answer::Number(0))
            },
            GameCommand::ClientUserInfoChanged | GameCommand::ConsoleCommand | GameCommand::PausedTic => {
                (GameAction::Nothing, Answer::Number(0))
            },
        }
    }

    /// Point the string fields of an entity at its own cells. The engine wipes both when it clears
    /// an entity, so this follows every clearing and every spawn.
    pub fn setup_string_refs(&mut self, id: EntId)
        requires
            linkable(id, old(self).entities@.len()),
        ensures
            *final(self) == (GameState { entities: final(self).entities, ..*old(self) }),
            final(self).entities@ == old(self).entities@.update(id.0 as int, final(self).entities@[id.0 as int]),
            strings_linked(old(self).entities@[id.0 as int], final(self).entities@[id.0 as int], id.0 as int),
    {
        let at: usize = id.index();
        let base: i32 = (at * ENTITY_STRIDE + SHARED_FIELDS_SIZE) as i32;
        let slot = |i: usize| -> (r: i32)
            requires
                i < STRING_REF_COUNT,
                base == string_cell(id.0 as int, 0),
                string_cell(id.0 as int, STRING_REF_COUNT as int) <= i32::MAX,
            ensures
                r == string_cell(id.0 as int, i as int),
            {
                base + (i * STRING_CELL_SIZE) as i32
            };
        let mut v: EntVars = self.entities.slots[at].v;
        v.link_string_refs(slot);
        self.entities.slots[at].string_refs = [0, 0, 0, 0, 0, 0, 0, 0, 0, 0, 0];
        self.entities.slots[at].v = v;
        proof {
            let after = self.entities@[at as int];
            assert(after.string_refs@ =~= Seq::new(STRING_REF_COUNT as nat, |i: int| 0u64));
            assert forall|i: int| 0 <= i < STRING_REF_COUNT implies #[trigger] after.v.string_fields()[i] == string_cell(
                id.0 as int,
                i,
            ) by {
                assert(call_ensures(slot, (i as usize,), after.v.string_fields()[i as usize as int]));
            }
        }
    }

    /// Show a viewmodel: the string's address goes straight into its cell, zero for none.
    pub fn set_weaponmodel(&mut self, e: EntId, address: u64)
        requires
            e.0 < old(self).entities@.len(),
        ensures
            *final(self) == (GameState { entities: final(self).entities, ..*old(self) }),
            final(self).entities@ == old(self).entities@.update(e.0 as int, final(self).entities@[e.0 as int]),
            final(self).entities@[e.0 as int].string_refs@ == old(self).entities@[e.0 as int].string_refs@.update(
                STRING_REF_WEAPONMODEL as int,
                address,
            ),
            final(self).entities@[e.0 as int] == (Entity {
                string_refs: final(self).entities@[e.0 as int].string_refs,
                ..old(self).entities@[e.0 as int]
            }),
    {
        let at: usize = e.index();
        let mut cells: [u64; 11] = self.entities.slots[at].string_refs;
        cells[STRING_REF_WEAPONMODEL] = address;
        self.entities.slots[at].string_refs = cells;
    }

    /// The entity that the engine has made current.
    pub fn self_ent(&self) -> (e: EntId)
        ensures
            e == self.this(),
    {
        EntId::from_prog(self.self_)
    }

    /// The other party of the current callback.
    pub fn other_ent(&self) -> (e: EntId)
        ensures
            e == entity_at(self.other),
    {
        EntId::from_prog(self.other)
    }

    /// Make a slot the engine has handed out a fresh entity.
    pub fn spawn(&mut self, id: EntId)
        requires
            linkable(id, old(self).entities@.len()),
        ensures
            *final(self) == (GameState { entities: final(self).entities, ..*old(self) }),
            final(self).entities@ == old(self).entities@.update(id.0 as int, final(self).entities@[id.0 as int]),
            exists|fresh: Entity|
                fresh.is_spawned() && #[trigger] strings_linked(
                    fresh,
                    final(self).entities@[id.0 as int],
                    id.0 as int,
                ),
    {
        let at: usize = id.index();
        let mut fresh: Entity = Entity::cleared();
        fresh.reset();
        let ghost model = fresh;
        self.entities.slots.set(at, fresh);
        assert(self.entities@[at as int] == model);
        let ghost mid = self.entities@;
        self.setup_string_refs(id);
        assert(self.entities@ =~= old(self).entities@.update(id.0 as int, self.entities@[id.0 as int]));
        assert(strings_linked(model, self.entities@[id.0 as int], id.0 as int));
    }

    /// Give a slot back.
    pub fn free(&mut self, id: EntId)
        requires
            id.0 < old(self).entities@.len(),
        ensures
            *final(self) == (GameState { entities: final(self).entities, ..*old(self) }),
            final(self).entities@ == old(self).entities@.update(
                id.0 as int,
                Entity { in_use: false, ..old(self).entities@[id.0 as int] },
            ),
    {
        let at: usize = id.index();
        self.entities.slots[at].in_use = false;
        assert(self.entities@ =~= old(self).entities@.update(
            id.0 as int,
            Entity { in_use: false, ..old(self).entities@[id.0 as int] },
        ));
    }

    pub fn ent(&self, id: EntId) -> (e: &Entity)
        requires
            id.0 < self.entities@.len(),
        ensures
            *e == self.entities@[id.0 as int],
    {
        &self.entities.slots[id.index()]
    }

    pub fn ent_mut(&mut self, id: EntId) -> (e: &mut Entity)
        requires
            id.0 < old(self).entities@.len(),
        ensures
            *e == old(self).entities@[id.0 as int],
            final(self).entities@ == old(self).entities@.update(id.0 as int, *final(e)),
            *final(self) == (GameState { entities: final(self).entities, ..*old(self) }),
    {
        let at: usize = id.index();
        &mut self.entities.slots[at]
    }

    /// The next random number, as a fraction of 2^24.
    pub fn random(&mut self) -> (r: u32)
        ensures
            final(self).rng == xorshift(old(self).rng),
            r == drawn(old(self).rng),
            r < 0x100_0000,
            *final(self) == (GameState { rng: final(self).rng, ..*old(self) }),
    {
        let mut x: u32 = self.rng;
        x = x ^ (x << 13u32);
        x = x ^ (x >> 17u32);
        x = x ^ (x << 5u32);
        self.rng = x;
        assert(x >> 8u32 < 0x100_0000u32) by (bit_vector);
        x >> 8u32
    }

    /// Start up. The seed, unless it is zero, is taken odd, so that the generator never starts from
    /// zero. An engine that speaks too old a version is refused.
    pub fn init(&mut self, random_seed: i32, api: i32) -> (accepted: bool)
        ensures
            accepted == (api >= GAME_API_VERSION),
            random_seed == 0 ==> final(self).rng == old(self).rng,
            random_seed != 0 ==> final(self).rng == (random_seed as u32) | 1u32,
            *final(self) == (GameState { rng: final(self).rng, ..*old(self) }),
    {
        if random_seed != 0 {
            self.rng = (random_seed as u32) | 1u32;
        }
        api >= GAME_API_VERSION
    }

    /// Whether a frame runs the world's rules: a bot frame does not.
    pub fn start_frame(&self, is_bot_frame: i32) -> (world: bool)
        ensures
            world == (is_bot_frame == 0),
    {
        is_bot_frame == 0
    }

    /// The live entities of class `name`, in order.
    pub fn find_by_classname(&self, name: &str) -> (r: Vec<EntId>)
        requires
            self.entities@.len() <= u32::MAX,
        ensures
            ids(r@) == matching_below(
                |i: int| self.entities@[i].in_use && self.entities@[i].class() == Some(name@),
                self.entities@.len() as int,
            ),
    {
        let mut r: Vec<EntId> = Vec::new();
        let n: usize = self.entities.slots.len();
        let mut i: usize = 0;
        let ghost test = |i: int| self.entities@[i].in_use && self.entities@[i].class() == Some(name@);
        assert(ids(r@) =~= Seq::<int>::empty());
        while i < n
            invariant
                i <= n,
                n == self.entities@.len(),
                n <= u32::MAX,
                test == (|i: int| self.entities@[i].in_use && self.entities@[i].class() == Some(name@)),
                ids(r@) == matching_below(test, i as int),
            decreases n - i,
        {
            let ghost before = r@;
            if self.entities.slots[i].in_use && self.entities.slots[i].is_class(name) {
                r.push(EntId(i as u32));
                assert(ids(r@) =~= ids(before).push(i as int));
            }
            i = i + 1;
        }
        r
    }

    /// The live, solid entities within a radius, in order; `dist` holds how far the middle of each is.
    pub fn find_radius(&self, dist: &Vec<u32>, radius: u32) -> (r: Vec<EntId>)
        requires
            self.entities@.len() <= u32::MAX,
            dist@.len() == self.entities@.len(),
        ensures
            ids(r@) == matching_below(
                |i: int| self.entities@[i].in_use && self.entities@[i].v.solid != Solid::Not && dist@[i] <= radius,
                self.entities@.len() as int,
            ),
    {
        let mut r: Vec<EntId> = Vec::new();
        let n: usize = self.entities.slots.len();
        let mut i: usize = 0;
        let ghost test = |i: int|
            self.entities@[i].in_use && self.entities@[i].v.solid != Solid::Not && dist@[i] <= radius;
        assert(ids(r@) =~= Seq::<int>::empty());
        while i < n
            invariant
                i <= n,
                n == self.entities@.len(),
                n <= u32::MAX,
                dist@.len() == n,
                test == (|i: int|
                    self.entities@[i].in_use && self.entities@[i].v.solid != Solid::Not && dist@[i] <= radius),
                ids(r@) == matching_below(test, i as int),
            decreases n - i,
        {
            let ghost before = r@;
            if self.entities.slots[i].in_use && self.entities.slots[i].v.solid != Solid::Not && dist[i] <= radius {
                r.push(EntId(i as u32));
                assert(ids(r@) =~= ids(before).push(i as int));
            }
            i = i + 1;
        }
        r
    }
}

/// Entity numbers.
pub open spec fn ids(v: Seq<EntId>) -> Seq<int> {
    Seq::new(v.len(), |i: int| v[i].0 as int)
}

/// The numbers from zero below `n` that pass a test, in order.
pub open spec fn matching_below(test: spec_fn(int) -> bool, n: int) -> Seq<int>
    decreases n,
{
    if n <= 0 {
        Seq::empty()
    } else if test(n - 1) {
        matching_below(test, n - 1).push(n - 1)
    } else {
        matching_below(test, n - 1)
    }
}

/// A number is listed exactly where it passes the test, and the list is in rising order.
pub proof fn matching_is_exact(test: spec_fn(int) -> bool, n: int, i: int)
    ensures
        matching_below(test, n).contains(i) <==> 0 <= i < n && test(i),
        forall|k: int, l: int|
            0 <= k < l < matching_below(test, n).len() ==> matching_below(test, n)[k] < matching_below(test, n)[l],
        forall|k: int| 0 <= k < matching_below(test, n).len() ==> 0 <= #[trigger] matching_below(test, n)[k] < n,
    decreases n,
{
    if n > 0 {
        matching_is_exact(test, n - 1, i);
        let shorter = matching_below(test, n - 1);
        if test(n - 1) {
            let longer = shorter.push(n - 1);
            assert(longer[shorter.len() as int] == n - 1);
            if shorter.contains(i) {
                let k = choose|k: int| 0 <= k < shorter.len() && shorter[k] == i;
                assert(longer[k] == i);
            }
            if longer.contains(i) && i != n - 1 {
                let k = choose|k: int| 0 <= k < longer.len() && longer[k] == i;
                assert(shorter[k] == i);
            }
        }
    }
}

/// The generator never gets stuck: from a state other than zero it reaches another such state.
pub proof fn generator_never_stalls(x: u32)
    requires
        x != 0,
    ensures
        xorshift(x) != 0,
{
    assert(x != 0 ==> ({
        let a: u32 = x ^ (x << 13u32);
        let b: u32 = a ^ (a >> 17u32);
        b ^ (b << 5u32)
    }) != 0) by (bit_vector);
}

/// A seed other than zero starts the generator from a state other than zero.
pub proof fn seeds_are_usable(seed: i32)
    ensures
        (seed as u32) | 1u32 != 0,
        DEFAULT_SEED != 0,
{
    let s: u32 = seed as u32;
    assert(s | 1u32 != 0) by (bit_vector);
}

/// No two string cells share a byte, and each lies in its own entity's record.
pub proof fn string_cells_are_disjoint(a: int, i: int, b: int, j: int)
    requires
        0 <= a,
        0 <= b,
        0 <= i < STRING_REF_COUNT,
        0 <= j < STRING_REF_COUNT,
        (a, i) != (b, j),
    ensures
        string_cell(a, i) + STRING_CELL_SIZE <= string_cell(b, j) || string_cell(b, j) + STRING_CELL_SIZE
            <= string_cell(a, i),
        a * ENTITY_STRIDE + SHARED_FIELDS_SIZE <= string_cell(a, i),
        string_cell(a, i) + STRING_CELL_SIZE <= (a + 1) * ENTITY_STRIDE,
        string_cell(a, i) % STRING_CELL_SIZE as int == 0,
{
    assert(string_cell(a, i) % 8 == 0) by {
        assert(string_cell(a, i) == 8 * (a * 64 + 51 + i)) by (nonlinear_arith)
            requires
                string_cell(a, i) == a * 512 + 408 + i * 8,
        ;
    }
    if a < b {
        assert((a + 1) * 512 <= b * 512);
    } else if b < a {
        assert((b + 1) * 512 <= a * 512);
    }
}

/// The entities with the shared fields of one replaced.
#[verifier::opaque]
pub open spec fn put_v(ents: Seq<Entity>, e: EntId, v: EntVars) -> Seq<Entity> {
    ents.update(e.0 as int, Entity { v, ..ents[e.0 as int] })
}

#[verifier::opaque]
pub open spec fn put_combat(ents: Seq<Entity>, e: EntId, combat: CombatState) -> Seq<Entity> {
    ents.update(e.0 as int, Entity { combat, ..ents[e.0 as int] })
}

/// The same with its next think, and the time of it in the shared fields, replaced too.
#[verifier::opaque]
pub open spec fn put_think(ents: Seq<Entity>, e: EntId, v: EntVars, think: Think) -> Seq<Entity> {
    ents.update(e.0 as int, Entity { v, think, ..ents[e.0 as int] })
}

impl GameState {
    /// Whether an entity number is one of this game's.
    pub open spec fn holds(self, e: EntId) -> bool {
        e.0 < self.entities@.len()
    }

    pub open spec fn at(self, e: EntId) -> Entity {
        self.entities@[e.0 as int]
    }

    /// Replace the shared fields of one entity.
    pub fn set_v(&mut self, e: EntId, v: EntVars)
        requires
            old(self).holds(e),
        ensures
            final(self).entities@ == put_v(old(self).entities@, e, v),
            final(self).at(e) == (Entity { v, ..old(self).at(e) }),
            final(self).entities@.len() == old(self).entities@.len(),
            *final(self) == (GameState { entities: final(self).entities, ..*old(self) }),
    {
        self.entities.slots[e.0 as usize].v = v;
        reveal(put_v);
        assert(self.entities@ =~= put_v(old(self).entities@, e, v));
    }

    /// Replace the fighting state of one entity.
    pub fn set_combat(&mut self, e: EntId, combat: CombatState)
        requires
            old(self).holds(e),
        ensures
            final(self).entities@ == put_combat(old(self).entities@, e, combat),
            final(self).at(e) == (Entity { combat, ..old(self).at(e) }),
            final(self).entities@.len() == old(self).entities@.len(),
            *final(self) == (GameState { entities: final(self).entities, ..*old(self) }),
    {
        self.entities.slots[e.0 as usize].combat = combat;
        reveal(put_combat);
        assert(self.entities@ =~= put_combat(old(self).entities@, e, combat));
    }

    /// Replace the shared fields and the next think of one entity.
    pub fn set_think(&mut self, e: EntId, v: EntVars, think: Think)
        requires
            old(self).holds(e),
        ensures
            final(self).entities@ == put_think(old(self).entities@, e, v, think),
            final(self).at(e) == (Entity { v, think, ..old(self).at(e) }),
            final(self).entities@.len() == old(self).entities@.len(),
            *final(self) == (GameState { entities: final(self).entities, ..*old(self) }),
    {
        self.entities.slots[e.0 as usize].v = v;
        self.entities.slots[e.0 as usize].think = think;
        reveal(put_think);
        assert(self.entities@ =~= put_think(old(self).entities@, e, v, think));
    }
}

// --- what the calls promise ---
/// A spectator comes, goes and thinks as one, and does not think ahead of a move; a player as a player.
pub proof fn spectators_are_kept_apart(arg0: i32, arg1: i32, this: EntId, other: EntId)
    ensures
        arg0 != 0 ==> action_of(GameCommand::ClientConnect, arg0, arg1, this, other) == GameAction::SpectatorConnect(this),
        arg0 == 0 ==> action_of(GameCommand::ClientConnect, arg0, arg1, this, other) == GameAction::ClientConnect(this),
        arg0 != 0 ==> action_of(GameCommand::PutClientInServer, arg0, arg1, this, other)
            == GameAction::PutSpectatorInServer(this),
        arg0 == 0 ==> action_of(GameCommand::PutClientInServer, arg0, arg1, this, other)
            == GameAction::PutClientInServer(this),
        arg0 != 0 ==> action_of(GameCommand::ClientDisconnect, arg0, arg1, this, other)
            == GameAction::SpectatorDisconnect(this),
        arg0 == 0 ==> action_of(GameCommand::ClientDisconnect, arg0, arg1, this, other) == GameAction::ClientDisconnect(
            this,
        ),
        arg0 != 0 ==> action_of(GameCommand::ClientPreThink, arg0, arg1, this, other) == GameAction::Nothing,
        arg0 == 0 ==> action_of(GameCommand::ClientPreThink, arg0, arg1, this, other) == GameAction::PlayerPreThink(this),
        arg0 != 0 ==> action_of(GameCommand::ClientPostThink, arg0, arg1, this, other) == GameAction::SpectatorThink(this),
        arg0 == 0 ==> action_of(GameCommand::ClientPostThink, arg0, arg1, this, other) == GameAction::PlayerPostThink(
            this,
        ),
{
}

/// The other calls do what they are named for, to the entities that the engine names.
pub proof fn calls_reach_their_entities(arg0: i32, arg1: i32, this: EntId, other: EntId)
    ensures
        action_of(GameCommand::Init, arg0, arg1, this, other) == GameAction::Init(arg1),
        action_of(GameCommand::LoadEntities, arg0, arg1, this, other) == GameAction::LoadEntities,
        action_of(GameCommand::StartFrame, arg0, arg1, this, other) == GameAction::StartFrame(arg1 != 0),
        action_of(GameCommand::SetNewParams, arg0, arg1, this, other) == GameAction::SetNewParms,
        action_of(GameCommand::SetChangeParams, arg0, arg1, this, other) == GameAction::SetChangeParms(this),
        action_of(GameCommand::EdictThink, arg0, arg1, this, other) == GameAction::RunThink(this),
        action_of(GameCommand::EdictTouch, arg0, arg1, this, other) == GameAction::RunTouch(this, other),
        action_of(GameCommand::EdictBlocked, arg0, arg1, this, other) == GameAction::RunBlocked(this, other),
        action_of(GameCommand::ClientCommand, arg0, arg1, this, other) == GameAction::ClientCommand(this),
        action_of(GameCommand::Shutdown, arg0, arg1, this, other) == GameAction::Nothing,
        action_of(GameCommand::ClientThink, arg0, arg1, this, other) == GameAction::Nothing,
        action_of(GameCommand::ClientUserInfoChanged, arg0, arg1, this, other) == GameAction::Nothing,
        action_of(GameCommand::ConsoleCommand, arg0, arg1, this, other) == GameAction::Nothing,
        action_of(GameCommand::ClientSay, arg0, arg1, this, other) == GameAction::Nothing,
        action_of(GameCommand::PausedTic, arg0, arg1, this, other) == GameAction::Nothing,
        action_of(GameCommand::ClearEdict, arg0, arg1, this, other) == GameAction::Nothing,
{
}

/// What a call answers: its own result where it has one, nothing where it is not handled, one where it
/// was.
pub proof fn calls_are_answered(cmd: GameCommand)
    ensures
        answer_of(cmd) == Answer::OfAction <==> cmd == GameCommand::Init || cmd == GameCommand::LoadEntities || cmd
            == GameCommand::ClientCommand,
        answer_of(cmd) == Answer::Number(0) <==> cmd == GameCommand::Shutdown || cmd == GameCommand::ClearEdict || cmd
            == GameCommand::ClientUserInfoChanged || cmd == GameCommand::ConsoleCommand || cmd == GameCommand::PausedTic,
        answer_of(cmd) != Answer::OfAction && answer_of(cmd) != Answer::Number(0) ==> answer_of(cmd) == Answer::Number(1),
{
}

/// An entity's number is its place in the engine's array, in entities of five hundred and twelve bytes.
pub proof fn entities_are_found_by_their_offset(n: u32)
    requires
        n <= 0x3f_ffff,
    ensures
        entity_at((n * 512) as i32) == EntId(n),
{
    assert((n as int * 512) / 512 == n as int);
}

/// Replacing a part of one entity changes that part of that entity.
pub proof fn entities_change_one_at_a_time(
    ents: Seq<Entity>,
    e: EntId,
    v: EntVars,
    combat: CombatState,
    think: Think,
    i: int,
)
    requires
        e.0 < ents.len(),
        0 <= i < ents.len(),
    ensures
        put_v(ents, e, v).len() == ents.len(),
        put_combat(ents, e, combat).len() == ents.len(),
        put_think(ents, e, v, think).len() == ents.len(),
        i == e.0 ==> put_v(ents, e, v)[i] == (Entity { v, ..ents[i] }),
        i == e.0 ==> put_combat(ents, e, combat)[i] == (Entity { combat, ..ents[i] }),
        i == e.0 ==> put_think(ents, e, v, think)[i] == (Entity { v, think, ..ents[i] }),
        i != e.0 ==> put_v(ents, e, v)[i] == ents[i] && put_combat(ents, e, combat)[i] == ents[i] && put_think(
            ents,
            e,
            v,
            think,
        )[i] == ents[i],
{
    reveal(put_v);
    reveal(put_combat);
    reveal(put_think);
}

/// A draw has twenty-four bits.
pub proof fn draws_have_twenty_four_bits(rng: u32)
    ensures
        drawn(rng) < 0x100_0000,
{
    let x = xorshift(rng);
    assert(x >> 8u32 < 0x100_0000) by (bit_vector);
}

/// An entity's strings are found through its own eleven cells, which stand in order behind its shared
/// fields and start out empty.
pub proof fn strings_are_found_through_cells(before: Entity, after: Entity, id: int, i: int)
    requires
        strings_linked(before, after, id),
        0 <= i < 11,
    ensures
        after.string_refs@[i] == 0,
        after.v.string_fields()[i] == 512 * id + 408 + 8 * i,
        after.v.health == before.v.health && after.v.items == before.v.items && after.think == before.think,
        after.classname == before.classname && after.in_use == before.in_use,
        after.v.classname == 512 * id + 408 && after.v.weaponmodel == 512 * id + 424 && after.v.netname == 512 * id + 432,
{
    assert(after.v.string_fields()[0] == string_cell(id, 0));
    assert(after.v.string_fields()[2] == string_cell(id, 2));
    assert(after.v.string_fields()[3] == string_cell(id, 3));
    assert(id * 512 == 512 * id);
}

/// The engine's interface is at version sixteen, with two thousand and forty-eight entities.
pub proof fn games_have_their_measures()
    ensures
        GAME_API_VERSION == 16 && MAX_EDICTS == 2048,
{
}

} // verus!
