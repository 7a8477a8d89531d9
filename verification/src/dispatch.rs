//! Which routine each callback of an entity runs.
use crate::entity::{Blocked, Die, EntId, Entity, Pain, Think, Touch, Use};
use crate::game::GameState;
use vstd::prelude::*;

verus! {

/// The routines that callbacks run.
#[derive(Clone, Copy, PartialEq, Eq, Debug, Structural)]
pub enum Routine {
    /// The think of an entity, by itself.
    Think(Think),
    Explode,
    Missile,
    Bounce,
    /// A nail; a super nail hurts more.
    Spike { large: bool },
    Pickup(Touch),
    Trigger(Touch),
    DoorTouch,
    DoorTriggerField,
    PlatCenter,
    Changelevel,
    Movewall,
    UseTargets,
    Use(Use),
    DoorBlocked,
    PlatCrush,
    TrainBlocked,
    MovewallBlocked,
    PlayerPain,
    PlayerDie,
    TriggerKilled,
    ButtonKilled,
    DoorKilled,
    BarrelExplode,
}

/// The routine of a think.
pub open spec fn think_routine(t: Think) -> Option<Routine> {
    match t {
        Think::Nil => None,
        Think::GrenadeExplode => Some(Routine::Explode),
        _ => Some(Routine::Think(t)),
    }
}

/// The routine of a touch. Only monsters feel the trigger that makes them jump, and there are none.
pub open spec fn touch_routine(t: Touch) -> Option<Routine> {
    match t {
        Touch::Nil => None,
        Touch::TriggerMonsterjump => None,
        Touch::Missile => Some(Routine::Missile),
        Touch::Grenade => Some(Routine::Bounce),
        Touch::Spike => Some(Routine::Spike { large: false }),
        Touch::SuperSpike => Some(Routine::Spike { large: true }),
        Touch::ItemHealth | Touch::ItemArmor | Touch::ItemWeapon | Touch::ItemAmmo | Touch::ItemPowerup
        | Touch::Backpack => Some(Routine::Pickup(t)),
        Touch::Multi | Touch::Teleport | Touch::Hurt | Touch::Push | Touch::Tdeath | Touch::ButtonTouch => Some(
            Routine::Trigger(t),
        ),
        Touch::DoorTouch => Some(Routine::DoorTouch),
        Touch::DoorTriggerField => Some(Routine::DoorTriggerField),
        Touch::PlatCenter => Some(Routine::PlatCenter),
        Touch::Changelevel => Some(Routine::Changelevel),
        Touch::Movewall => Some(Routine::Movewall),
    }
}

/// The routine of a use; a relay passes it on to its targets.
pub open spec fn use_routine(u: Use) -> Option<Routine> {
    match u {
        Use::Nil => None,
        Use::TriggerRelay => Some(Routine::UseTargets),
        _ => Some(Routine::Use(u)),
    }
}

pub open spec fn blocked_routine(b: Blocked) -> Option<Routine> {
    match b {
        Blocked::Nil => None,
        Blocked::DoorBlocked => Some(Routine::DoorBlocked),
        Blocked::PlatBlocked => Some(Routine::PlatCrush),
        Blocked::TrainBlocked => Some(Routine::TrainBlocked),
        Blocked::MovewallBlocked => Some(Routine::MovewallBlocked),
    }
}

pub open spec fn pain_routine(p: Pain) -> Option<Routine> {
    match p {
        Pain::Nil => None,
        Pain::Player => Some(Routine::PlayerPain),
    }
}

pub open spec fn die_routine(d: Die) -> Option<Routine> {
    match d {
        Die::Nil => None,
        Die::Player => Some(Routine::PlayerDie),
        Die::GrenadeExplode => Some(Routine::Explode),
        Die::TriggerKilled => Some(Routine::TriggerKilled),
        Die::ButtonKilled => Some(Routine::ButtonKilled),
        Die::DoorKilled => Some(Routine::DoorKilled),
        Die::ExploBoxDie => Some(Routine::BarrelExplode),
    }
}

/// The routine of one think, whoever has it.
pub fn run_think_now(t: Think) -> (r: Option<Routine>)
    ensures
        r == think_routine(t),
{
    match t {
        Think::Nil => None,
        Think::GrenadeExplode => Some(Routine::Explode),
        _ => Some(Routine::Think(t)),
    }
}

impl GameState {
    /// What an entity's scheduled think runs.
    pub fn run_think(&self, e: EntId) -> (r: Option<Routine>)
        requires
            self.holds(e),
        ensures
            r == think_routine(self.at(e).think),
    {
        run_think_now(self.entities.slots[e.0 as usize].think)
    }

    /// What touching an entity runs.
    pub fn run_touch(&self, e: EntId) -> (r: Option<Routine>)
        requires
            self.holds(e),
        ensures
            r == touch_routine(self.at(e).touch),
    {
        let t = self.entities.slots[e.0 as usize].touch;
        match t {
            Touch::Nil => None,
            Touch::TriggerMonsterjump => None,
            Touch::Missile => Some(Routine::Missile),
            Touch::Grenade => Some(Routine::Bounce),
            Touch::Spike => Some(Routine::Spike { large: false }),
            Touch::SuperSpike => Some(Routine::Spike { large: true }),
            Touch::ItemHealth | Touch::ItemArmor | Touch::ItemWeapon | Touch::ItemAmmo | Touch::ItemPowerup
            | Touch::Backpack => Some(Routine::Pickup(t)),
            Touch::Multi | Touch::Teleport | Touch::Hurt | Touch::Push | Touch::Tdeath | Touch::ButtonTouch => Some(
                Routine::Trigger(t),
            ),
            Touch::DoorTouch => Some(Routine::DoorTouch),
            Touch::DoorTriggerField => Some(Routine::DoorTriggerField),
            Touch::PlatCenter => Some(Routine::PlatCenter),
            Touch::Changelevel => Some(Routine::Changelevel),
            Touch::Movewall => Some(Routine::Movewall),
        }
    }

    /// What using an entity runs.
    pub fn run_use(&self, e: EntId) -> (r: Option<Routine>)
        requires
            self.holds(e),
        ensures
            r == use_routine(self.at(e).use_),
    {
        let u = self.entities.slots[e.0 as usize].use_;
        match u {
            Use::Nil => None,
            Use::TriggerRelay => Some(Routine::UseTargets),
            _ => Some(Routine::Use(u)),
        }
    }

    /// What blocking an entity runs.
    pub fn run_blocked(&self, e: EntId) -> (r: Option<Routine>)
        requires
            self.holds(e),
        ensures
            r == blocked_routine(self.at(e).blocked),
    {
        match self.entities.slots[e.0 as usize].blocked {
            Blocked::Nil => None,
            Blocked::DoorBlocked => Some(Routine::DoorBlocked),
            Blocked::PlatBlocked => Some(Routine::PlatCrush),
            Blocked::TrainBlocked => Some(Routine::TrainBlocked),
            Blocked::MovewallBlocked => Some(Routine::MovewallBlocked),
        }
    }

    /// What hurting an entity runs.
    pub fn run_pain(&self, e: EntId) -> (r: Option<Routine>)
        requires
            self.holds(e),
        ensures
            r == pain_routine(self.at(e).th_pain),
    {
        match self.entities.slots[e.0 as usize].th_pain {
            Pain::Nil => None,
            Pain::Player => Some(Routine::PlayerPain),
        }
    }

    /// What killing an entity runs.
    pub fn run_die(&self, e: EntId) -> (r: Option<Routine>)
        requires
            self.holds(e),
        ensures
            r == die_routine(self.at(e).th_die),
    {
        match self.entities.slots[e.0 as usize].th_die {
            Die::Nil => None,
            Die::Player => Some(Routine::PlayerDie),
            Die::GrenadeExplode => Some(Routine::Explode),
            Die::TriggerKilled => Some(Routine::TriggerKilled),
            Die::ButtonKilled => Some(Routine::ButtonKilled),
            Die::DoorKilled => Some(Routine::DoorKilled),
            Die::ExploBoxDie => Some(Routine::BarrelExplode),
        }
    }
}

/// Every behaviour has its own routine: two entities run the same routine of a kind only where they
/// have the same behaviour, the two that do nothing when touched apart.
pub proof fn routines_are_distinct(a: Entity, b: Entity)
    ensures
        think_routine(a.think) == think_routine(b.think) ==> a.think == b.think,
        touch_routine(a.touch) == touch_routine(b.touch) && touch_routine(a.touch) is Some ==> a.touch == b.touch,
        use_routine(a.use_) == use_routine(b.use_) ==> a.use_ == b.use_,
        blocked_routine(a.blocked) == blocked_routine(b.blocked) ==> a.blocked == b.blocked,
        pain_routine(a.th_pain) == pain_routine(b.th_pain) ==> a.th_pain == b.th_pain,
        die_routine(a.th_die) == die_routine(b.th_die) ==> a.th_die == b.th_die,
{
}

/// What runs for what: nothing where nothing is set, and else the routine of that name.
pub proof fn routines_do_what_they_are_set_for(t: Touch)
    ensures
        think_routine(Think::Nil) is None && touch_routine(Touch::Nil) is None && use_routine(Use::Nil) is None,
        blocked_routine(Blocked::Nil) is None && pain_routine(Pain::Nil) is None && die_routine(Die::Nil) is None,
        think_routine(Think::GrenadeExplode) == Some(Routine::Explode),
        think_routine(Think::DoorGoDown) == Some(Routine::Think(Think::DoorGoDown)),
        touch_routine(Touch::TriggerMonsterjump) is None,
        touch_routine(Touch::Missile) == Some(Routine::Missile) && touch_routine(Touch::Grenade) == Some(Routine::Bounce),
        touch_routine(Touch::Spike) == Some(Routine::Spike { large: false }),
        touch_routine(Touch::SuperSpike) == Some(Routine::Spike { large: true }),
        touch_routine(t) == Some(Routine::Pickup(t)) <==> t == Touch::ItemHealth || t == Touch::ItemArmor || t
            == Touch::ItemWeapon || t == Touch::ItemAmmo || t == Touch::ItemPowerup || t == Touch::Backpack,
        touch_routine(t) == Some(Routine::Trigger(t)) <==> t == Touch::Multi || t == Touch::Teleport || t == Touch::Hurt || t
            == Touch::Push || t == Touch::Tdeath || t == Touch::ButtonTouch,
        touch_routine(Touch::DoorTouch) == Some(Routine::DoorTouch),
        touch_routine(Touch::DoorTriggerField) == Some(Routine::DoorTriggerField),
        touch_routine(Touch::PlatCenter) == Some(Routine::PlatCenter),
        touch_routine(Touch::Changelevel) == Some(Routine::Changelevel),
        touch_routine(Touch::Movewall) == Some(Routine::Movewall),
        use_routine(Use::TriggerRelay) == Some(Routine::UseTargets),
        use_routine(Use::DoorUse) == Some(Routine::Use(Use::DoorUse)),
        blocked_routine(Blocked::DoorBlocked) == Some(Routine::DoorBlocked),
        blocked_routine(Blocked::PlatBlocked) == Some(Routine::PlatCrush),
        blocked_routine(Blocked::TrainBlocked) == Some(Routine::TrainBlocked),
        blocked_routine(Blocked::MovewallBlocked) == Some(Routine::MovewallBlocked),
        pain_routine(Pain::Player) == Some(Routine::PlayerPain) && die_routine(Die::Player) == Some(Routine::PlayerDie),
        die_routine(Die::GrenadeExplode) == Some(Routine::Explode) && die_routine(Die::ExploBoxDie) == Some(
            Routine::BarrelExplode,
        ),
        die_routine(Die::DoorKilled) == Some(Routine::DoorKilled) && die_routine(Die::ButtonKilled) == Some(
            Routine::ButtonKilled,
        ),
        die_routine(Die::TriggerKilled) == Some(Routine::TriggerKilled),
{
}

} // verus!
