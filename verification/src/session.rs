//! The combat and item state machine of one game run.
//!
//! `SessionState` holds everything a run tracks outside the entity
//! registry: the equipped item, the two ammo accounts, the reload
//! timer, health, the goal counter, the grapple, the floor pickups
//! and every feedback timestamp.  Each method mirrors one input or
//! timer transition of the per-frame loop; timestamps are compared
//! against the caller's monotonic clock, never scheduled.

use vstd::prelude::*;

use crate::geom::Vec2Fx;
use crate::entities::timer_at_most;
use crate::config::{
    GOAL_TARGET, START_HEALTH, GUN_CAP, MG_CAP, START_GUN_LOADED, START_GUN_RESERVE,
    START_MG_LOADED, START_MG_RESERVE, RELOAD_MS, MG_INTERVAL_MS, MAX_AMMO_PICKUPS,
};

verus! {

/// The equippable items, in hotbar order.
#[derive(Clone, Copy, PartialEq, Eq, Structural, Debug)]
pub enum Item {
    Knife,
    Mg,
    Gun,
}

/// Which ammo account a pickup credits.
#[derive(Clone, Copy, PartialEq, Eq, Structural, Debug)]
pub enum AmmoKind {
    Gun,
    Mg,
}

/// An ammo pickup lying on the floor.
#[derive(Clone, Copy, PartialEq, Eq, Structural, Debug)]
pub struct Pickup {
    pub pos: Vec2Fx,
    pub kind: AmmoKind,
}

/// What a trigger event did.
#[derive(Clone, Copy, PartialEq, Eq, Structural, Debug)]
pub enum FireAction {
    /// A round left the barrel: play the shoot cue and cast the ray.
    Shot,
    /// The magazine was empty: play the dry-fire cue, nothing else.
    Dry,
    /// The knife jab animation starts and its hit window opens.
    Jab,
    /// Nothing to do for this item on this edge.
    Idle,
}

/// Rounds moved by a reload: `min(reserve, cap, cap - loaded)`.
pub open spec fn reload_amount(reserve: i64, cap: i64, loaded: i64) -> int {
    let deficit = cap - loaded;
    let n = if reserve <= cap { reserve as int } else { cap as int };
    if n <= deficit { n } else { deficit }
}

/// The single-shot gun's account answers for `Gun`; the machine
/// gun's account answers for every other item (the reload that
/// completes with the knife out works the machine gun's account,
/// as the frame loop always did).
pub open spec fn uses_gun_account(item: Item) -> bool {
    item == Item::Gun
}

/// State of one game run, outside the entity registry.
pub struct SessionState {
    /// The equipped item.
    pub item: Item,
    /// Rounds in the single-shot gun's magazine.
    pub gun_loaded: i64,
    /// Reserve rounds for the single-shot gun.
    pub gun_reserve: i64,
    /// Rounds in the machine gun's magazine.
    pub mg_loaded: i64,
    /// Reserve rounds for the machine gun.
    pub mg_reserve: i64,
    /// When the pending reload started, if one is pending.
    pub reload_start: Option<u64>,
    /// Player health; the run freezes at zero.
    pub health: i64,
    /// When the player was last hurt.
    pub last_hurt: Option<u64>,
    /// Goal pickups collected; the run freezes at `GOAL_TARGET`.
    pub nuts_collected: i64,
    /// When the last impact screen shake started.
    pub shake_begin: Option<u64>,
    /// When the last weapon screen shake started.
    pub mg_shake_begin: Option<u64>,
    /// When the machine gun last fired (or dry-fired).
    pub mg_last_shot: Option<u64>,
    /// When the last knife jab was pressed.
    pub last_jab: Option<u64>,
    /// Whether a grapple pull is in flight.
    pub grappling: bool,
    /// Where the grapple is pulling the camera.
    pub grapple_target: Vec2Fx,
    /// The goal pickup on the floor, if one stands.
    pub goal: Option<Vec2Fx>,
    /// The ammo pickups on the floor.
    pub pickups: Vec<Pickup>,
}

impl SessionState {
    /// Well-formed: counters within their caps and non-negative,
    /// and every stored point in bounds.
    pub open spec fn wf(self) -> bool {
        &&& 0 <= self.gun_loaded <= GUN_CAP
        &&& 0 <= self.gun_reserve
        &&& 0 <= self.mg_loaded <= MG_CAP
        &&& 0 <= self.mg_reserve
        &&& 0 <= self.health <= START_HEALTH
        &&& 0 <= self.nuts_collected <= GOAL_TARGET
        &&& self.grapple_target.in_bounds()
        &&& (self.goal matches Some(p) ==> p.in_bounds())
        &&& self.pickups@.len() <= MAX_AMMO_PICKUPS
        &&& forall|i: int|
            0 <= i < self.pickups@.len() ==> (#[trigger] self.pickups@[i]).pos.in_bounds()
    }

    /// Every timestamp of the session was taken no later than `now`.
    pub open spec fn times_at_most(self, now: u64) -> bool {
        &&& timer_at_most(self.reload_start, now)
        &&& timer_at_most(self.last_hurt, now)
        &&& timer_at_most(self.shake_begin, now)
        &&& timer_at_most(self.mg_shake_begin, now)
        &&& timer_at_most(self.mg_last_shot, now)
        &&& timer_at_most(self.last_jab, now)
    }

    /// The simulation runs while the player lives and the goal count
    /// is short of the target; otherwise it is frozen and only a
    /// restart is accepted.
    pub open spec fn spec_running(self) -> bool {
        self.health > 0 && self.nuts_collected < GOAL_TARGET
    }

    /// The loaded count of the account that `item` works.
    pub open spec fn spec_loaded(self) -> i64 {
        if uses_gun_account(self.item) {
            self.gun_loaded
        } else {
            self.mg_loaded
        }
    }

    /// The reserve count of the account that `item` works.
    pub open spec fn spec_reserve(self) -> i64 {
        if uses_gun_account(self.item) {
            self.gun_reserve
        } else {
            self.mg_reserve
        }
    }

    /// The magazine capacity of the account that `item` works.
    pub open spec fn spec_cap(self) -> i64 {
        if uses_gun_account(self.item) {
            GUN_CAP
        } else {
            MG_CAP
        }
    }

    /// A fresh run: knife out, full magazines, full health, nothing
    /// collected, no timer armed.
    pub fn new() -> (r: SessionState)
        ensures
            r == (SessionState {
                item: Item::Knife,
                gun_loaded: START_GUN_LOADED,
                gun_reserve: START_GUN_RESERVE,
                mg_loaded: START_MG_LOADED,
                mg_reserve: START_MG_RESERVE,
                reload_start: None,
                health: START_HEALTH,
                last_hurt: None,
                nuts_collected: 0,
                shake_begin: None,
                mg_shake_begin: None,
                mg_last_shot: None,
                last_jab: None,
                grappling: false,
                grapple_target: (Vec2Fx { x: 0, y: 0 }),
                goal: None,
                pickups: r.pickups,
            }),
            r.pickups@ == Seq::<Pickup>::empty(),
            r.wf(),
            forall|now: u64| r.times_at_most(now),
    {
        SessionState {
            item: Item::Knife,
            gun_loaded: START_GUN_LOADED,
            gun_reserve: START_GUN_RESERVE,
            mg_loaded: START_MG_LOADED,
            mg_reserve: START_MG_RESERVE,
            reload_start: None,
            health: START_HEALTH,
            last_hurt: None,
            nuts_collected: 0,
            shake_begin: None,
            mg_shake_begin: None,
            mg_last_shot: None,
            last_jab: None,
            grappling: false,
            grapple_target: Vec2Fx::zero(),
            goal: None,
            pickups: Vec::new(),
        }
    }

    pub fn is_running(&self) -> (r: bool)
        ensures
            r == self.spec_running(),
    {
        self.health > 0 && self.nuts_collected < GOAL_TARGET
    }

    /// Equip `target`.  Nothing but the selection changes: in
    /// particular both ammo accounts and the reload timer survive
    /// any detour through other items untouched.
    pub fn switch_item(&mut self, target: Item) -> (changed: bool)
        ensures
            *final(self) == (SessionState { item: target, ..*old(self) }),
            changed == (old(self).item != target),
    {
        let changed: bool = self.item != target;
        self.item = target;
        changed
    }

    /// The reload key was pressed.  With a ranged item out and no
    /// reload pending, a reload starts at `now` (the caller unequips
    /// the viewmodel and plays the reload cue); a second press while
    /// one is pending is a no-op.
    pub fn reload_press(&mut self, now: u64) -> (started: bool)
        requires
            old(self).spec_running(),
        ensures
            started == (old(self).item != Item::Knife && old(self).reload_start is None),
            *final(self) == if started {
                (SessionState { reload_start: Some(now), ..*old(self) })
            } else {
                *old(self)
            },
    {
        if (self.item == Item::Gun || self.item == Item::Mg) && self.reload_start.is_none() {
            self.reload_start = Some(now);
            true
        } else {
            false
        }
    }

    /// Advance the reload timer.  Once `RELOAD_MS` have passed since
    /// the pending reload started, `min(reserve, cap, cap - loaded)`
    /// rounds move from reserve to magazine on the account the
    /// equipped item works, and the timer clears (the caller
    /// re-equips the viewmodel).  The magazine never exceeds its
    /// capacity and the reserve never goes negative.
    pub fn reload_tick(&mut self, now: u64) -> (done: bool)
        requires
            old(self).spec_running(),
            old(self).wf(),
            old(self).times_at_most(now),
        ensures
            done == (old(self).reload_start matches Some(start) && now - start > RELOAD_MS),
            !done ==> *final(self) == *old(self),
            done ==> final(self).spec_loaded() == old(self).spec_loaded() + reload_amount(
                old(self).spec_reserve(),
                old(self).spec_cap(),
                old(self).spec_loaded(),
            ),
            done ==> final(self).spec_reserve() == old(self).spec_reserve() - reload_amount(
                old(self).spec_reserve(),
                old(self).spec_cap(),
                old(self).spec_loaded(),
            ),
            done ==> final(self).spec_loaded() <= final(self).spec_cap(),
            done ==> final(self).spec_reserve() >= 0,
            done ==> final(self).reload_start is None,
            done ==> if uses_gun_account(old(self).item) {
                *final(self) == (SessionState {
                    reload_start: None,
                    gun_loaded: final(self).gun_loaded,
                    gun_reserve: final(self).gun_reserve,
                    ..*old(self)
                })
            } else {
                *final(self) == (SessionState {
                    reload_start: None,
                    mg_loaded: final(self).mg_loaded,
                    mg_reserve: final(self).mg_reserve,
                    ..*old(self)
                })
            },
            final(self).wf(),
    {
        if let Some(start) = self.reload_start {
            if now - start > RELOAD_MS {
                self.reload_start = None;
                if self.item == Item::Gun {
                    let deficit: i64 = GUN_CAP - self.gun_loaded;
                    let mut reloaded: i64 = if self.gun_reserve <= GUN_CAP {
                        self.gun_reserve
                    } else {
                        GUN_CAP
                    };
                    if reloaded > deficit {
                        reloaded = deficit;
                    }
                    self.gun_reserve = self.gun_reserve - reloaded;
                    self.gun_loaded = self.gun_loaded + reloaded;
                } else {
                    let deficit: i64 = MG_CAP - self.mg_loaded;
                    let mut reloaded: i64 = if self.mg_reserve <= MG_CAP {
                        self.mg_reserve
                    } else {
                        MG_CAP
                    };
                    if reloaded > deficit {
                        reloaded = deficit;
                    }
                    self.mg_reserve = self.mg_reserve - reloaded;
                    self.mg_loaded = self.mg_loaded + reloaded;
                }
                return true;
            }
        }
        false
    }

    /// The fire button went down this frame (edge).  The single-shot
    /// gun fires exactly one round per press, or dry-fires empty; the
    /// knife starts a jab window; the machine gun ignores the edge
    /// (it fires on hold).  With an empty magazine nothing changes
    /// but the dry cue.
    pub fn trigger_pressed(&mut self, now: u64) -> (r: FireAction)
        requires
            old(self).spec_running(),
            old(self).wf(),
        ensures
            old(self).item == Item::Gun && old(self).gun_loaded > 0 ==> {
                &&& r == FireAction::Shot
                &&& *final(self) == (SessionState {
                    gun_loaded: (old(self).gun_loaded - 1) as i64,
                    mg_shake_begin: Some(now),
                    ..*old(self)
                })
            },
            old(self).item == Item::Gun && old(self).gun_loaded == 0 ==> {
                &&& r == FireAction::Dry
                &&& *final(self) == *old(self)
            },
            old(self).item == Item::Knife ==> {
                &&& r == FireAction::Jab
                &&& *final(self) == (SessionState { last_jab: Some(now), ..*old(self) })
            },
            old(self).item == Item::Mg ==> {
                &&& r == FireAction::Idle
                &&& *final(self) == *old(self)
            },
            final(self).wf(),
            final(self).gun_reserve == old(self).gun_reserve,
            final(self).mg_loaded == old(self).mg_loaded,
            final(self).mg_reserve == old(self).mg_reserve,
    {
        match self.item {
            Item::Gun => {
                if self.gun_loaded > 0 {
                    self.mg_shake_begin = Some(now);
                    self.gun_loaded = self.gun_loaded - 1;
                    FireAction::Shot
                } else {
                    FireAction::Dry
                }
            },
            Item::Knife => {
                self.last_jab = Some(now);
                FireAction::Jab
            },
            Item::Mg => FireAction::Idle,
        }
    }

    /// The fire button is held this frame (level).  Only the machine
    /// gun listens, and only once per `MG_INTERVAL_MS`: inside the
    /// interval nothing changes; at the interval the shot timestamp
    /// and weapon shake always restart, and a round leaves the
    /// magazine only if one is loaded, else it dry-fires.
    pub fn trigger_held(&mut self, now: u64) -> (r: FireAction)
        requires
            old(self).spec_running(),
            old(self).wf(),
            old(self).times_at_most(now),
        ensures
            ({
                let ready = match old(self).mg_last_shot {
                    Some(t) => now - t > MG_INTERVAL_MS,
                    None => true,
                };
                if old(self).item != Item::Mg || !ready {
                    r == FireAction::Idle && *final(self) == *old(self)
                } else if old(self).mg_loaded > 0 {
                    &&& r == FireAction::Shot
                    &&& *final(self) == (SessionState {
                        mg_loaded: (old(self).mg_loaded - 1) as i64,
                        mg_last_shot: Some(now),
                        mg_shake_begin: Some(now),
                        ..*old(self)
                    })
                } else {
                    &&& r == FireAction::Dry
                    &&& *final(self) == (SessionState {
                        mg_last_shot: Some(now),
                        mg_shake_begin: Some(now),
                        ..*old(self)
                    })
                }
            }),
            final(self).wf(),
            final(self).gun_loaded == old(self).gun_loaded,
            final(self).gun_reserve == old(self).gun_reserve,
            final(self).mg_reserve == old(self).mg_reserve,
    {
        if self.item != Item::Mg {
            return FireAction::Idle;
        }
        let ready: bool = match self.mg_last_shot {
            Some(t) => now - t > MG_INTERVAL_MS,
            None => true,
        };
        if !ready {
            return FireAction::Idle;
        }
        self.mg_last_shot = Some(now);
        self.mg_shake_begin = Some(now);
        if self.mg_loaded > 0 {
            self.mg_loaded = self.mg_loaded - 1;
            FireAction::Shot
        } else {
            FireAction::Dry
        }
    }
}

} // verus!
